//! The login flow controller: homeserver discovery and credential submission.
//!
//! The controller is a state machine with two slots, discovery and login,
//! driven once per redraw.  Background work (opening the connection,
//! enumerating methods, authenticating) runs outside this crate; each
//! submission hands the caller a command carrying a fresh ticket, and every
//! background result comes back tagged with the ticket of the submission
//! that started it.  A result whose ticket is no longer current belongs to
//! an orphaned task and changes nothing: this is how dropping and replacing
//! a pending result channel wholesale on re-submission shows up here.

use vstd::prelude::*;
use vstd::string::StringExecFns;

verus! {

/// An authentication mechanism offered to the user.
#[derive(Clone, Copy, PartialEq, Eq, Structural, Debug)]
pub enum LoginMethod {
    Password,
    Sso,
}

/// This crate's model of one server-advertised login mechanism descriptor:
/// password login, single-sign-on together with the identity providers it
/// lists, or any other mechanism (unsupported here).
#[derive(Debug)]
pub enum MethodDescriptor {
    Password,
    Sso { identity_providers: Vec<String> },
    Other,
}

/// Which user-facing choice, if any, one descriptor contributes.
/// Single-sign-on entries that list specific identity providers are dropped
/// entirely rather than surfaced as a generic single-sign-on choice.
pub open spec fn kept_method(d: MethodDescriptor) -> Option<LoginMethod> {
    match d {
        MethodDescriptor::Password => Some(LoginMethod::Password),
        MethodDescriptor::Sso { identity_providers } => if identity_providers@.len() == 0 {
            Some(LoginMethod::Sso)
        } else {
            None
        },
        MethodDescriptor::Other => None,
    }
}

/// The user-facing choices kept from a descriptor list, in order.
pub open spec fn filtered_methods(ds: Seq<MethodDescriptor>) -> Seq<LoginMethod>
    decreases ds.len(),
{
    if ds.len() == 0 {
        Seq::empty()
    } else {
        let rest = filtered_methods(ds.drop_last());
        match kept_method(ds.last()) {
            Some(m) => rest.push(m),
            None => rest,
        }
    }
}

/// Keep the password and bare single-sign-on entries of a descriptor list,
/// in order, dropping everything else.
pub fn filter_methods(descriptors: &Vec<MethodDescriptor>) -> (methods: Vec<LoginMethod>)
    ensures
        methods@ == filtered_methods(descriptors@),
{
    let mut methods: Vec<LoginMethod> = Vec::new();
    let mut i: usize = 0;
    while i < descriptors.len()
        invariant
            i <= descriptors@.len(),
            methods@ == filtered_methods(descriptors@.take(i as int)),
        decreases descriptors@.len() - i,
    {
        match &descriptors[i] {
            MethodDescriptor::Password => methods.push(LoginMethod::Password),
            MethodDescriptor::Sso { identity_providers } => {
                if identity_providers.len() == 0 {
                    methods.push(LoginMethod::Sso);
                }
            },
            MethodDescriptor::Other => {},
        }
        proof {
            let taken = descriptors@.take(i as int + 1);
            assert(taken.drop_last() =~= descriptors@.take(i as int));
            assert(taken.last() == descriptors@[i as int]);
        }
        i = i + 1;
    }
    proof {
        assert(descriptors@.take(descriptors@.len() as int) =~= descriptors@);
    }
    methods
}

/// Law: a descriptor that the filter drops (an unknown mechanism, or a
/// single-sign-on entry naming specific identity providers) is invisible in
/// the offered choices: appending it changes nothing.
pub proof fn lemma_dropped_descriptor_invisible(ds: Seq<MethodDescriptor>, d: MethodDescriptor)
    requires
        kept_method(d) is None,
    ensures
        filtered_methods(ds.push(d)) == filtered_methods(ds),
{
    assert(ds.push(d).drop_last() =~= ds);
    assert(ds.push(d).last() == d);
}

/// Law: a choice is offered exactly when some descriptor in the list is kept
/// as that choice.  In particular a single-sign-on choice appears only when
/// some advertised single-sign-on descriptor carries no identity providers.
pub proof fn lemma_method_offered_iff_kept(ds: Seq<MethodDescriptor>, m: LoginMethod)
    ensures
        filtered_methods(ds).contains(m) <==> (exists|i: int|
            0 <= i < ds.len() && kept_method(ds[i]) == Some(m)),
    decreases ds.len(),
{
    let fs = filtered_methods(ds);
    if ds.len() == 0 {
    } else {
        let prefix = ds.drop_last();
        lemma_method_offered_iff_kept(prefix, m);
        let rest = filtered_methods(prefix);
        if fs.contains(m) {
            let j = choose|j: int| 0 <= j < fs.len() && fs[j] == m;
            if j < rest.len() {
                assert(rest[j] == m);
                assert(rest.contains(m));
                let i = choose|i: int| 0 <= i < prefix.len() && kept_method(prefix[i]) == Some(m);
                assert(ds[i] == prefix[i]);
                assert(kept_method(ds[i]) == Some(m));
            } else {
                assert(kept_method(ds[ds.len() - 1]) == Some(m));
            }
        }
        if exists|i: int| 0 <= i < ds.len() && kept_method(ds[i]) == Some(m) {
            let i = choose|i: int| 0 <= i < ds.len() && kept_method(ds[i]) == Some(m);
            if i == ds.len() - 1 {
                match kept_method(ds.last()) {
                    Some(k) => {
                        assert(fs.last() == k);
                        assert(fs.contains(m));
                    },
                    None => {
                        assert(false);
                    },
                }
            } else {
                assert(kept_method(prefix[i]) == Some(m));
                assert(rest.contains(m));
                let j = choose|j: int| 0 <= j < rest.len() && rest[j] == m;
                assert(fs[j] == m);
                assert(fs.contains(m));
            }
        }
    }
}

/// Why a discovery attempt failed.
#[derive(Clone, Copy, PartialEq, Eq, Structural, Debug)]
pub enum DiscoveryError {
    InvalidAddress,
    HostUnreachable,
    MethodEnumerationFailed,
}

impl DiscoveryError {
    /// The user-visible reason text for each failure.
    pub open spec fn spec_message(self) -> Seq<char> {
        match self {
            DiscoveryError::InvalidAddress => "invalid address"@,
            DiscoveryError::HostUnreachable => "host unreachable"@,
            DiscoveryError::MethodEnumerationFailed => "could not enumerate methods"@,
        }
    }

    /// The user-visible reason for a failed discovery.
    pub fn message(&self) -> (m: String)
        ensures
            m@ == self.spec_message(),
    {
        match self {
            DiscoveryError::InvalidAddress => String::from_str("invalid address"),
            DiscoveryError::HostUnreachable => String::from_str("host unreachable"),
            DiscoveryError::MethodEnumerationFailed => String::from_str(
                "could not enumerate methods",
            ),
        }
    }
}

/// Where homeserver discovery stands.  The offered methods appear only once
/// discovery has resolved.
#[derive(Debug)]
pub enum HomeserverState {
    Idle,
    GettingAuthTypes,
    AuthTypes(Vec<LoginMethod>),
    Error(DiscoveryError),
}

/// The mathematical shape of `HomeserverState`: the method list as a sequence.
#[verifier::ext_equal]
pub enum HomeserverStateView {
    Idle,
    GettingAuthTypes,
    AuthTypes(Seq<LoginMethod>),
    Error(DiscoveryError),
}

impl View for HomeserverState {
    type V = HomeserverStateView;

    open spec fn view(&self) -> HomeserverStateView {
        match self {
            HomeserverState::Idle => HomeserverStateView::Idle,
            HomeserverState::GettingAuthTypes => HomeserverStateView::GettingAuthTypes,
            HomeserverState::AuthTypes(ms) => HomeserverStateView::AuthTypes(ms@),
            HomeserverState::Error(e) => HomeserverStateView::Error(*e),
        }
    }
}

/// Where the login attempt stands.  A failure keeps the server-provided
/// message text.
#[derive(Debug)]
pub enum LoginState {
    Idle,
    WaitingForUser,
    LoggingIn,
    Success,
    Error(String),
}

/// What a background discovery task reports: progress once the connection is
/// open, the advertised descriptor list together with the live session
/// handle, or a failure.
pub enum DiscoveryEvent<C> {
    GettingAuthTypes,
    Resolved(Vec<MethodDescriptor>, C),
    Failed(DiscoveryError),
}

/// What a background login task reports.
#[derive(Debug)]
pub enum LoginEvent {
    WaitingForUser,
    Succeeded,
    Failed(String),
}

/// What a successful discovery submission asks the caller to do: open a
/// connection to `url` in the background, enumerate the login methods there,
/// and report every outcome back tagged with `ticket`.
pub struct DiscoveryCommand {
    pub ticket: u64,
    pub url: String,
}

/// What a login submission asks the caller to do: authenticate in the
/// background over `client` and report the outcome back tagged with
/// `ticket`.
pub struct LoginCommand<C> {
    pub ticket: u64,
    pub client: C,
}

/// The login flow controller.  `C` is the session handle produced by a
/// resolved discovery; the controller only holds and hands it over, so the
/// handle stays opaque here.
pub struct LoginApp<C> {
    pub homeserver_status: HomeserverState,
    pub discovery_gen: u64,
    pub discovery_pending: bool,
    pub login_status: LoginState,
    pub login_gen: u64,
    pub login_pending: bool,
    pub client: Option<C>,
}

/// The mathematical state of the controller, over which the contracts and
/// the laws below speak.
#[verifier::ext_equal]
pub struct LoginAppView<C> {
    pub homeserver_status: HomeserverStateView,
    pub discovery_gen: u64,
    pub discovery_pending: bool,
    pub login_status: LoginState,
    pub login_gen: u64,
    pub login_pending: bool,
    pub client: Option<C>,
}

impl<C> View for LoginApp<C> {
    type V = LoginAppView<C>;

    open spec fn view(&self) -> LoginAppView<C> {
        LoginAppView {
            homeserver_status: self.homeserver_status@,
            discovery_gen: self.discovery_gen,
            discovery_pending: self.discovery_pending,
            login_status: self.login_status,
            login_gen: self.login_gen,
            login_pending: self.login_pending,
            client: self.client,
        }
    }
}

impl<C> LoginAppView<C> {
    /// The state in which the login dialog starts: nothing resolved, nothing
    /// pending, no session held.
    pub open spec fn init() -> LoginAppView<C> {
        LoginAppView {
            homeserver_status: HomeserverStateView::Idle,
            discovery_gen: 0,
            discovery_pending: false,
            login_status: LoginState::Idle,
            login_gen: 0,
            login_pending: false,
            client: None,
        }
    }

    /// Whether a discovery submission is acted on: re-submission is ignored
    /// while the method list is actively being fetched, and allowed from the
    /// idle, resolved and failed states.
    pub open spec fn discovery_gate_open(self) -> bool {
        !(self.homeserver_status is GettingAuthTypes)
    }

    /// Effect of submitting the homeserver field.  When the submission is
    /// acted on, the pending-result slot is replaced — any earlier background
    /// discovery is thereby orphaned — and the held session is dropped; an
    /// address that does not parse fails at once, with no background work
    /// started.
    pub open spec fn after_discovery_submit(self, parse_ok: bool) -> LoginAppView<C> {
        if !self.discovery_gate_open() {
            self
        } else if parse_ok {
            LoginAppView {
                homeserver_status: self.homeserver_status,
                discovery_gen: (self.discovery_gen + 1) as u64,
                discovery_pending: true,
                login_status: self.login_status,
                login_gen: self.login_gen,
                login_pending: self.login_pending,
                client: None,
            }
        } else {
            LoginAppView {
                homeserver_status: HomeserverStateView::Error(DiscoveryError::InvalidAddress),
                discovery_gen: (self.discovery_gen + 1) as u64,
                discovery_pending: false,
                login_status: self.login_status,
                login_gen: self.login_gen,
                login_pending: self.login_pending,
                client: None,
            }
        }
    }

    /// Effect of one delivered discovery result.  A result tagged with a
    /// ticket other than the current one — or arriving while nothing is
    /// pending — belongs to an orphaned task and changes nothing.
    pub open spec fn apply_discovery_event(self, ticket: u64, ev: DiscoveryEvent<C>) -> LoginAppView<
        C,
    > {
        if !self.discovery_pending || ticket != self.discovery_gen {
            self
        } else {
            match ev {
                DiscoveryEvent::GettingAuthTypes => LoginAppView {
                    homeserver_status: HomeserverStateView::GettingAuthTypes,
                    discovery_gen: self.discovery_gen,
                    discovery_pending: true,
                    login_status: self.login_status,
                    login_gen: self.login_gen,
                    login_pending: self.login_pending,
                    client: self.client,
                },
                DiscoveryEvent::Resolved(ds, c) => LoginAppView {
                    homeserver_status: HomeserverStateView::AuthTypes(filtered_methods(ds@)),
                    discovery_gen: self.discovery_gen,
                    discovery_pending: false,
                    login_status: self.login_status,
                    login_gen: self.login_gen,
                    login_pending: self.login_pending,
                    client: Some(c),
                },
                DiscoveryEvent::Failed(e) => LoginAppView {
                    homeserver_status: HomeserverStateView::Error(e),
                    discovery_gen: self.discovery_gen,
                    discovery_pending: false,
                    login_status: self.login_status,
                    login_gen: self.login_gen,
                    login_pending: self.login_pending,
                    client: self.client,
                },
            }
        }
    }

    /// Effect of submitting a login attempt (password or single-sign-on):
    /// the pending-result slot for login is replaced and the status turns to
    /// logging-in.
    pub open spec fn after_login_submit(self) -> LoginAppView<C> {
        LoginAppView {
            homeserver_status: self.homeserver_status,
            discovery_gen: self.discovery_gen,
            discovery_pending: self.discovery_pending,
            login_status: LoginState::LoggingIn,
            login_gen: (self.login_gen + 1) as u64,
            login_pending: true,
            client: self.client,
        }
    }

    /// Effect of one delivered login result; stale tickets change nothing.
    pub open spec fn apply_login_event(self, ticket: u64, ev: LoginEvent) -> LoginAppView<C> {
        if !self.login_pending || ticket != self.login_gen {
            self
        } else {
            match ev {
                LoginEvent::WaitingForUser => LoginAppView {
                    homeserver_status: self.homeserver_status,
                    discovery_gen: self.discovery_gen,
                    discovery_pending: self.discovery_pending,
                    login_status: LoginState::WaitingForUser,
                    login_gen: self.login_gen,
                    login_pending: true,
                    client: self.client,
                },
                LoginEvent::Succeeded => LoginAppView {
                    homeserver_status: self.homeserver_status,
                    discovery_gen: self.discovery_gen,
                    discovery_pending: self.discovery_pending,
                    login_status: LoginState::Success,
                    login_gen: self.login_gen,
                    login_pending: false,
                    client: self.client,
                },
                LoginEvent::Failed(msg) => LoginAppView {
                    homeserver_status: self.homeserver_status,
                    discovery_gen: self.discovery_gen,
                    discovery_pending: self.discovery_pending,
                    login_status: LoginState::Error(msg),
                    login_gen: self.login_gen,
                    login_pending: false,
                    client: self.client,
                },
            }
        }
    }

    /// Effect of one frame's drain: at most one result per slot.
    pub open spec fn step_receivers(
        self,
        discovery: Option<(u64, DiscoveryEvent<C>)>,
        login: Option<(u64, LoginEvent)>,
    ) -> LoginAppView<C> {
        let mid = match discovery {
            Some(d) => self.apply_discovery_event(d.0, d.1),
            None => self,
        };
        match login {
            Some(l) => mid.apply_login_event(l.0, l.1),
            None => mid,
        }
    }

    /// The state once the session handle has been handed over.
    pub open spec fn with_session_taken(self) -> LoginAppView<C> {
        LoginAppView {
            homeserver_status: self.homeserver_status,
            discovery_gen: self.discovery_gen,
            discovery_pending: self.discovery_pending,
            login_status: self.login_status,
            login_gen: self.login_gen,
            login_pending: self.login_pending,
            client: None,
        }
    }
}

/// Whether a string is accepted as an absolute URL.  Uninterpreted: the
/// result is pinned only as a function of the string alone; which strings
/// the grammar accepts is the url crate's affair.
pub uninterp spec fn url_parse_ok(s: Seq<char>) -> bool;

/// Relies on url::Url::parse: a pure parser whose acceptance of a string
/// depends on the string alone.
#[verifier::external_body]
fn url_is_parsable(s: &str) -> (ok: bool)
    ensures
        ok == url_parse_ok(s@),
{
    url::Url::parse(s).is_ok()
}

/// The connection target derived from the homeserver field.
pub open spec fn with_scheme(host: Seq<char>) -> Seq<char> {
    "https://"@ + host
}

impl<C> LoginApp<C> {
    /// A fresh login dialog.
    pub fn new() -> (app: LoginApp<C>)
        ensures
            app@ == LoginAppView::<C>::init(),
    {
        LoginApp {
            homeserver_status: HomeserverState::Idle,
            discovery_gen: 0,
            discovery_pending: false,
            login_status: LoginState::Idle,
            login_gen: 0,
            login_pending: false,
            client: None,
        }
    }

    /// Submit the homeserver field for discovery.  When the submission is
    /// acted on and the derived address parses, the returned command asks the caller to
    /// connect and enumerate login methods in the background, reporting every
    /// outcome under the command's ticket; an unparsable address fails at
    /// once and no command is returned.
    pub fn get_auth_methods(&mut self, homeserver: &str) -> (cmd: Option<DiscoveryCommand>)
        requires
            old(self).discovery_gen < u64::MAX,
        ensures
            final(self)@ == old(self)@.after_discovery_submit(
                url_parse_ok(with_scheme(homeserver@)),
            ),
            cmd is Some <==> (old(self)@.discovery_gate_open() && url_parse_ok(
                with_scheme(homeserver@),
            )),
            cmd matches Some(c) ==> c.ticket == final(self)@.discovery_gen && c.url@ == with_scheme(
                homeserver@,
            ),
    {
        match &self.homeserver_status {
            HomeserverState::GettingAuthTypes => None,
            _ => {
                let target = String::from_str("https://").concat(homeserver);
                self.discovery_gen = self.discovery_gen + 1;
                self.client = None;
                if url_is_parsable(target.as_str()) {
                    self.discovery_pending = true;
                    Some(DiscoveryCommand { ticket: self.discovery_gen, url: target })
                } else {
                    self.discovery_pending = false;
                    self.homeserver_status = HomeserverState::Error(DiscoveryError::InvalidAddress);
                    None
                }
            },
        }
    }

    /// Drain one frame's worth of background results: at most one per slot,
    /// never blocking.  With nothing delivered this is a no-op.
    pub fn update_receivers(
        &mut self,
        discovery: Option<(u64, DiscoveryEvent<C>)>,
        login: Option<(u64, LoginEvent)>,
    )
        ensures
            final(self)@ == old(self)@.step_receivers(discovery, login),
    {
        match discovery {
            Some((ticket, ev)) => self.apply_discovery(ticket, ev),
            None => {},
        }
        match login {
            Some((ticket, ev)) => self.apply_login(ticket, ev),
            None => {},
        }
    }

    fn apply_discovery(&mut self, ticket: u64, ev: DiscoveryEvent<C>)
        ensures
            final(self)@ == old(self)@.apply_discovery_event(ticket, ev),
    {
        if !self.discovery_pending || ticket != self.discovery_gen {
            return ;
        }
        match ev {
            DiscoveryEvent::GettingAuthTypes => {
                self.homeserver_status = HomeserverState::GettingAuthTypes;
            },
            DiscoveryEvent::Resolved(ds, c) => {
                let methods = filter_methods(&ds);
                self.homeserver_status = HomeserverState::AuthTypes(methods);
                self.client = Some(c);
                self.discovery_pending = false;
            },
            DiscoveryEvent::Failed(e) => {
                self.homeserver_status = HomeserverState::Error(e);
                self.discovery_pending = false;
            },
        }
    }

    fn apply_login(&mut self, ticket: u64, ev: LoginEvent)
        ensures
            final(self)@ == old(self)@.apply_login_event(ticket, ev),
    {
        if !self.login_pending || ticket != self.login_gen {
            return ;
        }
        match ev {
            LoginEvent::WaitingForUser => {
                self.login_status = LoginState::WaitingForUser;
            },
            LoginEvent::Succeeded => {
                self.login_status = LoginState::Success;
                self.login_pending = false;
            },
            LoginEvent::Failed(msg) => {
                self.login_status = LoginState::Error(msg);
                self.login_pending = false;
            },
        }
    }

    /// True exactly when the login attempt has succeeded.
    pub fn ready(&self) -> (r: bool)
        ensures
            r == (self@.login_status is Success),
    {
        match &self.login_status {
            LoginState::Success => true,
            _ => false,
        }
    }

    /// Hand the session handle over, exactly once: the slot is left empty,
    /// so a second call returns nothing.
    pub fn take_client(&mut self) -> (c: Option<C>)
        ensures
            c == old(self)@.client,
            final(self)@ == old(self)@.with_session_taken(),
    {
        self.client.take()
    }
}

impl<C: Clone> LoginApp<C> {
    /// Submit credential login.  Needs the session handle that a resolved
    /// discovery produced; the returned command carries a clone of it for
    /// the background task, together with the attempt's ticket.
    pub fn password_login(&mut self) -> (cmd: LoginCommand<C>)
        requires
            old(self).client is Some,
            old(self).login_gen < u64::MAX,
        ensures
            final(self)@ == old(self)@.after_login_submit(),
            cmd.ticket == final(self)@.login_gen,
            cloned(old(self)@.client.unwrap(), cmd.client),
    {
        let client = self.client.as_ref().unwrap().clone();
        self.login_gen = self.login_gen + 1;
        self.login_pending = true;
        self.login_status = LoginState::LoggingIn;
        LoginCommand { ticket: self.login_gen, client }
    }

    /// Submit single-sign-on login.  The background task is expected to
    /// report waiting-for-user once the browser is launched, then the
    /// outcome; the controller state moves exactly as for password login.
    pub fn sso_login(&mut self) -> (cmd: LoginCommand<C>)
        requires
            old(self).client is Some,
            old(self).login_gen < u64::MAX,
        ensures
            final(self)@ == old(self)@.after_login_submit(),
            cmd.ticket == final(self)@.login_gen,
            cloned(old(self)@.client.unwrap(), cmd.client),
    {
        let client = self.client.as_ref().unwrap().clone();
        self.login_gen = self.login_gen + 1;
        self.login_pending = true;
        self.login_status = LoginState::LoggingIn;
        LoginCommand { ticket: self.login_gen, client }
    }
}

/// Law: an address that fails URL parsing fails discovery at once: the state
/// shows the invalid-address error and no background work is left pending.
pub proof fn lemma_unparsable_address_fails_discovery<C>(m: LoginAppView<C>)
    requires
        m.discovery_gate_open(),
        m.discovery_gen < u64::MAX,
    ensures
        m.after_discovery_submit(false).homeserver_status == HomeserverStateView::Error(
            DiscoveryError::InvalidAddress,
        ),
        !m.after_discovery_submit(false).discovery_pending,
{
}

/// Law: a discovery submission that goes through replaces the pending-result
/// slot: a result tagged with any earlier ticket can no longer change the
/// state, whichever result it is.
pub proof fn lemma_resubmission_discards_prior<C>(
    m: LoginAppView<C>,
    parse_ok: bool,
    ticket: u64,
    ev: DiscoveryEvent<C>,
)
    requires
        ticket <= m.discovery_gen,
        m.discovery_gen < u64::MAX,
        m.discovery_gate_open(),
    ensures
        m.after_discovery_submit(parse_ok).apply_discovery_event(ticket, ev)
            == m.after_discovery_submit(parse_ok),
{
}

/// Law: a login submission likewise replaces the pending login slot: the
/// outcome of any earlier attempt, tagged with its old ticket, can no longer
/// change the state.
pub proof fn lemma_login_resubmission_discards_prior<C>(
    m: LoginAppView<C>,
    ticket: u64,
    ev: LoginEvent,
)
    requires
        ticket <= m.login_gen,
        m.login_gen < u64::MAX,
    ensures
        m.after_login_submit().apply_login_event(ticket, ev) == m.after_login_submit(),
{
}

/// Law: draining with no pending result delivered changes nothing, however
/// often it is repeated.
pub proof fn lemma_poll_without_results_is_noop<C>(m: LoginAppView<C>)
    ensures
        m.step_receivers(None, None) == m,
{
}

/// Law: the session handle is handed out at most once.  The first take
/// yields whatever is held; afterwards the slot is empty, so a second take
/// yields nothing and leaves the state as it is.
pub proof fn lemma_take_session_twice<C>(m: LoginAppView<C>)
    ensures
        m.with_session_taken().client is None,
        m.with_session_taken().with_session_taken() == m.with_session_taken(),
{
}

} // verus!
