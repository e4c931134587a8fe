use dotmatrix::login::{
    DiscoveryError, DiscoveryEvent, HomeserverState, LoginApp, LoginEvent, LoginMethod, LoginState,
    MethodDescriptor, filter_methods,
};

#[test]
fn unparsable_homeserver_fails_immediately() {
    let mut app: LoginApp<u32> = LoginApp::new();
    let cmd = app.get_auth_methods("not a url");
    assert!(cmd.is_none());
    assert!(matches!(
        app.homeserver_status,
        HomeserverState::Error(DiscoveryError::InvalidAddress)
    ));
    assert!(!app.discovery_pending);
    assert!(app.client.is_none());
}

#[test]
fn empty_homeserver_fails_immediately() {
    let mut app: LoginApp<u32> = LoginApp::new();
    let cmd = app.get_auth_methods("");
    assert!(cmd.is_none());
    assert!(matches!(
        app.homeserver_status,
        HomeserverState::Error(DiscoveryError::InvalidAddress)
    ));
    assert!(!app.discovery_pending);
}

#[test]
fn parsable_homeserver_starts_discovery() {
    let mut app: LoginApp<u32> = LoginApp::new();
    let cmd = app.get_auth_methods("matrix.org").expect("should start discovery");
    assert_eq!(cmd.url, "https://matrix.org");
    assert_eq!(cmd.ticket, 1);
    assert!(matches!(app.homeserver_status, HomeserverState::Idle));
    assert!(app.discovery_pending);
}

#[test]
fn resubmission_discards_prior_result() {
    let mut app: LoginApp<u32> = LoginApp::new();
    let first = app.get_auth_methods("matrix.org").expect("should start discovery");
    let second = app.get_auth_methods("example.org").expect("should start discovery");
    assert_ne!(first.ticket, second.ticket);

    let stale = DiscoveryEvent::Resolved(vec![MethodDescriptor::Password], 7u32);
    app.update_receivers(Some((first.ticket, stale)), None);
    assert!(matches!(app.homeserver_status, HomeserverState::Idle));
    assert!(app.client.is_none());

    let current = DiscoveryEvent::Resolved(vec![MethodDescriptor::Password], 9u32);
    app.update_receivers(Some((second.ticket, current)), None);
    match &app.homeserver_status {
        HomeserverState::AuthTypes(methods) => {
            assert_eq!(*methods, vec![LoginMethod::Password]);
        }
        other => panic!("expected resolved methods, got {:?}", other),
    }
    assert_eq!(app.client, Some(9u32));
}

#[test]
fn resubmission_ignored_while_fetching() {
    let mut app: LoginApp<u32> = LoginApp::new();
    let cmd = app.get_auth_methods("matrix.org").expect("should start discovery");
    app.update_receivers(Some((cmd.ticket, DiscoveryEvent::GettingAuthTypes)), None);
    assert!(matches!(app.homeserver_status, HomeserverState::GettingAuthTypes));

    let ignored = app.get_auth_methods("example.org");
    assert!(ignored.is_none());
    assert!(app.discovery_pending);
    assert_eq!(app.discovery_gen, cmd.ticket);
}

#[test]
fn sso_with_identity_providers_is_dropped() {
    let descriptors = vec![
        MethodDescriptor::Password,
        MethodDescriptor::Sso { identity_providers: vec!["provider-a".to_string()] },
        MethodDescriptor::Other,
        MethodDescriptor::Sso { identity_providers: vec![] },
    ];
    let methods = filter_methods(&descriptors);
    assert_eq!(methods, vec![LoginMethod::Password, LoginMethod::Sso]);
}

#[test]
fn only_unsupported_descriptors_yield_no_choices() {
    let descriptors = vec![
        MethodDescriptor::Other,
        MethodDescriptor::Sso {
            identity_providers: vec!["provider-a".to_string(), "provider-b".to_string()],
        },
    ];
    let methods = filter_methods(&descriptors);
    assert!(methods.is_empty());
}

#[test]
fn discovery_failure_reports_reason() {
    let mut app: LoginApp<u32> = LoginApp::new();
    let cmd = app.get_auth_methods("matrix.org").expect("should start discovery");
    app.update_receivers(
        Some((cmd.ticket, DiscoveryEvent::Failed(DiscoveryError::HostUnreachable))),
        None,
    );
    match &app.homeserver_status {
        HomeserverState::Error(e) => assert_eq!(e.message(), "host unreachable"),
        other => panic!("expected an error state, got {:?}", other),
    }
    assert!(!app.discovery_pending);
}

#[test]
fn method_enumeration_failure_reports_reason() {
    let mut app: LoginApp<u32> = LoginApp::new();
    let cmd = app.get_auth_methods("matrix.org").expect("should start discovery");
    app.update_receivers(Some((cmd.ticket, DiscoveryEvent::GettingAuthTypes)), None);
    app.update_receivers(
        Some((cmd.ticket, DiscoveryEvent::Failed(DiscoveryError::MethodEnumerationFailed))),
        None,
    );
    match &app.homeserver_status {
        HomeserverState::Error(e) => assert_eq!(e.message(), "could not enumerate methods"),
        other => panic!("expected an error state, got {:?}", other),
    }
}

#[test]
fn error_messages_are_exact() {
    assert_eq!(DiscoveryError::InvalidAddress.message(), "invalid address");
    assert_eq!(DiscoveryError::HostUnreachable.message(), "host unreachable");
    assert_eq!(
        DiscoveryError::MethodEnumerationFailed.message(),
        "could not enumerate methods"
    );
}

fn resolved_app(client: u32) -> LoginApp<u32> {
    let mut app: LoginApp<u32> = LoginApp::new();
    let cmd = app.get_auth_methods("matrix.org").expect("should start discovery");
    let descriptors = vec![MethodDescriptor::Password, MethodDescriptor::Sso {
        identity_providers: vec![],
    }];
    app.update_receivers(Some((cmd.ticket, DiscoveryEvent::Resolved(descriptors, client))), None);
    app
}

#[test]
fn password_login_succeeds_on_success_event() {
    let mut app = resolved_app(42);
    let cmd = app.password_login();
    assert_eq!(cmd.client, 42);
    assert!(matches!(app.login_status, LoginState::LoggingIn));
    assert!(!app.ready());

    app.update_receivers(None, Some((cmd.ticket, LoginEvent::Succeeded)));
    assert!(matches!(app.login_status, LoginState::Success));
    assert!(app.ready());
}

#[test]
fn password_login_failure_keeps_server_message() {
    let mut app = resolved_app(42);
    let cmd = app.password_login();
    app.update_receivers(
        None,
        Some((cmd.ticket, LoginEvent::Failed("wrong password".to_string()))),
    );
    match &app.login_status {
        LoginState::Error(msg) => assert_eq!(msg, "wrong password"),
        other => panic!("expected a login error, got {:?}", other),
    }
    assert!(!app.ready());
}

#[test]
fn sso_login_waits_then_succeeds() {
    let mut app = resolved_app(42);
    let cmd = app.sso_login();
    assert!(matches!(app.login_status, LoginState::LoggingIn));

    app.update_receivers(None, Some((cmd.ticket, LoginEvent::WaitingForUser)));
    assert!(matches!(app.login_status, LoginState::WaitingForUser));
    assert!(app.login_pending);

    app.update_receivers(None, Some((cmd.ticket, LoginEvent::Succeeded)));
    assert!(app.ready());
}

#[test]
fn stale_login_result_is_ignored() {
    let mut app = resolved_app(42);
    let first = app.password_login();
    let second = app.password_login();
    assert_ne!(first.ticket, second.ticket);

    app.update_receivers(None, Some((first.ticket, LoginEvent::Succeeded)));
    assert!(matches!(app.login_status, LoginState::LoggingIn));
    assert!(!app.ready());

    app.update_receivers(None, Some((second.ticket, LoginEvent::Succeeded)));
    assert!(app.ready());
}

#[test]
fn take_client_returns_handle_exactly_once() {
    let mut app = resolved_app(42);
    assert_eq!(app.take_client(), Some(42));
    assert_eq!(app.take_client(), None);
}

#[test]
fn poll_without_results_changes_nothing() {
    let mut app: LoginApp<u32> = LoginApp::new();
    app.update_receivers(None, None);
    app.update_receivers(None, None);
    assert!(matches!(app.homeserver_status, HomeserverState::Idle));
    assert!(matches!(app.login_status, LoginState::Idle));
    assert_eq!(app.discovery_gen, 0);
    assert_eq!(app.login_gen, 0);
    assert!(!app.discovery_pending);
    assert!(!app.login_pending);
    assert!(!app.ready());

    let mut resolved = resolved_app(42);
    resolved.update_receivers(None, None);
    assert!(matches!(resolved.homeserver_status, HomeserverState::AuthTypes(_)));
    assert_eq!(resolved.client, Some(42));
}
