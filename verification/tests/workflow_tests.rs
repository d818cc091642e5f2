use sso_connect::accounts::AccountEntry;
use sso_connect::create_workflow;
use sso_connect::credentials::credentials_write;
use sso_connect::device::{
    client_registration, device_authorization, interval_seconds, registration_request,
};
use sso_connect::errors::{Field, FlowError};
use sso_connect::poll::PollEvent;
use sso_connect::workflow::{
    advance, prompt_input, AwsSsoWorkflow, Completion, FlowAction, FlowEvent, FlowState,
    RoleCredentialsResponse,
};

fn text(s: &str) -> Option<String> {
    Some(s.to_string())
}

fn authorized(interval: i32) -> FlowEvent {
    FlowEvent::Authorized {
        device_code: text("dev-1"),
        user_code: text("ABCD-EFGH"),
        verification_uri: text("https://device.sso/"),
        verification_uri_complete: text("https://device.sso/?user_code=ABCD-EFGH"),
        interval,
    }
}

fn signed_in(w: &mut AwsSsoWorkflow) {
    w.run_workflow(FlowEvent::Started {
        start_url: "https://portal".to_string(),
        region: "eu-west-1".to_string(),
    });
    w.run_workflow(FlowEvent::Registered { client_id: text("cid"), client_secret: text("sec") });
    w.run_workflow(authorized(5));
    w.run_workflow(FlowEvent::BrowserOpened(true));
    w.run_workflow(FlowEvent::Confirmed);
    w.run_workflow(FlowEvent::TokenAnswer(PollEvent::Granted(text("tok-123"))));
}

#[test]
fn end_to_end_sign_in_and_one_selected_role() {
    let mut w = create_workflow();
    assert!(matches!(w.state(), FlowState::Idle));
    let s = w.run_workflow(FlowEvent::Started {
        start_url: "https://portal".to_string(),
        region: "eu-west-1".to_string(),
    });
    assert_eq!(w.start_url(), "https://portal");
    assert_eq!(w.region(), "eu-west-1");
    match s.action {
        FlowAction::Register(r) => {
            assert_eq!(r.client_name, "my-rust-sso-client");
            assert_eq!(r.client_type, "public");
            assert_eq!(r.scope, "sso");
        }
        other => panic!("unexpected {:?}", other),
    }
    let s = w.run_workflow(FlowEvent::Registered {
        client_id: text("cid"),
        client_secret: text("sec"),
    });
    match s.action {
        FlowAction::Authorize(r) => {
            assert_eq!(r.client_id, "cid");
            assert_eq!(r.client_secret, "sec");
            assert_eq!(r.start_url, "https://portal");
        }
        other => panic!("unexpected {:?}", other),
    }
    let s = w.run_workflow(authorized(5));
    match s.action {
        FlowAction::OpenBrowser(url) => assert_eq!(url, "https://device.sso/?user_code=ABCD-EFGH"),
        other => panic!("unexpected {:?}", other),
    }
    let s = w.run_workflow(FlowEvent::BrowserOpened(true));
    assert!(matches!(s.action, FlowAction::AwaitConfirmation { fallback: None }));
    let s = w.run_workflow(FlowEvent::Confirmed);
    match s.action {
        FlowAction::RequestToken { after_seconds, request } => {
            assert_eq!(after_seconds, 0);
            assert_eq!(request.device_code, "dev-1");
            assert_eq!(request.client_id, "cid");
            assert_eq!(request.grant_type, "urn:ietf:params:oauth:grant-type:device_code");
        }
        other => panic!("unexpected {:?}", other),
    }
    for _ in 0..2 {
        let s = w.run_workflow(FlowEvent::TokenAnswer(PollEvent::Refused(
            "authorization_pending".to_string(),
        )));
        assert!(matches!(s.action, FlowAction::RequestToken { after_seconds: 5, .. }));
        assert!(matches!(w.state(), FlowState::Polling { .. }));
    }
    let s = w.run_workflow(FlowEvent::TokenAnswer(PollEvent::Granted(text("tok-123"))));
    match s.action {
        FlowAction::ListAccounts { access_token } => assert_eq!(access_token, "tok-123"),
        other => panic!("unexpected {:?}", other),
    }
    let s = w.run_workflow(FlowEvent::Accounts(vec![
        AccountEntry { account_id: text("111111111111"), account_name: text("prod-account") },
        AccountEntry { account_id: text("222222222222"), account_name: None },
    ]));
    match s.action {
        FlowAction::ListRoles { access_token, account_id } => {
            assert_eq!(access_token, "tok-123");
            assert_eq!(account_id, "111111111111");
        }
        other => panic!("unexpected {:?}", other),
    }
    let s = w.run_workflow(FlowEvent::Roles(vec![text("AdminRole")]));
    match s.action {
        FlowAction::ListRoles { account_id, .. } => assert_eq!(account_id, "222222222222"),
        other => panic!("unexpected {:?}", other),
    }
    let s = w.run_workflow(FlowEvent::Roles(vec![text("ReadOnly")]));
    let lines = match s.action {
        FlowAction::Select(lines) => lines,
        other => panic!("unexpected {:?}", other),
    };
    assert_eq!(
        lines,
        vec!["111111111111 - prod-account - AdminRole", "222222222222 - Unknown - ReadOnly"]
    );
    let s = w.run_workflow(FlowEvent::Selected(Some(vec![lines[0].clone()])));
    assert!(s.skipped.is_empty());
    match s.action {
        FlowAction::FetchCredentials { access_token, account_id, role_name } => {
            assert_eq!(access_token, "tok-123");
            assert_eq!(account_id, "111111111111");
            assert_eq!(role_name, "AdminRole");
        }
        other => panic!("unexpected {:?}", other),
    }
    let s = w.run_workflow(FlowEvent::RoleCredentials(Some(RoleCredentialsResponse {
        access_key_id: text("AKIA"),
        secret_access_key: text("shh"),
        session_token: text("sess"),
    })));
    let credentials = match s.action {
        FlowAction::WriteCredentials(c) => c,
        other => panic!("unexpected {:?}", other),
    };
    let write = credentials_write(
        Some("/home/u"),
        &credentials.access_key_id,
        &credentials.secret_access_key,
        &credentials.session_token,
    )
    .unwrap();
    assert_eq!(
        write.contents,
        "[default]\naws_access_key_id = AKIA\naws_secret_access_key = shh\naws_session_token = sess\n"
    );
    assert_eq!(write.contents.matches("[default]").count(), 1);
    let s = w.run_workflow(FlowEvent::Written);
    assert!(matches!(s.action, FlowAction::Finish(Completion::Completed)));
    assert!(matches!(w.state(), FlowState::Finished(Completion::Completed)));
    let s = w.run_workflow(FlowEvent::Confirmed);
    assert!(matches!(s.action, FlowAction::Ignore));
    assert!(matches!(w.state(), FlowState::Finished(Completion::Completed)));
}

#[test]
fn missing_registration_field_aborts() {
    let mut w = AwsSsoWorkflow::new();
    w.run_workflow(FlowEvent::Started { start_url: "u".to_string(), region: "r".to_string() });
    let s = w.run_workflow(FlowEvent::Registered { client_id: text("cid"), client_secret: None });
    assert!(matches!(s.action, FlowAction::Fail(FlowError::MissingField(Field::ClientSecret))));
    assert!(matches!(w.state(), FlowState::Aborted(FlowError::MissingField(Field::ClientSecret))));
}

#[test]
fn missing_authorization_fields_are_reported_in_order() {
    assert!(matches!(
        device_authorization(None, None, None, None, 5),
        Err(FlowError::MissingField(Field::DeviceCode))
    ));
    assert!(matches!(
        device_authorization(text("d"), None, None, None, 5),
        Err(FlowError::MissingField(Field::UserCode))
    ));
    assert!(matches!(
        device_authorization(text("d"), text("u"), None, text("c"), 5),
        Err(FlowError::MissingField(Field::VerificationUri))
    ));
    assert!(matches!(
        device_authorization(text("d"), text("u"), text("v"), None, 5),
        Err(FlowError::MissingField(Field::VerificationUriComplete))
    ));
    let a = device_authorization(text("d"), text("u"), text("v"), text("c"), 5).unwrap();
    assert_eq!(a.device_code, "d");
    assert_eq!(a.user_code, "u");
    assert_eq!(a.verification_uri, "v");
    assert_eq!(a.verification_uri_complete, "c");
    assert_eq!(a.poll_interval_seconds, 5);
    assert!(matches!(
        client_registration(None, None),
        Err(FlowError::MissingField(Field::ClientId))
    ));
    assert_eq!(FlowError::MissingField(Field::ClientId).message(), "Missing client_id");
    assert_eq!(
        FlowError::MissingField(Field::VerificationUriComplete).message(),
        "Missing verification_uri_complete"
    );
    assert_eq!(interval_seconds(0), 0);
    assert_eq!(interval_seconds(i32::MAX), 2147483647);
    assert_eq!(interval_seconds(-1), u64::MAX);
    assert_eq!(registration_request().client_name, "my-rust-sso-client");
}

#[test]
fn browser_failure_shows_address_and_code() {
    let mut w = AwsSsoWorkflow::new();
    w.run_workflow(FlowEvent::Started { start_url: "u".to_string(), region: "r".to_string() });
    w.run_workflow(FlowEvent::Registered { client_id: text("cid"), client_secret: text("sec") });
    w.run_workflow(authorized(5));
    let s = w.run_workflow(FlowEvent::BrowserOpened(false));
    match s.action {
        FlowAction::AwaitConfirmation { fallback: Some(f) } => {
            assert_eq!(f.verification_uri, "https://device.sso/");
            assert_eq!(f.user_code, "ABCD-EFGH");
        }
        other => panic!("unexpected {:?}", other),
    }
}

#[test]
fn fatal_token_error_aborts_the_run() {
    let mut w = AwsSsoWorkflow::new();
    w.run_workflow(FlowEvent::Started { start_url: "u".to_string(), region: "r".to_string() });
    w.run_workflow(FlowEvent::Registered { client_id: text("cid"), client_secret: text("sec") });
    w.run_workflow(authorized(1));
    w.run_workflow(FlowEvent::BrowserOpened(true));
    w.run_workflow(FlowEvent::Confirmed);
    let s = w.run_workflow(FlowEvent::TokenAnswer(PollEvent::Refused("slow_down".to_string())));
    assert!(matches!(s.action, FlowAction::RequestToken { after_seconds: 6, .. }));
    let s = w.run_workflow(FlowEvent::TokenAnswer(PollEvent::Refused("access_denied".to_string())));
    match s.action {
        FlowAction::Fail(FlowError::TokenExchangeFailed(m)) => assert_eq!(m, "access_denied"),
        other => panic!("unexpected {:?}", other),
    }
    assert!(matches!(w.state(), FlowState::Aborted(_)));
}

#[test]
fn token_answer_without_token_aborts() {
    let mut w = AwsSsoWorkflow::new();
    w.run_workflow(FlowEvent::Started { start_url: "u".to_string(), region: "r".to_string() });
    w.run_workflow(FlowEvent::Registered { client_id: text("cid"), client_secret: text("sec") });
    w.run_workflow(authorized(1));
    w.run_workflow(FlowEvent::BrowserOpened(true));
    w.run_workflow(FlowEvent::Confirmed);
    let s = w.run_workflow(FlowEvent::TokenAnswer(PollEvent::Granted(None)));
    assert!(matches!(s.action, FlowAction::Fail(FlowError::MissingAccessToken)));
}

#[test]
fn no_accounts_ends_the_run() {
    let mut w = AwsSsoWorkflow::new();
    signed_in(&mut w);
    let s = w.run_workflow(FlowEvent::Accounts(vec![]));
    assert!(matches!(s.action, FlowAction::Finish(Completion::NoAccounts)));
    let mut w = AwsSsoWorkflow::new();
    signed_in(&mut w);
    let s = w.run_workflow(FlowEvent::Accounts(vec![AccountEntry {
        account_id: None,
        account_name: text("nameless"),
    }]));
    assert!(matches!(s.action, FlowAction::Finish(Completion::NoAccounts)));
    let mut w = AwsSsoWorkflow::new();
    signed_in(&mut w);
    w.run_workflow(FlowEvent::Accounts(vec![AccountEntry {
        account_id: text("1"),
        account_name: None,
    }]));
    let s = w.run_workflow(FlowEvent::Roles(vec![None]));
    assert!(matches!(s.action, FlowAction::Finish(Completion::NoAccounts)));
}

fn selecting() -> AwsSsoWorkflow {
    let mut w = AwsSsoWorkflow::new();
    signed_in(&mut w);
    w.run_workflow(FlowEvent::Accounts(vec![AccountEntry {
        account_id: text("1"),
        account_name: text("one"),
    }]));
    w.run_workflow(FlowEvent::Roles(vec![text("Admin"), text("Reader")]));
    assert!(matches!(w.state(), FlowState::Selecting { .. }));
    w
}

#[test]
fn empty_or_cancelled_selection() {
    let mut w = selecting();
    let s = w.run_workflow(FlowEvent::Selected(Some(vec![])));
    assert!(matches!(s.action, FlowAction::Finish(Completion::NothingSelected)));
    let mut w = selecting();
    let s = w.run_workflow(FlowEvent::Selected(None));
    assert!(matches!(s.action, FlowAction::Fail(FlowError::SelectionCancelled)));
}

#[test]
fn malformed_selection_is_skipped_without_aborting_the_batch() {
    let mut w = selecting();
    let s = w.run_workflow(FlowEvent::Selected(Some(vec![
        "garbage".to_string(),
        "1 - one - Admin".to_string(),
        "1 - one".to_string(),
        "1 - one - Reader".to_string(),
        "x - y - z - w".to_string(),
    ])));
    assert_eq!(s.skipped.len(), 1);
    assert!(matches!(&s.skipped[0], FlowError::MalformedSelection(l) if l == "garbage"));
    assert!(matches!(&s.action, FlowAction::FetchCredentials { role_name, .. } if role_name == "Admin"));
    let s = w.run_workflow(FlowEvent::RoleCredentials(Some(RoleCredentialsResponse {
        access_key_id: text("k"),
        secret_access_key: None,
        session_token: None,
    })));
    match s.action {
        FlowAction::WriteCredentials(c) => {
            assert_eq!(c.access_key_id, "k");
            assert_eq!(c.secret_access_key, "");
        }
        other => panic!("unexpected {:?}", other),
    }
    let s = w.run_workflow(FlowEvent::Written);
    assert_eq!(s.skipped.len(), 1);
    assert!(matches!(&s.skipped[0], FlowError::MalformedSelection(l) if l == "1 - one"));
    assert!(matches!(&s.action, FlowAction::FetchCredentials { role_name, .. } if role_name == "Reader"));
    let s = w.run_workflow(FlowEvent::RoleCredentials(None));
    assert_eq!(s.skipped.len(), 2);
    assert_eq!(
        s.skipped[0].message(),
        "Failed to fetch credentials for Account ID: 1, Role: Reader"
    );
    assert!(matches!(&s.skipped[1], FlowError::MalformedSelection(l) if l == "x - y - z - w"));
    assert!(matches!(s.action, FlowAction::Finish(Completion::Completed)));
}

#[test]
fn failures_while_fetching_and_writing_do_not_abort() {
    let mut w = selecting();
    w.run_workflow(FlowEvent::Selected(Some(vec![
        "1 - one - Admin".to_string(),
        "1 - one - Reader".to_string(),
    ])));
    let s = w.run_workflow(FlowEvent::Failed(FlowError::ProviderCallFailed("denied".to_string())));
    assert_eq!(s.skipped.len(), 1);
    assert_eq!(s.skipped[0].message(), "denied");
    assert!(matches!(&s.action, FlowAction::FetchCredentials { role_name, .. } if role_name == "Reader"));
    w.run_workflow(FlowEvent::RoleCredentials(Some(RoleCredentialsResponse {
        access_key_id: None,
        secret_access_key: None,
        session_token: None,
    })));
    let s = w.run_workflow(FlowEvent::Failed(FlowError::HomeDirUnresolved));
    assert_eq!(s.skipped.len(), 1);
    assert!(matches!(s.skipped[0], FlowError::HomeDirUnresolved));
    assert!(matches!(s.action, FlowAction::Finish(Completion::Completed)));
}

#[test]
fn failures_before_the_selection_abort() {
    let mut w = AwsSsoWorkflow::new();
    w.run_workflow(FlowEvent::Started { start_url: "u".to_string(), region: "r".to_string() });
    let s = w.run_workflow(FlowEvent::Failed(FlowError::ProviderCallFailed("dns".to_string())));
    assert!(matches!(s.action, FlowAction::Fail(FlowError::ProviderCallFailed(_))));
    assert!(matches!(w.state(), FlowState::Aborted(_)));
    let mut w = AwsSsoWorkflow::new();
    signed_in(&mut w);
    let s = w.run_workflow(FlowEvent::Failed(FlowError::ProviderCallFailed("x".to_string())));
    assert!(matches!(s.action, FlowAction::Fail(_)));
}

#[test]
fn events_out_of_turn_are_ignored() {
    let mut w = AwsSsoWorkflow::new();
    let s = w.run_workflow(FlowEvent::Confirmed);
    assert!(matches!(s.action, FlowAction::Ignore));
    assert!(matches!(w.state(), FlowState::Idle));
    let s = w.run_workflow(FlowEvent::Failed(FlowError::HomeDirUnresolved));
    assert!(matches!(s.action, FlowAction::Ignore));
    w.run_workflow(FlowEvent::Started { start_url: "u".to_string(), region: "r".to_string() });
    let s = w.run_workflow(FlowEvent::Started {
        start_url: "other".to_string(),
        region: "other".to_string(),
    });
    assert!(matches!(s.action, FlowAction::Ignore));
    assert_eq!(w.start_url(), "u");
    assert_eq!(w.region(), "r");
    let (state, step) = advance(FlowState::Selecting { access_token: "t".to_string() }, FlowEvent::Written);
    assert!(matches!(step.action, FlowAction::Ignore));
    assert!(matches!(state, FlowState::Selecting { .. }));
}

#[test]
fn prompt_answers_lose_their_surrounding_white_space() {
    assert_eq!(prompt_input("  https://portal.example/start \n"), "https://portal.example/start");
    assert_eq!(prompt_input("eu-west-1\r\n"), "eu-west-1");
    assert_eq!(prompt_input("\n"), "");
    assert_eq!(prompt_input("a b"), "a b");
}

#[test]
fn typed_refusals_drive_the_workflow_like_marked_ones() {
    let mut w = AwsSsoWorkflow::new();
    w.run_workflow(FlowEvent::Started { start_url: "u".to_string(), region: "r".to_string() });
    w.run_workflow(FlowEvent::Registered { client_id: text("cid"), client_secret: text("sec") });
    w.run_workflow(authorized(5));
    w.run_workflow(FlowEvent::BrowserOpened(true));
    w.run_workflow(FlowEvent::Confirmed);
    let s = w.run_workflow(FlowEvent::TokenAnswer(PollEvent::Pending));
    assert!(matches!(s.action, FlowAction::RequestToken { after_seconds: 5, .. }));
    let s = w.run_workflow(FlowEvent::TokenAnswer(PollEvent::SlowDown));
    assert!(matches!(s.action, FlowAction::RequestToken { after_seconds: 10, .. }));
    let s = w.run_workflow(FlowEvent::TokenAnswer(PollEvent::Pending));
    assert!(matches!(s.action, FlowAction::RequestToken { after_seconds: 10, .. }));
}
