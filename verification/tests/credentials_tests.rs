use sso_connect::credentials::{credentials_write, write_default_aws_credentials, Credentials};
use sso_connect::errors::FlowError;

#[test]
fn credentials_file_has_one_default_profile_in_fixed_order() {
    let c = Credentials {
        access_key_id: "AKIA1".to_string(),
        secret_access_key: "secret1".to_string(),
        session_token: "token1".to_string(),
    };
    assert_eq!(
        c.render(),
        "[default]\naws_access_key_id = AKIA1\naws_secret_access_key = secret1\naws_session_token = token1\n"
    );
}

#[test]
fn write_needs_a_home_directory() {
    let none: Option<String> = None;
    assert!(matches!(
        credentials_write(none, "a", "b", "c"),
        Err(FlowError::HomeDirUnresolved)
    ));
}

#[test]
fn write_goes_below_the_home_directory() {
    let w = credentials_write(Some("/home/u".to_string()), "a", "b", "c").unwrap();
    assert_eq!(w.home, "/home/u");
    assert_eq!(w.relative_path, ".aws/credentials");
    assert_eq!(
        w.contents,
        "[default]\naws_access_key_id = a\naws_secret_access_key = b\naws_session_token = c\n"
    );
}

#[test]
fn second_write_leaves_nothing_of_the_first() {
    let mut file: Option<String> = None;
    let first = credentials_write(Some(1u8), "AKIAFIRST", "firstsecret", "firsttoken")
        .unwrap();
    file = Some(first.contents);
    assert!(file.as_ref().unwrap().contains("AKIAFIRST"));
    let second =
        credentials_write(Some(1u8), "AKIASECOND", "secondsecret", "secondtoken")
            .unwrap();
    file = Some(second.contents);
    let text = file.unwrap();
    assert_eq!(
        text,
        "[default]\naws_access_key_id = AKIASECOND\naws_secret_access_key = secondsecret\naws_session_token = secondtoken\n"
    );
    assert!(!text.contains("AKIAFIRST"));
    assert!(!text.contains("firstsecret"));
    assert!(!text.contains("firsttoken"));
    assert_eq!(text.matches("[default]").count(), 1);
}

#[test]
fn missing_response_fields_are_empty() {
    let c = Credentials::from_response(Some("k".to_string()), None, None);
    assert_eq!(c.access_key_id, "k");
    assert_eq!(c.secret_access_key, "");
    assert_eq!(c.session_token, "");
    assert_eq!(
        c.render(),
        "[default]\naws_access_key_id = k\naws_secret_access_key = \naws_session_token = \n"
    );
}

#[test]
fn write_below_the_users_home_follows_the_environment() {
    match (write_default_aws_credentials("a", "b", "c"), dirs_next::home_dir()) {
        (Ok(w), Some(home)) => {
            assert_eq!(w.home, home);
            assert_eq!(w.relative_path, ".aws/credentials");
            assert_eq!(
                w.contents,
                "[default]\naws_access_key_id = a\naws_secret_access_key = b\naws_session_token = c\n"
            );
        }
        (Err(e), None) => assert!(matches!(e, FlowError::HomeDirUnresolved)),
        (got, home) => panic!("home {:?} but {:?}", home, got.map(|w| w.home)),
    }
}
