use sagoin::config::{
    build_config, default_time_format, ConfigFile, Credential, InputType, Options,
};
use sagoin::state::State;

#[test]
fn credential_from_fallback_none() {
    let mut state = State::buffer();
    assert!(Credential::from_fallback(&mut state, "password", None, None, None).is_none());
    assert!(state.out.is_empty());
}

#[test]
fn config_credential_from_fallback_invalid() {
    let mut state = State::buffer();
    assert!(Credential::from_fallback(&mut state, "password", Some(vec![0xff]), None, None)
        .is_none());
    assert!(!state.out.is_empty());
}

#[test]
fn credential_from_fallback_config_file() {
    let mut state = State::buffer();
    assert!(matches!(
        Credential::from_fallback(
            &mut state,
            "password",
            None,
            Some("foo".into()),
            Some(InputType::File),
        ),
        Some(Credential::File(input)) if input == b"foo".to_vec()
    ));
    assert!(state.out.is_empty());
}

#[test]
fn credential_from_fallback_both() {
    let mut state = State::buffer();
    assert!(matches!(
        Credential::from_fallback(
            &mut state,
            "password",
            Some(b"foo".to_vec()),
            Some("bar".into()),
            None,
        ),
        Some(Credential::Text(input)) if input == "foo"
    ));
    assert!(state.out.is_empty());
}

#[test]
fn invalid_utf8_warning_text() {
    let mut state = State::buffer();
    assert!(Credential::from_os_string(&mut state, "username", vec![0xc3], None).is_none());
    assert_eq!(state.out, "Warning: username contains invalid UTF-8\n");
}

#[test]
fn empty_values_give_no_credential() {
    let mut state = State::buffer();
    assert!(Credential::from_os_string(&mut state, "username", Vec::new(), None).is_none());
    assert!(Credential::from_string(String::new(), Some(InputType::Command)).is_none());
    assert!(state.out.is_empty());
}

#[test]
fn command_type_keeps_bytes() {
    let mut state = State::buffer();
    assert!(matches!(
        Credential::from_os_string(&mut state, "password", vec![b'p', 0xff], Some(InputType::Command)),
        Some(Credential::Command(c)) if c == vec![b'p', 0xff]
    ));
    assert!(state.out.is_empty());
}

#[test]
fn default_time_format_value() {
    assert_eq!(
        default_time_format(),
        "[month repr:short] [day padding:none], [hour]:[minute]"
    );
}

fn no_options() -> Options {
    Options {
        dir: None,
        no_submit: false,
        list_files: false,
        info: false,
        open: false,
        time_format: None,
        username: None,
        username_type: None,
        password: None,
        password_type: None,
        pre_submit_hook: None,
        post_submit_hook: None,
        client_name: None,
        client_version: None,
    }
}

#[test]
fn config_defaults() {
    let mut state = State::buffer();
    let cfg = build_config(&mut state, no_options(), None, "1.2.3");
    assert_eq!(cfg.time_format, default_time_format());
    assert_eq!(cfg.client_name, "sagoin");
    assert_eq!(cfg.client_version, "1.2.3");
    assert!(cfg.username.is_none());
    assert!(cfg.password.is_none());
    assert!(cfg.pre_submit_hook.is_none());
    assert!(state.out.is_empty());
}

#[test]
fn config_command_line_wins() {
    let mut state = State::buffer();
    let mut opts = no_options();
    opts.time_format = Some("[year]".to_string());
    opts.username = Some(b"alice".to_vec());
    opts.pre_submit_hook = Some(b"make test".to_vec());
    opts.password_type = Some(InputType::Command);
    let file = ConfigFile {
        time_format: Some("[month]".to_string()),
        username: Some("bob".to_string()),
        username_type: Some(InputType::File),
        password: Some("pass show x".to_string()),
        password_type: Some(InputType::Text),
        pre_submit_hook: Some(b"true".to_vec()),
        post_submit_hook: Some(b"git push".to_vec()),
    };
    let cfg = build_config(&mut state, opts, Some(file), "0.1.0");
    assert_eq!(cfg.time_format, "[year]");
    assert!(matches!(&cfg.username, Some(Credential::File(u)) if u == b"alice"));
    assert!(matches!(&cfg.password, Some(Credential::Command(p)) if p == b"pass show x"));
    assert_eq!(cfg.pre_submit_hook, Some(b"make test".to_vec()));
    assert_eq!(cfg.post_submit_hook, Some(b"git push".to_vec()));
    assert!(state.out.is_empty());
}
