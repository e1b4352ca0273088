use sagoin::config::Credential;
use sagoin::cred::{CommandOutput, CredStep};
use sagoin::state::State;

#[test]
fn resolve_cred_none() {
    let state = State::buffer();
    assert!(matches!(state.resolve_cred(&None), CredStep::Prompt));
}

#[test]
fn resolve_cred_command() {
    let mut state = State::buffer();
    let cmd = match state.resolve_cred(&Some(Credential::Command(b"echo foo".to_vec()))) {
        CredStep::RunCommand(c) => c,
        other => panic!("unexpected step {:?}", other),
    };
    assert_eq!(cmd, b"echo foo".to_vec());
    let out = CommandOutput {
        success: true,
        status: "exit status: 0".to_string(),
        stdout: b"foo\n".to_vec(),
    };
    assert!(state.command_ran(Ok(out)).unwrap().starts_with("foo"));
}

#[test]
fn resolve_cred_file() {
    let mut state = State::buffer();
    let path = match state.resolve_cred(&Some(Credential::File(b"/tmp/secret".to_vec()))) {
        CredStep::ReadFile(p) => p,
        other => panic!("unexpected step {:?}", other),
    };
    assert_eq!(
        state.file_read(&path, Ok("foo".to_string())),
        Some("foo".into()),
    );
}

#[test]
fn resolve_cred_text() {
    let state = State::buffer();
    match state.resolve_cred(&Some(Credential::Text("foo".into()))) {
        CredStep::Ready(s) => assert_eq!(s, "foo"),
        other => panic!("unexpected step {:?}", other),
    }
    assert!(state.out.is_empty());
}

#[test]
fn resolve_cred_text_verbatim() {
    let state = State::buffer();
    for s in ["", "  spaced  ", "p@ss=word\n", "ünïcödé"] {
        match state.resolve_cred(&Some(Credential::Text(s.to_string()))) {
            CredStep::Ready(t) => assert_eq!(t, s),
            other => panic!("unexpected step {:?}", other),
        }
    }
    assert!(state.out.is_empty());
}

#[test]
fn missing_credential_file_warns() {
    let mut state = State::buffer();
    let r = state.file_read(
        b"/nonexistent/secret",
        Err("No such file or directory (os error 2)".to_string()),
    );
    assert_eq!(r, None);
    assert_eq!(
        state.out,
        "Warning: failed to read /nonexistent/secret:\nNo such file or directory (os error 2)\n"
    );
}

#[test]
fn missing_credential_file_warns_in_color() {
    let mut state = State::buffer();
    state.color = true;
    assert_eq!(state.file_read(b"nope", Err("gone".to_string())), None);
    assert_eq!(state.out, "\x1b[1;33mWarning\x1b[0m: failed to read nope:\ngone\n");
}

#[test]
fn failed_command_warns() {
    let mut state = State::buffer();
    let out = CommandOutput {
        success: false,
        status: "exit status: 3".to_string(),
        stdout: b"foo".to_vec(),
    };
    assert_eq!(state.command_ran(Ok(out)), None);
    assert_eq!(state.out, "Warning: command failed with exit code exit status: 3\n");
}

#[test]
fn command_not_started_warns() {
    let mut state = State::buffer();
    assert_eq!(state.command_ran(Err("not found".to_string())), None);
    assert_eq!(state.out, "Warning: failed to execute command: not found\n");
}

#[test]
fn command_with_invalid_utf8_warns() {
    let mut state = State::buffer();
    let out = CommandOutput {
        success: true,
        status: "exit status: 0".to_string(),
        stdout: vec![0x66, 0xff],
    };
    assert_eq!(state.command_ran(Ok(out)), None);
    assert!(state.out.starts_with("Warning: "));
}

#[test]
fn prompt_labels() {
    let mut state = State::buffer();
    state.prompt("Username");
    assert_eq!(state.out, "Username: ");
    state.color = true;
    state.prompt("Password");
    assert_eq!(state.out, "Username: \x1b[1;34mPassword\x1b[0m: ");
}
