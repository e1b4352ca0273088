use sagoin::error::Error;
use sagoin::hook::{hook_finished, HookStatus, HookStep};
use sagoin::state::State;

#[test]
fn run_hook_none() {
    let mut state = State::buffer();

    assert!(matches!(state.run_hook(&None, "foo"), HookStep::Skip));
    assert!(state.out.is_empty());

    assert!(matches!(state.run_hook(&Some(Vec::new()), "foo"), HookStep::Skip));
    assert!(state.out.is_empty());
}

#[test]
fn run_hook_echo() {
    let mut state = State::buffer();
    assert!(matches!(
        state.run_hook(&Some(b"echo foo".to_vec()), "bar"),
        HookStep::Run(c) if c == b"echo foo".to_vec()
    ));
    assert!(state.out.contains("bar"));
    assert_eq!(state.out, "Running bar hook\n");
}

#[test]
fn hook_exit_status_decides() {
    let ok = HookStatus { success: true, status: "exit status: 0".to_string() };
    assert!(hook_finished("pre-submit", Ok(ok)).is_ok());
    let bad = HookStatus { success: false, status: "exit status: 1".to_string() };
    assert!(matches!(
        hook_finished("pre-submit", Ok(bad)),
        Err(Error::HookFailed { name, status }) if name == "pre-submit" && status == "exit status: 1"
    ));
    assert!(matches!(
        hook_finished("post-submit", Err("no shell".to_string())),
        Err(Error::HookNotRun { name, cause }) if name == "post-submit" && cause == "no shell"
    ));
}
