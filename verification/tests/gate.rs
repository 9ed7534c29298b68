//! The authentication gate and the input accumulator.

use something_lock::input::{on_key, Key, KeyAction};
use something_lock::lock::{LockState, Phase};
use something_lock::media::Media;
use something_lock::output::OutputInfo;

fn locked_state() -> LockState {
    let mut st = LockState::from_lock(Media::NoMedia);
    let outputs: Vec<OutputInfo> = vec![OutputInfo { id: 1, width: 100, height: 100 }];
    st.locked(&outputs);
    st
}

fn type_secret(st: &mut LockState, secret: &str) {
    for c in secret.chars() {
        let action = st.press_key(Key::Char(c));
        assert_eq!(action, KeyAction::Continue);
    }
}

#[test]
fn unlock_on_matching_secret() {
    let mut st = locked_state();
    type_secret(&mut st, "hunter2");
    assert_eq!(st.password_buffer, "hunter2");
    let r = st.attempt("hunter2", "hunter2");
    assert!(r.is_ok());
    assert!(st.password_buffer.is_empty());
    assert_eq!(st.retries, 0);
    assert_eq!(st.phase, Phase::Unlocking);
}

#[test]
fn failed_attempt_clears_buffer_and_counts_once() {
    let mut st = locked_state();
    type_secret(&mut st, "wrong");
    let r = st.attempt("wrong", "hunter2");
    assert!(r.is_err());
    assert!(st.password_buffer.is_empty());
    assert_eq!(st.retries, 1);
    assert_eq!(st.phase, Phase::Locked);

    let r2 = st.attempt("still wrong", "hunter2");
    assert!(r2.is_err());
    assert_eq!(st.retries, 2);
    assert_eq!(st.phase, Phase::Locked);

    let r3 = st.attempt("hunter2", "hunter2");
    assert!(r3.is_ok());
    assert_eq!(st.retries, 2);
    assert_eq!(st.phase, Phase::Unlocking);
}

#[test]
fn backend_verdict_drives_unlock() {
    let mut st = locked_state();
    type_secret(&mut st, "pw");
    let r = st.unlock_with_auth(false);
    assert!(r.is_err());
    assert!(st.password_buffer.is_empty());
    assert_eq!(st.retries, 1);
    assert_eq!(st.phase, Phase::Locked);
    let r2 = st.unlock_with_auth(true);
    assert!(r2.is_ok());
    assert_eq!(st.retries, 1);
    assert_eq!(st.phase, Phase::Unlocking);
}

#[test]
fn backspace_on_empty_buffer_is_a_no_op() {
    let mut buffer = String::new();
    let action = on_key(&mut buffer, Key::Backspace);
    assert_eq!(action, KeyAction::Continue);
    assert!(buffer.is_empty());
}

#[test]
fn key_edits_accumulate() {
    let mut buffer = String::new();
    assert_eq!(on_key(&mut buffer, Key::Char('a')), KeyAction::Continue);
    assert_eq!(on_key(&mut buffer, Key::Char('b')), KeyAction::Continue);
    assert_eq!(buffer, "ab");
    assert_eq!(on_key(&mut buffer, Key::Backspace), KeyAction::Continue);
    assert_eq!(buffer, "a");
    assert_eq!(on_key(&mut buffer, Key::Other), KeyAction::Continue);
    assert_eq!(buffer, "a");
    assert_eq!(on_key(&mut buffer, Key::Return), KeyAction::Submit);
    assert_eq!(buffer, "a");
}

#[test]
fn unsolicited_finished_cancels_without_the_gate() {
    let mut st = locked_state();
    type_secret(&mut st, "half-typed");
    assert!(!st.password_buffer.is_empty());
    st.finished();
    assert_eq!(st.phase, Phase::Finished);
    assert!(st.exit);
    assert_eq!(st.retries, 0);
    assert_eq!(st.password_buffer, "half-typed");
}

#[test]
fn auth_request_names_service_and_secret() {
    let mut st = locked_state();
    type_secret(&mut st, "s3cret");
    let (service, _user, secret) = st.auth_request();
    assert_eq!(service, "system-auth");
    assert_eq!(secret, "s3cret");
}

#[test]
fn exit_is_not_set_before_finish() {
    let mut st = locked_state();
    assert!(!st.exit);
    let _ = st.attempt("a", "b");
    assert!(!st.exit);
    let _ = st.attempt("a", "a");
    assert!(!st.exit);
    st.finished();
    assert!(st.exit);
}
