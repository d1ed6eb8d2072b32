use ogonek_gh::auth::{is_authorized, AccessConfig, Sender};

fn access(chat: &str, thread: &str, users: &str) -> AccessConfig {
    AccessConfig {
        target_chat_id: chat.to_string(),
        target_thread_id: thread.to_string(),
        allowed_user_ids: users.to_string(),
    }
}

fn sender(chat_id: i64, thread_id: Option<i32>, user_id: Option<u64>) -> Sender {
    Sender { chat_id, thread_id, user_id }
}

#[test]
fn empty_settings_admit_everyone() {
    assert!(is_authorized(&sender(5, None, None), &access("", "", "")));
    assert!(is_authorized(&sender(-100, Some(3), Some(77)), &access("", "", "")));
}

#[test]
fn target_chat_is_enforced() {
    let a = access("-1003012627795", "", "");
    assert!(is_authorized(&sender(-1003012627795, None, Some(1)), &a));
    assert!(!is_authorized(&sender(-1003012627796, None, Some(1)), &a));
    assert!(is_authorized(&sender(-1003012627795, None, None), &access(" -1003012627795\n", "", "")));
}

#[test]
fn unparsable_targets_are_ignored() {
    assert!(is_authorized(&sender(9, Some(4), None), &access("chat", "topic", "")));
    assert!(is_authorized(&sender(9, None, None), &access("  ", "", "")));
}

#[test]
fn target_thread_is_enforced() {
    let a = access("", "12", "");
    assert!(is_authorized(&sender(1, Some(12), None), &a));
    assert!(!is_authorized(&sender(1, Some(13), None), &a));
    assert!(!is_authorized(&sender(1, None, None), &a));
    assert!(is_authorized(&sender(1, None, None), &access("", "0", "")));
}

#[test]
fn allowed_users_are_listed() {
    let a = access("", "", "12345678, 98765432 ,x,,7");
    assert!(is_authorized(&sender(1, None, Some(12345678)), &a));
    assert!(is_authorized(&sender(1, None, Some(98765432)), &a));
    assert!(is_authorized(&sender(1, None, Some(7)), &a));
    assert!(!is_authorized(&sender(1, None, Some(8)), &a));
    assert!(!is_authorized(&sender(1, None, None), &a));
    assert!(is_authorized(&sender(1, None, None), &access("", "", "5,0")));
}

#[test]
fn every_setting_must_pass() {
    let a = access("10", "2", "3");
    assert!(is_authorized(&sender(10, Some(2), Some(3)), &a));
    assert!(!is_authorized(&sender(11, Some(2), Some(3)), &a));
    assert!(!is_authorized(&sender(10, Some(1), Some(3)), &a));
    assert!(!is_authorized(&sender(10, Some(2), Some(4)), &a));
}
