//! Who may talk to the bot: an optional target chat, an optional target
//! topic (thread) and an optional comma-separated list of user ids.

use vstd::prelude::*;
use crate::text::{
    chars_of, parse_i32, parse_i64, parse_trimmed_i32, parse_trimmed_i64, parse_trimmed_u64,
    parse_u64, trim,
};

verus! {

/// The three access settings, as the raw texts of the variables
/// `TARGET_CHAT_ID`, `TARGET_THREAD_ID` and `ALLOWED_USER_IDS`
/// (an unset variable is the empty text).
pub struct AccessConfig {
    pub target_chat_id: String,
    pub target_thread_id: String,
    pub allowed_user_ids: String,
}

/// What the access check reads of an incoming message.
pub struct Sender {
    /// The chat the message was posted in.
    pub chat_id: i64,
    /// The topic (thread) of the chat, if any.
    pub thread_id: Option<i32>,
    /// The user who sent it, if known.
    pub user_id: Option<u64>,
}

/// A set target chat admits only its own chat. A target that is empty admits
/// every chat, and so does one that does not parse as an `i64` after trimming
/// (it is ignored).
pub open spec fn chat_admitted(target: Seq<char>, chat_id: i64) -> bool {
    target.len() == 0 || match parse_i64(trim(target)) {
        Some(t) => t == chat_id,
        None => true,
    }
}

/// As `chat_admitted`, for the topic; a message outside any topic counts as
/// topic 0.
pub open spec fn thread_admitted(target: Seq<char>, thread_id: Option<i32>) -> bool {
    target.len() == 0 || match parse_i32(trim(target)) {
        Some(t) => t == match thread_id {
            Some(id) => id,
            None => 0i32,
        },
        None => true,
    }
}

/// `s[a..b]` is one of the items of `s` when `s` is split at every comma.
pub open spec fn is_list_item(s: Seq<char>, a: int, b: int) -> bool {
    &&& 0 <= a <= b <= s.len()
    &&& (a == 0 || s[a - 1] == ',')
    &&& (b == s.len() || s[b] == ',')
    &&& forall|k: int| a <= k < b ==> s[k] != ','
}

/// An empty list admits every user; otherwise some item of the list, trimmed,
/// must parse as the user's id (an unknown sender counts as user 0; items that
/// do not parse are skipped).
pub open spec fn user_admitted(list: Seq<char>, user_id: Option<u64>) -> bool {
    list.len() == 0 || exists|a: int, b: int|
        #[trigger] is_list_item(list, a, b) && parse_u64(trim(list.subrange(a, b))) == Some(
            match user_id {
                Some(u) => u,
                None => 0u64,
            },
        )
}

/// The whole access rule.
pub open spec fn admitted(access: &AccessConfig, sender: &Sender) -> bool {
    &&& chat_admitted(access.target_chat_id@, sender.chat_id)
    &&& thread_admitted(access.target_thread_id@, sender.thread_id)
    &&& user_admitted(access.allowed_user_ids@, sender.user_id)
}

/// Whether the comma-separated `list` holds `user` (items trimmed and parsed
/// as `u64`).
fn list_holds_user(list: &Vec<char>, user: u64) -> (r: bool)
    ensures
        r == exists|a: int, b: int|
            #[trigger] is_list_item(list@, a, b) && parse_u64(trim(list@.subrange(a, b))) == Some(
                user,
            ),
{
    let n = list.len();
    let mut start: usize = 0;
    let mut i: usize = 0;
    while i < n
        invariant
            n == list@.len(),
            0 <= start <= i <= n,
            start == 0 || list@[start - 1] == ',',
            forall|k: int| start <= k < i ==> list@[k] != ',',
            forall|a: int, b: int|
                #[trigger] is_list_item(list@, a, b) && b < i ==> parse_u64(
                    trim(list@.subrange(a, b)),
                ) != Some(user),
        decreases n - i,
    {
        if list[i] == ',' {
            assert(is_list_item(list@, start as int, i as int));
            if parse_trimmed_u64(list, start, i) == Some(user) {
                return true;
            }
            assert forall|a: int, b: int|
                #[trigger] is_list_item(list@, a, b) && b < i + 1 implies parse_u64(
                    trim(list@.subrange(a, b)),
                ) != Some(user) by {
                if b == i {
                    if a < start {
                        assert(list@[start - 1] == ',');
                    } else if a > start {
                        assert(list@[a - 1] != ',');
                    }
                }
            }
            start = i + 1;
        }
        i = i + 1;
    }
    assert(is_list_item(list@, start as int, n as int));
    if parse_trimmed_u64(list, start, n) == Some(user) {
        return true;
    }
    assert forall|a: int, b: int| #[trigger]
        is_list_item(list@, a, b) implies parse_u64(trim(list@.subrange(a, b))) != Some(user) by {
        if b == n {
            if a < start {
                assert(list@[start - 1] == ',');
            } else if a > start {
                assert(list@[a - 1] != ',');
            }
        }
    }
    false
}

/// Whether `sender` may use the bot under `access`.
pub fn is_authorized(sender: &Sender, access: &AccessConfig) -> (r: bool)
    ensures
        r == admitted(access, sender),
{
    let chat = chars_of(access.target_chat_id.as_str());
    if chat.len() > 0 {
        match parse_trimmed_i64(&chat, 0, chat.len()) {
            Some(target) => {
                if target != sender.chat_id {
                    assert(chat@.subrange(0, chat@.len() as int) =~= chat@);
                    return false;
                }
            },
            None => {},
        }
    }
    assert(chat@.subrange(0, chat@.len() as int) =~= chat@);
    let thread_id: i32 = match sender.thread_id {
        Some(id) => id,
        None => 0,
    };
    let thread = chars_of(access.target_thread_id.as_str());
    assert(thread@.subrange(0, thread@.len() as int) =~= thread@);
    if thread.len() > 0 {
        match parse_trimmed_i32(&thread, 0, thread.len()) {
            Some(target) => {
                if target != thread_id {
                    return false;
                }
            },
            None => {},
        }
    }
    let users = chars_of(access.allowed_user_ids.as_str());
    if users.len() == 0 {
        return true;
    }
    let user_id: u64 = match sender.user_id {
        Some(u) => u,
        None => 0,
    };
    list_holds_user(&users, user_id)
}

} // verus!
