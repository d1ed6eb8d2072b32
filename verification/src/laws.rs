//! Properties of the wizard and of the access rule that span several
//! messages or hold for every state.

use vstd::prelude::*;
use crate::auth::{
    admitted, chat_admitted, is_list_item, thread_admitted, user_admitted, AccessConfig, Sender,
};
use crate::bot::{
    cancel_outcome, dispatch_spec, empty_data, help_outcome, ignored, issue_created_outcome,
    reply_view, route, says_cancel, Command, Incoming, IssueDataView, OutcomeView, StateView,
    StepView,
};
use crate::github::IssueRequestView;
use crate::keyboard::KeyboardView;
use crate::text::{
    all_digits, digits_value, is_white_space, lowercase, parse_i32, parse_i64, parse_integer,
    parse_u64, trim, trim_end, trim_start,
};

verus! {

/// The state that an ordinary text message (no command, not "cancel") leaves
/// the dialogue of an admitted user in, where no GitHub call is needed.
pub open spec fn state_after(state: StateView, text: Seq<char>) -> StateView {
    match route(state, None, false, text, Seq::empty()) {
        StepView::Finish(o) => match o.next {
            Some(s) => s,
            None => state,
        },
        _ => state,
    }
}

/// The state after the text messages `texts`, one after the other.
pub open spec fn state_after_all(state: StateView, texts: Seq<Seq<char>>) -> StateView
    decreases texts.len(),
{
    if texts.len() == 0 {
        state
    } else {
        state_after_all(state_after(state, texts[0]), texts.drop_first())
    }
}

/// Messages from users who may not use the bot change nothing and get no answer.
pub proof fn lemma_unadmitted_messages_are_ignored(
    state: StateView,
    msg: &Incoming,
    access: &AccessConfig,
    help: Seq<char>,
    typed_cancel: bool,
)
    requires
        !admitted(access, &msg.sender),
    ensures
        dispatch_spec(state, msg, access, help, typed_cancel) == ignored(),
{
}

/// `/cancel`, or the text "cancel" in any case, aborts the wizard from every
/// state: the collected data is dropped and the dialogue starts over.
pub proof fn lemma_cancel_from_every_state(
    state: StateView,
    msg: &Incoming,
    access: &AccessConfig,
    help: Seq<char>,
    typed_cancel: bool,
)
    requires
        admitted(access, &msg.sender),
        msg.command == Some(Command::Cancel) || (msg.command is None && typed_cancel),
    ensures
        dispatch_spec(state, msg, access, help, typed_cancel) == StepView::Finish(cancel_outcome()),
        cancel_outcome().next == Some(StateView::Start),
{
}

/// `/newissue` starts a new issue from every state, forgetting any earlier one.
pub proof fn lemma_new_issue_from_every_state(
    state: StateView,
    msg: &Incoming,
    access: &AccessConfig,
    help: Seq<char>,
    typed_cancel: bool,
)
    requires
        admitted(access, &msg.sender),
        msg.command == Some(Command::NewIssue),
    ensures
        dispatch_spec(state, msg, access, help, typed_cancel) == StepView::Finish(
            OutcomeView {
                reply: Some(reply_view("What is the title of the issue?"@, KeyboardView::Keep)),
                next: Some(StateView::ReceiveTitle),
            },
        ),
{
}

/// `/help` answers with the command list and leaves the dialogue where it is.
pub proof fn lemma_help_keeps_the_dialogue(
    state: StateView,
    msg: &Incoming,
    access: &AccessConfig,
    help: Seq<char>,
    typed_cancel: bool,
)
    requires
        admitted(access, &msg.sender),
        msg.command == Some(Command::Help),
    ensures
        dispatch_spec(state, msg, access, help, typed_cancel) == StepView::Finish(help_outcome(help)),
        help_outcome(help).next is None,
{
}

/// Answering the wizard's questions in order (title, role, function,
/// benefit, details, acceptance criteria) files an issue with the title given
/// and the user story of the answers as its body.
pub proof fn lemma_wizard_files_the_story(
    title: Seq<char>,
    role: Seq<char>,
    function: Seq<char>,
    benefit: Seq<char>,
    details: Seq<char>,
    criteria: Seq<char>,
)
    ensures
        state_after_all(StateView::ReceiveTitle, seq![title, role, function, benefit, details])
            == (StateView::ReceiveAcceptanceCriteria {
            data: IssueDataView { title, role, function, benefit, details, ..empty_data() },
        }),
        route(
            (StateView::ReceiveAcceptanceCriteria {
                data: IssueDataView { title, role, function, benefit, details, ..empty_data() },
            }),
            None,
            false,
            criteria,
            Seq::empty(),
        ) == (StepView::CreateIssue {
            notice: reply_view("Creating issue..."@, KeyboardView::Keep),
            request: IssueRequestView {
                title,
                body: "**As a** "@ + role + "\n**I need** "@ + function + "\n**So that** "@ + benefit
                    + "\n\n### Details and Assumptions\n\n- "@ + details
                    + "\n\n### Acceptance Criteria\n\n```gherkin\n"@ + criteria + "\n```"@,
            },
        }),
{
    let d1 = IssueDataView { title, ..empty_data() };
    let d2 = IssueDataView { role, ..d1 };
    let d3 = IssueDataView { function, ..d2 };
    let d4 = IssueDataView { benefit, ..d3 };
    let d5 = IssueDataView { details, ..d4 };
    let s0 = StateView::ReceiveTitle;
    let s1 = StateView::ReceiveRole { data: d1 };
    let s2 = StateView::ReceiveFunction { data: d2 };
    let s3 = StateView::ReceiveBenefit { data: d3 };
    let s4 = StateView::ReceiveDetails { data: d4 };
    let s5 = StateView::ReceiveAcceptanceCriteria { data: d5 };
    assert(state_after(s0, title) == s1);
    assert(state_after(s1, role) == s2);
    assert(state_after(s2, function) == s3);
    assert(state_after(s3, benefit) == s4);
    assert(state_after(s4, details) == s5);
    let all = seq![title, role, function, benefit, details];
    assert(all.drop_first() =~= seq![role, function, benefit, details]);
    assert(seq![role, function, benefit, details].drop_first() =~= seq![function, benefit, details]);
    assert(seq![function, benefit, details].drop_first() =~= seq![benefit, details]);
    assert(seq![benefit, details].drop_first() =~= seq![details]);
    assert(seq![details].drop_first() =~= Seq::<Seq<char>>::empty());
    assert(state_after_all(s5, Seq::<Seq<char>>::empty()) == s5);
    assert(state_after_all(s4, seq![details]) == s5);
    assert(state_after_all(s3, seq![benefit, details]) == s5);
    assert(state_after_all(s2, seq![function, benefit, details]) == s5);
    assert(state_after_all(s1, seq![role, function, benefit, details]) == s5);
}

/// With none of the three access settings set, everybody may use the bot.
pub proof fn lemma_empty_settings_admit_everyone(access: &AccessConfig, sender: &Sender)
    requires
        access.target_chat_id@.len() == 0,
        access.target_thread_id@.len() == 0,
        access.allowed_user_ids@.len() == 0,
    ensures
        admitted(access, sender),
{
}

/// A target chat that is set (and valid) shuts out every other chat,
/// whoever writes there.
pub proof fn lemma_other_chats_are_shut_out(access: &AccessConfig, sender: &Sender, target: i64)
    requires
        parse_i64(trim(access.target_chat_id@)) == Some(target),
        target != sender.chat_id,
    ensures
        !admitted(access, sender),
{
    assert(access.target_chat_id@.len() != 0) by {
        if access.target_chat_id@.len() == 0 {
            assert(trim(access.target_chat_id@) =~= Seq::<char>::empty());
        }
    }
    assert(!chat_admitted(access.target_chat_id@, sender.chat_id));
}

/// With a list of allowed users, a sender whose id is no item of the list
/// (an unknown sender counting as 0) is shut out.
pub proof fn lemma_unlisted_users_are_shut_out(access: &AccessConfig, sender: &Sender)
    requires
        access.allowed_user_ids@.len() != 0,
        forall|a: int, b: int|
            #[trigger] is_list_item(access.allowed_user_ids@, a, b) ==> parse_u64(
                trim(access.allowed_user_ids@.subrange(a, b)),
            ) != Some(
                match sender.user_id {
                    Some(u) => u,
                    None => 0u64,
                },
            ),
    ensures
        !admitted(access, sender),
{
    assert(!user_admitted(access.allowed_user_ids@, sender.user_id));
}

/// An issue is requested only by the answer to the last question (the
/// acceptance criteria), and whatever GitHub answers, the dialogue then
/// returns to the start.
pub proof fn lemma_issues_come_only_from_the_last_step(
    state: StateView,
    msg: &Incoming,
    access: &AccessConfig,
    help: Seq<char>,
    typed_cancel: bool,
    result: Result<Seq<char>, Seq<char>>,
)
    requires
        dispatch_spec(state, msg, access, help, typed_cancel) is CreateIssue,
    ensures
        state is ReceiveAcceptanceCriteria,
        msg.command is None,
        !typed_cancel,
        issue_created_outcome(result).next == Some(StateView::Start),
{
}

/// The state that `step`, taken in `state`, leaves the dialogue in: an
/// issue step ends at the start whatever GitHub answers.
pub open spec fn settle(state: StateView, step: StepView) -> StateView {
    match step {
        StepView::Finish(o) => match o.next {
            Some(s) => s,
            None => state,
        },
        StepView::CreateIssue { .. } => StateView::Start,
    }
}

/// How many issues the messages `msgs`, handled in turn from `state`, request.
pub open spec fn issues_requested(state: StateView, msgs: Seq<Incoming>, access: &AccessConfig, help: Seq<char>) -> nat
    decreases msgs.len(),
{
    if msgs.len() == 0 {
        0
    } else {
        let step = dispatch_spec(state, &msgs[0], access, help, says_cancel(msgs[0].text));
        (if step is CreateIssue {
            1nat
        } else {
            0nat
        }) + issues_requested(settle(state, step), msgs.drop_first(), access, help)
    }
}

/// How many of `msgs` are `/newissue` commands from admitted users.
pub open spec fn new_issue_commands(msgs: Seq<Incoming>, access: &AccessConfig) -> nat
    decreases msgs.len(),
{
    if msgs.len() == 0 {
        0
    } else {
        (if admitted(access, &msgs[0].sender) && msgs[0].command == Some(Command::NewIssue) {
            1nat
        } else {
            0nat
        }) + new_issue_commands(msgs.drop_first(), access)
    }
}

/// Handled in turn from any state, messages request at most one issue more
/// than they hold `/newissue` commands from admitted users, and no more than
/// that count when they start from the start.
pub proof fn lemma_requests_bounded(state: StateView, msgs: Seq<Incoming>, access: &AccessConfig, help: Seq<char>)
    ensures
        issues_requested(state, msgs, access, help) <= new_issue_commands(msgs, access) + (if state is Start {
            0nat
        } else {
            1nat
        }),
    decreases msgs.len(),
{
    if msgs.len() > 0 {
        let m = msgs[0];
        let step = dispatch_spec(state, &m, access, help, says_cancel(m.text));
        lemma_requests_bounded(settle(state, step), msgs.drop_first(), access, help);
    }
}

/// Between two `/newissue` commands at most one issue is requested: from any
/// state, messages without a `/newissue` from an admitted user request at
/// most one issue, and none from the start.
pub proof fn lemma_at_most_one_issue_between_new_issues(
    state: StateView,
    msgs: Seq<Incoming>,
    access: &AccessConfig,
    help: Seq<char>,
)
    requires
        new_issue_commands(msgs, access) == 0,
    ensures
        issues_requested(state, msgs, access, help) <= 1,
        state is Start ==> issues_requested(state, msgs, access, help) == 0,
{
    lemma_requests_bounded(state, msgs, access, help);
}

/// From the start, a run of messages requests at most one issue per
/// `/newissue`: every issue needs a `/newissue` of its own.
pub proof fn lemma_one_issue_per_new_issue(msgs: Seq<Incoming>, access: &AccessConfig, help: Seq<char>)
    ensures
        issues_requested(StateView::Start, msgs, access, help) <= new_issue_commands(msgs, access),
{
    lemma_requests_bounded(StateView::Start, msgs, access, help);
}

/// A listed user is admitted: when the chat and topic checks pass and some
/// comma-separated item of the allowed list, trimmed, parses as a `u64` to the
/// sender's id (0 for an unknown sender), the sender may use the bot, for every
/// id.
pub proof fn lemma_listed_user_is_admitted(access: &AccessConfig, sender: &Sender, a: int, b: int)
    requires
        chat_admitted(access.target_chat_id@, sender.chat_id),
        thread_admitted(access.target_thread_id@, sender.thread_id),
        is_list_item(access.allowed_user_ids@, a, b),
        parse_u64(trim(access.allowed_user_ids@.subrange(a, b))) == Some(
            match sender.user_id {
                Some(u) => u,
                None => 0u64,
            },
        ),
    ensures
        admitted(access, sender),
{
    assert(user_admitted(access.allowed_user_ids@, sender.user_id));
}

/// Each answer is recorded exactly as sent: a text message (no command, not
/// "cancel") from an admitted user stores its text, char for char, in the
/// field that the current step asks for, and the other fields stay as they
/// were; the last answer files the issue with that text in its body.
pub proof fn lemma_answers_are_recorded_as_sent(
    data: IssueDataView,
    msg: &Incoming,
    access: &AccessConfig,
    help: Seq<char>,
)
    requires
        admitted(access, &msg.sender),
        msg.command is None,
        msg.text is Some,
    ensures
        ({
            let t = msg.text->0@;
            &&& dispatch_spec(StateView::ReceiveTitle, msg, access, help, false) matches StepView::Finish(o)
                && o.next == Some(StateView::ReceiveRole { data: IssueDataView { title: t, ..empty_data() } })
            &&& dispatch_spec(StateView::ReceiveRole { data }, msg, access, help, false) matches StepView::Finish(o)
                && o.next == Some(StateView::ReceiveFunction { data: IssueDataView { role: t, ..data } })
            &&& dispatch_spec(StateView::ReceiveFunction { data }, msg, access, help, false) matches StepView::Finish(o)
                && o.next == Some(StateView::ReceiveBenefit { data: IssueDataView { function: t, ..data } })
            &&& dispatch_spec(StateView::ReceiveBenefit { data }, msg, access, help, false) matches StepView::Finish(o)
                && o.next == Some(StateView::ReceiveDetails { data: IssueDataView { benefit: t, ..data } })
            &&& dispatch_spec(StateView::ReceiveDetails { data }, msg, access, help, false) matches StepView::Finish(o)
                && o.next == Some(StateView::ReceiveAcceptanceCriteria { data: IssueDataView { details: t, ..data } })
            &&& dispatch_spec(StateView::ReceiveAcceptanceCriteria { data }, msg, access, help, false) matches StepView::CreateIssue { request, .. }
                && request.title == data.title
                && request.body == "**As a** "@ + data.role + "\n**I need** "@ + data.function
                    + "\n**So that** "@ + data.benefit + "\n\n### Details and Assumptions\n\n- "@
                    + data.details + "\n\n### Acceptance Criteria\n\n```gherkin\n"@ + t + "\n```"@
        }),
{
}

/// GitHub's answer is passed on whole: the reply is the fixed prefix followed
/// by the entire issue address (or the entire error text), and the dialogue
/// returns to the start.
pub proof fn lemma_issue_result_is_reported_whole(url: Seq<char>, error: Seq<char>)
    ensures
        ({
            let prefix = "Issue created and added to project: "@;
            let o = issue_created_outcome(Ok(url));
            &&& o.reply is Some
            &&& o.reply->0.text.len() == prefix.len() + url.len()
            &&& o.reply->0.text.subrange(0, prefix.len() as int) == prefix
            &&& o.reply->0.text.subrange(prefix.len() as int, o.reply->0.text.len() as int) == url
            &&& o.next == Some(StateView::Start)
        }),
        ({
            let prefix = "Failed to create issue: "@;
            let o = issue_created_outcome(Err(error));
            &&& o.reply is Some
            &&& o.reply->0.text.len() == prefix.len() + error.len()
            &&& o.reply->0.text.subrange(0, prefix.len() as int) == prefix
            &&& o.reply->0.text.subrange(prefix.len() as int, o.reply->0.text.len() as int) == error
            &&& o.next == Some(StateView::Start)
        }),
{
    let p1 = "Issue created and added to project: "@;
    assert((p1 + url).subrange(0, p1.len() as int) =~= p1);
    assert((p1 + url).subrange(p1.len() as int, (p1 + url).len() as int) =~= url);
    let p2 = "Failed to create issue: "@;
    assert((p2 + error).subrange(0, p2.len() as int) =~= p2);
    assert((p2 + error).subrange(p2.len() as int, (p2 + error).len() as int) =~= error);
}

/// Only "cancel" cancels: a text cancels exactly when its lowercase form is
/// "cancel", and every other text message from an admitted user goes to the
/// handler of the current state, with the text as its answer.
pub proof fn lemma_only_cancel_cancels(
    state: StateView,
    msg: &Incoming,
    access: &AccessConfig,
    help: Seq<char>,
)
    requires
        admitted(access, &msg.sender),
        msg.command is None,
        msg.text is Some,
    ensures
        says_cancel(msg.text) == (lowercase(msg.text->0@) == "cancel"@),
        lowercase(msg.text->0@) != "cancel"@ ==> dispatch_spec(
            state,
            msg,
            access,
            help,
            says_cancel(msg.text),
        ) == route(state, None, false, msg.text->0@, help),
        lowercase(msg.text->0@) == "cancel"@ ==> dispatch_spec(
            state,
            msg,
            access,
            help,
            says_cancel(msg.text),
        ) == StepView::Finish(cancel_outcome()),
{
}

/// `/help` answers with the whole command list it is given, unchanged and
/// without touching the keyboard or the dialogue.
pub proof fn lemma_help_shows_the_whole_list(help: Seq<char>)
    ensures
        help_outcome(help).reply == Some(reply_view(help, KeyboardView::Keep)),
        help_outcome(help).reply->0.text == help,
        help_outcome(help).reply->0.text.len() == help.len(),
        help_outcome(help).next is None,
{
}

/// The access rule, whole: a sender is admitted exactly when the chat check,
/// the topic check and the user check all pass, each an empty setting, a
/// setting that does not parse (ignored), or a match.
pub proof fn lemma_access_rule(access: &AccessConfig, sender: &Sender)
    ensures
        admitted(access, sender) == ({
            let chat = access.target_chat_id@;
            let thread = access.target_thread_id@;
            let users = access.allowed_user_ids@;
            let topic = match sender.thread_id {
                Some(id) => id,
                None => 0i32,
            };
            let user = match sender.user_id {
                Some(u) => u,
                None => 0u64,
            };
            &&& (chat.len() == 0 || parse_i64(trim(chat)) is None || parse_i64(trim(chat)) == Some(
                sender.chat_id,
            ))
            &&& (thread.len() == 0 || parse_i32(trim(thread)) is None || parse_i32(trim(thread))
                == Some(topic))
            &&& (users.len() == 0 || exists|a: int, b: int|
                #[trigger] is_list_item(users, a, b) && parse_u64(trim(users.subrange(a, b))) == Some(
                    user,
                ))
        }),
{
}

/// The decimal digits of `n`, most significant first, without leading zeros.
pub open spec fn decimal(n: nat) -> Seq<char>
    decreases n,
{
    if n < 10 {
        seq![(n + 48) as char]
    } else {
        decimal(n / 10).push(((n % 10) + 48) as char)
    }
}

proof fn lemma_decimal_digits(n: nat)
    ensures
        all_digits(decimal(n)),
        digits_value(decimal(n)) == n,
        decimal(n).len() > 0,
    decreases n,
{
    if n < 10 {
        let s = decimal(n);
        assert(s.drop_last() =~= Seq::<char>::empty());
        assert(((n + 48) as char) as u32 == n + 48);
        assert(s.last() == (n + 48) as char);
        assert(crate::text::digit_value(s.last()) == n);
        assert(digits_value(Seq::<char>::empty()) == 0);
    } else {
        lemma_decimal_digits(n / 10);
        let s = decimal(n);
        assert(s.drop_last() =~= decimal(n / 10));
        assert((((n % 10) + 48) as char) as u32 == (n % 10) + 48);
        assert(all_digits(s)) by {
            assert forall|i: int| 0 <= i < s.len() implies crate::text::is_digit(#[trigger] s[i]) by {
                if i < s.len() - 1 {
                    assert(s[i] == decimal(n / 10)[i]);
                }
            }
        }
        assert(s.last() == ((n % 10) + 48) as char);
        assert(crate::text::digit_value(s.last()) == n % 10);
        assert((n / 10) * 10 + n % 10 == n);
        assert(digits_value(s) == digits_value(decimal(n / 10)) * 10 + crate::text::digit_value(s.last()));
    }
}

/// Whitespace-free text is its own trimmed form.
proof fn lemma_trim_no_white_space(s: Seq<char>)
    requires
        s.len() > 0,
        !is_white_space(s[0]),
        !is_white_space(s.last()),
    ensures
        trim(s) == s,
{
    assert(trim_start(s) == s);
    assert(trim_end(s) == s);
}

/// An id written out in decimal parses back to that id: for every `u64` the
/// decimal form, trimmed, is read by `parse_u64` as the number itself.
pub proof fn lemma_decimal_id_parses(id: u64)
    ensures
        parse_u64(trim(decimal(id as nat))) == Some(id),
{
    let s = decimal(id as nat);
    lemma_decimal_digits(id as nat);
    assert(crate::text::is_digit(s[0]));
    assert(crate::text::is_digit(s[s.len() - 1]));
    lemma_trim_no_white_space(s);
    assert(parse_integer(s, false) == Some(id as int));
}

/// A user whose id is the whole allowed list, written in decimal, is admitted
/// when the chat and topic checks pass, for every `u64` id.
pub proof fn lemma_sole_listed_id_is_admitted(access: &AccessConfig, sender: &Sender, id: u64)
    requires
        chat_admitted(access.target_chat_id@, sender.chat_id),
        thread_admitted(access.target_thread_id@, sender.thread_id),
        sender.user_id == Some(id),
        access.allowed_user_ids@ == decimal(id as nat),
    ensures
        admitted(access, sender),
{
    let s = access.allowed_user_ids@;
    lemma_decimal_id_parses(id);
    lemma_decimal_digits(id as nat);
    assert forall|k: int| 0 <= k < s.len() implies s[k] != ',' by {
        assert(crate::text::is_digit(s[k]));
    }
    assert(s.subrange(0, s.len() as int) =~= s);
    assert(is_list_item(s, 0, s.len() as int));
    lemma_listed_user_is_admitted(access, sender, 0, s.len() as int);
}

/// A message without text never counts as a typed "cancel".
pub proof fn lemma_no_text_is_no_cancel()
    ensures
        !says_cancel(None),
{
}

/// `/help` from an admitted user, in every state, replies with exactly the
/// help text it is given and leaves the dialogue as it is.
pub proof fn lemma_help_command_replies_with_the_list(
    state: StateView,
    msg: &Incoming,
    access: &AccessConfig,
    help: Seq<char>,
    typed_cancel: bool,
)
    requires
        admitted(access, &msg.sender),
        msg.command == Some(Command::Help),
    ensures
        dispatch_spec(state, msg, access, help, typed_cancel) matches StepView::Finish(o) && o.reply
            == Some(reply_view(help, KeyboardView::Keep)) && o.next is None,
{
}

/// `v` written in decimal, with a leading `-` when negative.
pub open spec fn signed_decimal(v: int) -> Seq<char> {
    if v < 0 {
        seq!['-'] + decimal((-v) as nat)
    } else {
        decimal(v as nat)
    }
}

proof fn lemma_signed_decimal_parses(v: int)
    ensures
        trim(signed_decimal(v)) == signed_decimal(v),
        parse_integer(signed_decimal(v), true) == Some(v),
{
    if v < 0 {
        let m = (-v) as nat;
        let d = decimal(m);
        lemma_decimal_digits(m);
        let s = seq!['-'] + d;
        assert(s.drop_first() =~= d);
        assert(s.last() == d.last());
        assert(crate::text::is_digit(d[d.len() - 1]));
        assert(!is_white_space('-'));
        lemma_trim_no_white_space(s);
    } else {
        let d = decimal(v as nat);
        lemma_decimal_digits(v as nat);
        assert(crate::text::is_digit(d[0]));
        assert(crate::text::is_digit(d[d.len() - 1]));
        lemma_trim_no_white_space(d);
    }
}

/// A chat id written in decimal (with `-` when negative, as group ids are)
/// parses back to that id, for every `i64`.
pub proof fn lemma_chat_id_parses(id: i64)
    ensures
        parse_i64(trim(signed_decimal(id as int))) == Some(id),
{
    lemma_signed_decimal_parses(id as int);
}

/// A topic id written in decimal parses back to that id, for every `i32`.
pub proof fn lemma_topic_id_parses(id: i32)
    ensures
        parse_i32(trim(signed_decimal(id as int))) == Some(id),
{
    lemma_signed_decimal_parses(id as int);
}

/// Whitespace around a setting does not matter: `p + s + q`, with `p` and `q`
/// whitespace only and `s` neither starting nor ending with whitespace, trims
/// to `s`.
pub proof fn lemma_surrounding_white_space_is_ignored(p: Seq<char>, s: Seq<char>, q: Seq<char>)
    requires
        forall|i: int| 0 <= i < p.len() ==> is_white_space(#[trigger] p[i]),
        forall|i: int| 0 <= i < q.len() ==> is_white_space(#[trigger] q[i]),
        s.len() > 0,
        !is_white_space(s[0]),
        !is_white_space(s.last()),
    ensures
        trim(p + s + q) == s,
{
    lemma_trim_start_skips(p, s + q);
    assert(p + s + q =~= p + (s + q));
    assert(trim_start(s + q) == s + q);
    lemma_trim_end_skips(s, q);
}

proof fn lemma_trim_start_skips(p: Seq<char>, r: Seq<char>)
    requires
        forall|i: int| 0 <= i < p.len() ==> is_white_space(#[trigger] p[i]),
    ensures
        trim_start(p + r) == trim_start(r),
    decreases p.len(),
{
    if p.len() > 0 {
        assert((p + r)[0] == p[0]);
        assert((p + r).drop_first() =~= p.drop_first() + r);
        lemma_trim_start_skips(p.drop_first(), r);
    } else {
        assert(p + r =~= r);
    }
}

proof fn lemma_trim_end_skips(s: Seq<char>, q: Seq<char>)
    requires
        forall|i: int| 0 <= i < q.len() ==> is_white_space(#[trigger] q[i]),
        s.len() > 0,
        !is_white_space(s.last()),
    ensures
        trim_end(s + q) == s,
    decreases q.len(),
{
    if q.len() > 0 {
        assert((s + q).last() == q.last());
        assert((s + q).drop_last() =~= s + q.drop_last());
        lemma_trim_end_skips(s, q.drop_last());
    } else {
        assert(s + q =~= s);
    }
}

} // verus!
