use ogonek_gh::auth::{AccessConfig, Sender};
use ogonek_gh::bot::{
    cancel, dispatch, format_issue_body, handle_message, help, is_cancel_text, issue_created,
    message_text, new_issue, receive_acceptance_criteria, receive_benefit, receive_details,
    receive_function, receive_role, receive_title, start, Command, Incoming, IssueData, Outcome,
    State, Step,
};
use ogonek_gh::keyboard::Keyboard;

const HELP: &str = "These commands are supported:\n\n/help — display this text.";

fn open_access() -> AccessConfig {
    AccessConfig {
        target_chat_id: String::new(),
        target_thread_id: String::new(),
        allowed_user_ids: String::new(),
    }
}

fn only_user(id: &str) -> AccessConfig {
    AccessConfig { allowed_user_ids: id.to_string(), ..open_access() }
}

fn user(id: u64) -> Sender {
    Sender { chat_id: 42, thread_id: None, user_id: Some(id) }
}

fn text_msg(text: &str) -> Incoming {
    Incoming { sender: user(1), text: Some(text.to_string()), command: None }
}

fn command_msg(c: Command) -> Incoming {
    Incoming { sender: user(1), text: None, command: Some(c) }
}

fn finish(step: Step) -> Outcome {
    match step {
        Step::Finish(o) => o,
        _ => panic!("expected a finished step"),
    }
}

fn reply_text(o: &Outcome) -> &str {
    o.reply.as_ref().unwrap().text.as_str()
}

fn removes_keyboard(o: &Outcome) -> bool {
    o.reply.as_ref().unwrap().keyboard == Keyboard::Remove
}

fn data_of(s: &State) -> &IssueData {
    match s {
        State::ReceiveRole { data }
        | State::ReceiveFunction { data }
        | State::ReceiveBenefit { data }
        | State::ReceiveDetails { data }
        | State::ReceiveAcceptanceCriteria { data } => data,
        _ => panic!("no data in this state"),
    }
}

fn sample_data() -> IssueData {
    IssueData {
        title: "Export".to_string(),
        role: "user".to_string(),
        function: "a CSV export".to_string(),
        benefit: "I can use a spreadsheet".to_string(),
        details: "only the visible rows".to_string(),
        acceptance_criteria: "Given rows\nWhen I export\nThen I get a file".to_string(),
    }
}

#[test]
fn start_points_to_new_issue() {
    let o = start(&user(1), &open_access());
    assert_eq!(reply_text(&o), "Send /newissue to start creating a GitHub issue.");
    assert!(matches!(o.next, Some(State::Start)));
    let o = start(&user(2), &only_user("1"));
    assert_eq!(reply_text(&o), "Unauthorized.");
    assert!(o.next.is_none());
}

#[test]
fn help_replies_with_the_command_list() {
    let o = help(HELP);
    assert_eq!(reply_text(&o), HELP);
    assert!(o.next.is_none());
}

#[test]
fn cancel_resets_and_removes_keyboard() {
    let o = cancel();
    assert_eq!(reply_text(&o), "Cancelled.");
    assert!(removes_keyboard(&o));
    assert!(matches!(o.next, Some(State::Start)));
}

#[test]
fn new_issue_asks_for_the_title() {
    let o = new_issue(&user(1), &open_access());
    assert_eq!(reply_text(&o), "What is the title of the issue?");
    assert!(matches!(o.next, Some(State::ReceiveTitle)));
    let o = new_issue(&user(3), &only_user("1"));
    assert_eq!(reply_text(&o), "Unauthorized.");
    assert!(o.next.is_none());
}

#[test]
fn title_is_followed_by_the_role() {
    let o = receive_title("Broken login".to_string());
    assert_eq!(reply_text(&o), "As a... (Role)");
    assert!(removes_keyboard(&o));
    match o.next {
        Some(State::ReceiveRole { data }) => {
            assert_eq!(data.title, "Broken login");
            assert!(data.role.is_empty() && data.function.is_empty() && data.details.is_empty());
        },
        _ => panic!("expected the role step"),
    }
}

#[test]
fn story_questions_in_order() {
    let o = receive_role(IssueData::default(), "admin".to_string());
    assert_eq!(reply_text(&o), "I need... (Function)");
    assert!(matches!(&o.next, Some(State::ReceiveFunction { data }) if data.role == "admin"));
    let o = receive_function(IssueData::default(), "f".to_string());
    assert_eq!(reply_text(&o), "So that... (Benefit)");
    assert!(matches!(&o.next, Some(State::ReceiveBenefit { data }) if data.function == "f"));
    let o = receive_benefit(IssueData::default(), "b".to_string());
    assert_eq!(reply_text(&o), "Details and Assumptions:");
    assert!(matches!(&o.next, Some(State::ReceiveDetails { data }) if data.benefit == "b"));
    let o = receive_details(IssueData::default(), "d".to_string());
    assert_eq!(reply_text(&o), "Acceptance Criteria (Gherkin style):");
    assert!(matches!(&o.next, Some(State::ReceiveAcceptanceCriteria { data }) if data.details == "d"));
}

#[test]
fn issue_body_formula() {
    assert_eq!(
        format_issue_body(&sample_data()),
        "**As a** user\n**I need** a CSV export\n**So that** I can use a spreadsheet\n\n\
         ### Details and Assumptions\n\n- only the visible rows\n\n### Acceptance Criteria\n\n\
         ```gherkin\nGiven rows\nWhen I export\nThen I get a file\n```"
    );
}

#[test]
fn criteria_request_the_issue() {
    let d = IssueData { acceptance_criteria: String::new(), ..sample_data() };
    match receive_acceptance_criteria(d, "Then it works".to_string()) {
        Step::CreateIssue { notice, request } => {
            assert_eq!(notice.text, "Creating issue...");
            assert_eq!(request.title, "Export");
            assert!(request.body.ends_with("```gherkin\nThen it works\n```"));
        },
        _ => panic!("expected an issue request"),
    }
}

#[test]
fn issue_result_is_reported() {
    let o = issue_created(Ok("https://github.com/o/r/issues/1".to_string()));
    assert_eq!(reply_text(&o), "Issue created and added to project: https://github.com/o/r/issues/1");
    assert!(matches!(o.next, Some(State::Start)));
    let o = issue_created(Err("GITHUB_PAT not set".to_string()));
    assert_eq!(reply_text(&o), "Failed to create issue: GITHUB_PAT not set");
    assert!(matches!(o.next, Some(State::Start)));
}

#[test]
fn typed_cancel_in_any_case() {
    assert!(is_cancel_text(&Some("cancel".to_string())));
    assert!(is_cancel_text(&Some("CaNcEl".to_string())));
    assert!(!is_cancel_text(&Some("cancel ".to_string())));
    assert!(!is_cancel_text(&Some("/cancel".to_string())));
    assert!(!is_cancel_text(&None));
}

#[test]
fn message_text_defaults_to_empty() {
    assert_eq!(message_text(&None), "");
    assert_eq!(message_text(&Some("hi".to_string())), "hi");
}

#[test]
fn strangers_are_ignored() {
    let msg = Incoming { sender: user(9), text: Some("cancel".to_string()), command: None };
    let o = finish(handle_message(State::ReceiveTitle, &msg, &only_user("1"), HELP));
    assert!(o.reply.is_none() && o.next.is_none());
}

#[test]
fn commands_win_over_the_state() {
    let s = State::ReceiveRole { data: sample_data() };
    let o = finish(handle_message(s, &command_msg(Command::NewIssue), &open_access(), HELP));
    assert!(matches!(o.next, Some(State::ReceiveTitle)));
    let s = State::ReceiveDetails { data: sample_data() };
    let o = finish(handle_message(s, &command_msg(Command::Help), &open_access(), HELP));
    assert_eq!(reply_text(&o), HELP);
    assert!(o.next.is_none());
    let s = State::ReceiveFunction { data: sample_data() };
    let o = finish(handle_message(s, &command_msg(Command::Cancel), &open_access(), HELP));
    assert!(matches!(o.next, Some(State::Start)));
}

#[test]
fn typed_cancel_aborts_the_wizard() {
    let s = State::ReceiveBenefit { data: sample_data() };
    let o = finish(handle_message(s, &text_msg("Cancel"), &open_access(), HELP));
    assert_eq!(reply_text(&o), "Cancelled.");
    assert!(matches!(o.next, Some(State::Start)));
    let s = State::ReceiveTitle;
    let o = finish(dispatch(s, &text_msg("anything"), &open_access(), HELP, true));
    assert_eq!(reply_text(&o), "Cancelled.");
}

#[test]
fn text_in_start_state_points_to_new_issue() {
    let o = finish(handle_message(State::Start, &text_msg("hello"), &open_access(), HELP));
    assert_eq!(reply_text(&o), "Send /newissue to start creating a GitHub issue.");
    assert!(matches!(o.next, Some(State::Start)));
}

#[test]
fn message_without_text_is_an_empty_answer() {
    let msg = Incoming { sender: user(1), text: None, command: None };
    let o = finish(handle_message(State::ReceiveTitle, &msg, &open_access(), HELP));
    assert_eq!(data_of(o.next.as_ref().unwrap()).title, "");
}

#[test]
fn whole_wizard_files_the_story() {
    let access = only_user("1");
    let o = finish(handle_message(State::Start, &command_msg(Command::NewIssue), &access, HELP));
    let mut s = o.next.unwrap();
    for t in ["Export", "user", "a CSV export", "I can use a spreadsheet", "only the visible rows"] {
        s = finish(handle_message(s, &text_msg(t), &access, HELP)).next.unwrap();
    }
    let criteria = "Given rows\nWhen I export\nThen I get a file";
    match handle_message(s, &text_msg(criteria), &access, HELP) {
        Step::CreateIssue { notice, request } => {
            assert_eq!(notice.text, "Creating issue...");
            assert_eq!(request.title, "Export");
            assert_eq!(request.body, format_issue_body(&sample_data()));
        },
        _ => panic!("the issue must be requested"),
    }
}

#[test]
fn only_the_last_answer_requests_an_issue() {
    let access = open_access();
    let states = vec![
        State::Start,
        State::ReceiveTitle,
        State::ReceiveRole { data: sample_data() },
        State::ReceiveFunction { data: sample_data() },
        State::ReceiveBenefit { data: sample_data() },
        State::ReceiveDetails { data: sample_data() },
    ];
    for s in states {
        assert!(matches!(handle_message(s, &text_msg("x"), &access, HELP), Step::Finish(_)));
    }
    let s = State::ReceiveAcceptanceCriteria { data: sample_data() };
    assert!(matches!(handle_message(s, &text_msg("x"), &access, HELP), Step::CreateIssue { .. }));
}

#[test]
fn no_second_issue_without_new_issue() {
    let access = open_access();
    let s = State::ReceiveAcceptanceCriteria { data: sample_data() };
    assert!(matches!(handle_message(s, &text_msg("done"), &access, HELP), Step::CreateIssue { .. }));
    let mut s = issue_created(Ok("https://github.com/o/r/issues/2".to_string())).next.unwrap();
    for t in ["again", "more", "criteria", "cancel", "x"] {
        let o = finish(handle_message(s, &text_msg(t), &access, HELP));
        s = o.next.unwrap_or(State::Start);
        assert!(matches!(s, State::Start));
    }
}
