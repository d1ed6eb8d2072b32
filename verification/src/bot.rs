//! The issue wizard as a state machine: each incoming message, together with
//! the stored dialogue state, decides the reply, the next state and the
//! GitHub work that has to happen in between.

use vstd::prelude::*;
use crate::auth::{admitted, is_authorized, AccessConfig, Sender};
use crate::github::{IssueRequest, IssueRequestView};
use crate::keyboard::{Keyboard, KeyboardView};
use crate::text::{lowercase, to_lowercase};

verus! {

/// What the wizard has collected so far.
#[derive(Clone, Debug)]
pub struct IssueData {
    pub title: String,
    pub role: String,
    pub function: String,
    pub benefit: String,
    pub details: String,
    pub acceptance_criteria: String,
}

/// The model of `IssueData`.
pub struct IssueDataView {
    pub title: Seq<char>,
    pub role: Seq<char>,
    pub function: Seq<char>,
    pub benefit: Seq<char>,
    pub details: Seq<char>,
    pub acceptance_criteria: Seq<char>,
}

impl View for IssueData {
    type V = IssueDataView;

    open spec fn view(&self) -> IssueDataView {
        IssueDataView {
            title: self.title@,
            role: self.role@,
            function: self.function@,
            benefit: self.benefit@,
            details: self.details@,
            acceptance_criteria: self.acceptance_criteria@,
        }
    }
}

/// Nothing collected yet.
pub open spec fn empty_data() -> IssueDataView {
    IssueDataView {
        title: Seq::empty(),
        role: Seq::empty(),
        function: Seq::empty(),
        benefit: Seq::empty(),
        details: Seq::empty(),
        acceptance_criteria: Seq::empty(),
    }
}

impl Default for IssueData {
    fn default() -> (r: IssueData)
        ensures
            r@ == empty_data(),
    {
        let r = IssueData {
            title: String::new(),
            role: String::new(),
            function: String::new(),
            benefit: String::new(),
            details: String::new(),
            acceptance_criteria: String::new(),
        };
        r
    }
}

/// The step of the dialogue that a chat is at.
#[derive(Clone, Debug)]
pub enum State {
    Start,
    ReceiveTitle,
    ReceiveRole { data: IssueData },
    ReceiveFunction { data: IssueData },
    ReceiveBenefit { data: IssueData },
    ReceiveDetails { data: IssueData },
    ReceiveAcceptanceCriteria { data: IssueData },
}

/// The model of a `State`.
pub enum StateView {
    Start,
    ReceiveTitle,
    ReceiveRole { data: IssueDataView },
    ReceiveFunction { data: IssueDataView },
    ReceiveBenefit { data: IssueDataView },
    ReceiveDetails { data: IssueDataView },
    ReceiveAcceptanceCriteria { data: IssueDataView },
}

impl View for State {
    type V = StateView;

    open spec fn view(&self) -> StateView {
        match self {
            State::Start => StateView::Start,
            State::ReceiveTitle => StateView::ReceiveTitle,
            State::ReceiveRole { data } => StateView::ReceiveRole { data: data@ },
            State::ReceiveFunction { data } => StateView::ReceiveFunction { data: data@ },
            State::ReceiveBenefit { data } => StateView::ReceiveBenefit { data: data@ },
            State::ReceiveDetails { data } => StateView::ReceiveDetails { data: data@ },
            State::ReceiveAcceptanceCriteria { data } => StateView::ReceiveAcceptanceCriteria {
                data: data@,
            },
        }
    }
}

impl Default for State {
    fn default() -> (r: State)
        ensures
            r@ == StateView::Start,
    {
        State::Start
    }
}

/// The bot's commands: `/help`, `/newissue` and `/cancel`.
#[derive(Clone, Copy, PartialEq, Eq, Structural, Debug)]
pub enum Command {
    Help,
    NewIssue,
    Cancel,
}

/// A message to send back to the chat (and topic) that a message came from.
pub struct Reply {
    pub text: String,
    pub keyboard: Keyboard,
}

/// The model of a `Reply`.
pub struct ReplyView {
    pub text: Seq<char>,
    pub keyboard: KeyboardView,
}

impl View for Reply {
    type V = ReplyView;

    open spec fn view(&self) -> ReplyView {
        ReplyView { text: self.text@, keyboard: self.keyboard@ }
    }
}

/// What a handled message ends in: at most one reply, sent first, then the
/// new state of the dialogue (`None`: the stored state is left as it is).
pub struct Outcome {
    pub reply: Option<Reply>,
    pub next: Option<State>,
}

/// The model of an `Outcome`.
pub struct OutcomeView {
    pub reply: Option<ReplyView>,
    pub next: Option<StateView>,
}

impl View for Outcome {
    type V = OutcomeView;

    open spec fn view(&self) -> OutcomeView {
        OutcomeView {
            reply: match self.reply {
                Some(r) => Some(r@),
                None => None,
            },
            next: match self.next {
                Some(s) => Some(s@),
                None => None,
            },
        }
    }
}

/// The decision for one message. Where an issue is to be opened, the caller
/// does so and hands GitHub's answer to `issue_created`, which finishes the step.
pub enum Step {
    /// Nothing to ask GitHub.
    Finish(Outcome),
    /// Send `notice`, open the issue `request`, then call `issue_created`.
    CreateIssue { notice: Reply, request: IssueRequest },
}

/// The model of a `Step`.
pub enum StepView {
    Finish(OutcomeView),
    CreateIssue { notice: ReplyView, request: IssueRequestView },
}

impl View for Step {
    type V = StepView;

    open spec fn view(&self) -> StepView {
        match self {
            Step::Finish(o) => StepView::Finish(o@),
            Step::CreateIssue { notice, request } => StepView::CreateIssue {
                notice: notice@,
                request: request@,
            },
        }
    }
}

/// An incoming message, as far as the bot reads it.
pub struct Incoming {
    pub sender: Sender,
    /// The message's text, if it has one.
    pub text: Option<String>,
    /// The command that the text is, if it is one of the bot's commands.
    pub command: Option<Command>,
}

/// The text of a message, the empty text for one without text.
pub open spec fn text_of(text: Option<String>) -> Seq<char> {
    match text {
        Some(t) => t@,
        None => Seq::empty(),
    }
}

/// A reply with `text` and keyboard `keyboard`.
pub open spec fn reply_view(text: Seq<char>, keyboard: KeyboardView) -> ReplyView {
    ReplyView { text, keyboard }
}

/// The answer to a user who may not use the bot.
pub open spec fn unauthorized() -> OutcomeView {
    OutcomeView { reply: Some(reply_view("Unauthorized."@, KeyboardView::Keep)), next: None }
}

// ---------------------------------------------------------------------------
// What each handler decides.

pub open spec fn start_outcome(authorized: bool) -> OutcomeView {
    if authorized {
        OutcomeView {
            reply: Some(
                reply_view("Send /newissue to start creating a GitHub issue."@, KeyboardView::Keep),
            ),
            next: Some(StateView::Start),
        }
    } else {
        unauthorized()
    }
}

pub open spec fn help_outcome(help: Seq<char>) -> OutcomeView {
    OutcomeView { reply: Some(reply_view(help, KeyboardView::Keep)), next: None }
}

pub open spec fn cancel_outcome() -> OutcomeView {
    OutcomeView {
        reply: Some(reply_view("Cancelled."@, KeyboardView::Remove)),
        next: Some(StateView::Start),
    }
}

pub open spec fn new_issue_outcome(authorized: bool) -> OutcomeView {
    if authorized {
        OutcomeView {
            reply: Some(reply_view("What is the title of the issue?"@, KeyboardView::Keep)),
            next: Some(StateView::ReceiveTitle),
        }
    } else {
        unauthorized()
    }
}

pub open spec fn receive_title_outcome(text: Seq<char>) -> OutcomeView {
    OutcomeView {
        reply: Some(reply_view("As a... (Role)"@, KeyboardView::Remove)),
        next: Some(StateView::ReceiveRole { data: IssueDataView { title: text, ..empty_data() } }),
    }
}

pub open spec fn receive_role_outcome(data: IssueDataView, text: Seq<char>) -> OutcomeView {
    OutcomeView {
        reply: Some(reply_view("I need... (Function)"@, KeyboardView::Keep)),
        next: Some(StateView::ReceiveFunction { data: IssueDataView { role: text, ..data } }),
    }
}

pub open spec fn receive_function_outcome(data: IssueDataView, text: Seq<char>) -> OutcomeView {
    OutcomeView {
        reply: Some(reply_view("So that... (Benefit)"@, KeyboardView::Keep)),
        next: Some(StateView::ReceiveBenefit { data: IssueDataView { function: text, ..data } }),
    }
}

pub open spec fn receive_benefit_outcome(data: IssueDataView, text: Seq<char>) -> OutcomeView {
    OutcomeView {
        reply: Some(reply_view("Details and Assumptions:"@, KeyboardView::Keep)),
        next: Some(StateView::ReceiveDetails { data: IssueDataView { benefit: text, ..data } }),
    }
}

pub open spec fn receive_details_outcome(data: IssueDataView, text: Seq<char>) -> OutcomeView {
    OutcomeView {
        reply: Some(reply_view("Acceptance Criteria (Gherkin style):"@, KeyboardView::Keep)),
        next: Some(
            StateView::ReceiveAcceptanceCriteria { data: IssueDataView { details: text, ..data } },
        ),
    }
}

/// The issue body: the user story, then the details and the acceptance
/// criteria in a `gherkin` code block.
pub open spec fn issue_body(d: IssueDataView) -> Seq<char> {
    "**As a** "@ + d.role + "\n**I need** "@ + d.function + "\n**So that** "@ + d.benefit
        + "\n\n### Details and Assumptions\n\n- "@ + d.details
        + "\n\n### Acceptance Criteria\n\n```gherkin\n"@ + d.acceptance_criteria + "\n```"@
}

/// The issue that collected data becomes.
pub open spec fn issue_request(d: IssueDataView) -> IssueRequestView {
    IssueRequestView { title: d.title, body: issue_body(d) }
}

pub open spec fn receive_acceptance_criteria_step(data: IssueDataView, text: Seq<char>) -> StepView {
    StepView::CreateIssue {
        notice: reply_view("Creating issue..."@, KeyboardView::Keep),
        request: issue_request(IssueDataView { acceptance_criteria: text, ..data }),
    }
}

pub open spec fn issue_created_outcome(result: Result<Seq<char>, Seq<char>>) -> OutcomeView {
    OutcomeView {
        reply: Some(
            reply_view(
                match result {
                    Ok(url) => "Issue created and added to project: "@ + url,
                    Err(e) => "Failed to create issue: "@ + e,
                },
                KeyboardView::Keep,
            ),
        ),
        next: Some(StateView::Start),
    }
}

/// Which handler a message from an admitted user goes to, and what it decides.
pub open spec fn route(state: StateView, command: Option<Command>, typed_cancel: bool, text: Seq<char>, help: Seq<char>) -> StepView {
    match command {
        Some(Command::Help) => StepView::Finish(help_outcome(help)),
        Some(Command::NewIssue) => StepView::Finish(new_issue_outcome(true)),
        Some(Command::Cancel) => StepView::Finish(cancel_outcome()),
        None => if typed_cancel {
            StepView::Finish(cancel_outcome())
        } else {
            match state {
                StateView::Start => StepView::Finish(start_outcome(true)),
                StateView::ReceiveTitle => StepView::Finish(receive_title_outcome(text)),
                StateView::ReceiveRole { data } => StepView::Finish(receive_role_outcome(data, text)),
                StateView::ReceiveFunction { data } => StepView::Finish(receive_function_outcome(data, text)),
                StateView::ReceiveBenefit { data } => StepView::Finish(receive_benefit_outcome(data, text)),
                StateView::ReceiveDetails { data } => StepView::Finish(receive_details_outcome(data, text)),
                StateView::ReceiveAcceptanceCriteria { data } => receive_acceptance_criteria_step(data, text),
            }
        },
    }
}

/// Nothing happens: no reply, the state is left as it is.
pub open spec fn ignored() -> StepView {
    StepView::Finish(OutcomeView { reply: None, next: None })
}

/// The whole decision for a message: messages from users who may not use the
/// bot are dropped; then commands, then a typed "cancel", then the handler of
/// the current state.
pub open spec fn dispatch_spec(state: StateView, msg: &Incoming, access: &AccessConfig, help: Seq<char>, typed_cancel: bool) -> StepView {
    if !admitted(access, &msg.sender) {
        ignored()
    } else {
        route(state, msg.command, typed_cancel, text_of(msg.text), help)
    }
}

/// Whether the text of a message, lowercased, is "cancel".
pub open spec fn says_cancel(text: Option<String>) -> bool {
    match text {
        Some(t) => lowercase(t@) == "cancel"@,
        None => false,
    }
}

} // verus!

verus! {

/// Whether the text `a` is `b`.
fn same_text(a: &String, b: &str) -> (r: bool)
    ensures
        r == (a@ == b@),
{
    let t = String::from_str(b);
    a.eq(&t)
}

/// A reply with the text `text`.
fn text_reply(text: &str, keyboard: Keyboard) -> (r: Reply)
    ensures
        r@ == reply_view(text@, keyboard@),
{
    Reply { text: String::from_str(text), keyboard }
}

fn unauthorized_outcome() -> (r: Outcome)
    ensures
        r@ == unauthorized(),
{
    Outcome { reply: Some(text_reply("Unauthorized.", Keyboard::Keep)), next: None }
}

/// The text of a message, the empty text for one without text.
pub fn message_text(text: &Option<String>) -> (r: String)
    ensures
        r@ == text_of(*text),
{
    match text {
        Some(t) => t.clone(),
        None => String::new(),
    }
}

/// Whether the text of a message, lowercased, is "cancel" (which cancels
/// like `/cancel`).
pub fn is_cancel_text(text: &Option<String>) -> (r: bool)
    ensures
        r == says_cancel(*text),
{
    match text {
        Some(t) => {
            let lower = to_lowercase(t.as_str());
            same_text(&lower, "cancel")
        },
        None => false,
    }
}

/// Answers a message in the `Start` state: points the user to `/newissue`
/// and closes the dialogue.
pub fn start(sender: &Sender, access: &AccessConfig) -> (r: Outcome)
    ensures
        r@ == start_outcome(admitted(access, sender)),
{
    if !is_authorized(sender, access) {
        return unauthorized_outcome();
    }
    Outcome {
        reply: Some(text_reply("Send /newissue to start creating a GitHub issue.", Keyboard::Keep)),
        next: Some(State::Start),
    }
}

/// Answers `/help` with the command list `help_text`.
pub fn help(help_text: &str) -> (r: Outcome)
    ensures
        r@ == help_outcome(help_text@),
{
    Outcome { reply: Some(text_reply(help_text, Keyboard::Keep)), next: None }
}

/// Answers `/cancel`: drops what was collected and removes the keyboard.
pub fn cancel() -> (r: Outcome)
    ensures
        r@ == cancel_outcome(),
{
    Outcome { reply: Some(text_reply("Cancelled.", Keyboard::Remove)), next: Some(State::Start) }
}

/// Answers `/newissue`: asks for the title.
pub fn new_issue(sender: &Sender, access: &AccessConfig) -> (r: Outcome)
    ensures
        r@ == new_issue_outcome(admitted(access, sender)),
{
    if !is_authorized(sender, access) {
        return unauthorized_outcome();
    }
    Outcome {
        reply: Some(text_reply("What is the title of the issue?", Keyboard::Keep)),
        next: Some(State::ReceiveTitle),
    }
}

/// Takes the title and asks for the role.
pub fn receive_title(text: String) -> (r: Outcome)
    ensures
        r@ == receive_title_outcome(text@),
{
    let data = IssueData { title: text, ..IssueData::default() };
    Outcome {
        reply: Some(text_reply("As a... (Role)", Keyboard::Remove)),
        next: Some(State::ReceiveRole { data }),
    }
}

/// Takes the role ("As a ...") and asks for the function.
pub fn receive_role(data: IssueData, text: String) -> (r: Outcome)
    ensures
        r@ == receive_role_outcome(data@, text@),
{
    Outcome {
        reply: Some(text_reply("I need... (Function)", Keyboard::Keep)),
        next: Some(State::ReceiveFunction { data: IssueData { role: text, ..data } }),
    }
}

/// Takes the function ("I need ...") and asks for the benefit.
pub fn receive_function(data: IssueData, text: String) -> (r: Outcome)
    ensures
        r@ == receive_function_outcome(data@, text@),
{
    Outcome {
        reply: Some(text_reply("So that... (Benefit)", Keyboard::Keep)),
        next: Some(State::ReceiveBenefit { data: IssueData { function: text, ..data } }),
    }
}

/// Takes the benefit ("So that ...") and asks for the details.
pub fn receive_benefit(data: IssueData, text: String) -> (r: Outcome)
    ensures
        r@ == receive_benefit_outcome(data@, text@),
{
    Outcome {
        reply: Some(text_reply("Details and Assumptions:", Keyboard::Keep)),
        next: Some(State::ReceiveDetails { data: IssueData { benefit: text, ..data } }),
    }
}

/// Takes the details and asks for the acceptance criteria.
pub fn receive_details(data: IssueData, text: String) -> (r: Outcome)
    ensures
        r@ == receive_details_outcome(data@, text@),
{
    Outcome {
        reply: Some(text_reply("Acceptance Criteria (Gherkin style):", Keyboard::Keep)),
        next: Some(State::ReceiveAcceptanceCriteria { data: IssueData { details: text, ..data } }),
    }
}

/// The body of the issue for `d`.
pub fn format_issue_body(d: &IssueData) -> (r: String)
    ensures
        r@ == issue_body(d@),
{
    let mut b = String::from_str("**As a** ");
    b.append(d.role.as_str());
    b.append("\n**I need** ");
    b.append(d.function.as_str());
    b.append("\n**So that** ");
    b.append(d.benefit.as_str());
    b.append("\n\n### Details and Assumptions\n\n- ");
    b.append(d.details.as_str());
    b.append("\n\n### Acceptance Criteria\n\n```gherkin\n");
    b.append(d.acceptance_criteria.as_str());
    b.append("\n```");
    b
}

/// Takes the acceptance criteria; the issue is then to be created.
pub fn receive_acceptance_criteria(data: IssueData, text: String) -> (r: Step)
    ensures
        r@ == receive_acceptance_criteria_step(data@, text@),
{
    let data = IssueData { acceptance_criteria: text, ..data };
    let body = format_issue_body(&data);
    Step::CreateIssue {
        notice: text_reply("Creating issue...", Keyboard::Keep),
        request: IssueRequest { title: data.title, body },
    }
}

/// Finishes the last step with GitHub's answer: the new issue's address, or
/// the error's text; the dialogue closes either way.
pub fn issue_created(result: Result<String, String>) -> (r: Outcome)
    ensures
        r@ == issue_created_outcome(
            match result {
                Ok(url) => Ok(url@),
                Err(e) => Err(e@),
            },
        ),
{
    let text = match result {
        Ok(url) => String::from_str("Issue created and added to project: ").concat(url.as_str()),
        Err(e) => String::from_str("Failed to create issue: ").concat(e.as_str()),
    };
    Outcome { reply: Some(Reply { text, keyboard: Keyboard::Keep }), next: Some(State::Start) }
}

/// Decides what a message does, given whether its text is a typed "cancel".
pub fn dispatch(state: State, msg: &Incoming, access: &AccessConfig, help_text: &str, typed_cancel: bool) -> (r: Step)
    ensures
        r@ == dispatch_spec(state@, msg, access, help_text@, typed_cancel),
{
    if !is_authorized(&msg.sender, access) {
        return Step::Finish(Outcome { reply: None, next: None });
    }
    match msg.command {
        Some(Command::Help) => Step::Finish(help(help_text)),
        Some(Command::NewIssue) => Step::Finish(new_issue(&msg.sender, access)),
        Some(Command::Cancel) => Step::Finish(cancel()),
        None => {
            if typed_cancel {
                return Step::Finish(cancel());
            }
            let text = message_text(&msg.text);
            match state {
                State::Start => Step::Finish(start(&msg.sender, access)),
                State::ReceiveTitle => Step::Finish(receive_title(text)),
                State::ReceiveRole { data } => Step::Finish(receive_role(data, text)),
                State::ReceiveFunction { data } => Step::Finish(receive_function(data, text)),
                State::ReceiveBenefit { data } => Step::Finish(receive_benefit(data, text)),
                State::ReceiveDetails { data } => Step::Finish(receive_details(data, text)),
                State::ReceiveAcceptanceCriteria { data } => receive_acceptance_criteria(data, text),
            }
        },
    }
}

/// Decides what a message does in a chat whose dialogue is at `state`.
pub fn handle_message(state: State, msg: &Incoming, access: &AccessConfig, help_text: &str) -> (r: Step)
    ensures
        r@ == dispatch_spec(state@, msg, access, help_text@, says_cancel(msg.text)),
{
    let typed_cancel = is_cancel_text(&msg.text);
    dispatch(state, msg, access, help_text, typed_cancel)
}

} // verus!
