//! One session with the operator, from the banner to the exit status.
//!
//! A session asks for a name, validates it, asks for a command and runs the
//! handler of that command. Like a handler, it touches nothing itself: it is
//! told what came of its last directive and answers with the next one.

use crate::error::{error_text, BackupError, ErrorKind};
use crate::filename::{rejection, validate_filename, validation_records};
use crate::journal::{
    grown_by, lemma_grown_by_nothing, lemma_grown_by_twice, log_action, Journal,
};
use crate::operation::{
    handler_step, is_guarded, notice_text, Action, ActionView, Command, Event, EventView, Operation,
    OperationView, Stage, Step,
};
use crate::text::{joined, normalize, normalized, same_text, trim, trimmed};
use vstd::prelude::*;
use vstd::string::*;

verus! {

/// What a driver reports back to a session.
#[derive(Clone, Debug, PartialEq, Eq)]
pub enum Input {
    /// The session is to start.
    Begin,
    /// The line that the operator typed.
    Line(String),
    /// What came of the request of the running handler.
    Report(Event),
}

/// An [`Input`] as a value of the model.
pub enum InputView {
    Begin,
    Line(Seq<char>),
    Report(EventView),
}

impl View for Input {
    type V = InputView;

    open spec fn view(&self) -> InputView {
        match *self {
            Input::Begin => InputView::Begin,
            Input::Line(s) => InputView::Line(s@),
            Input::Report(e) => InputView::Report(e@),
        }
    }
}

/// What a session asks of its driver.
#[derive(Debug, PartialEq, Eq)]
pub enum Directive {
    /// Show this text, without a line feed after it, and report the line that
    /// the operator types.
    Ask(String),
    /// Carry out this request of the running handler and report what came of
    /// it.
    Perform(Action),
    /// Show the notice, if any, on standard output and the complaint, if any,
    /// on standard error, each as a line; then leave with the status.
    Exit { status: i32, notice: Option<String>, complaint: Option<String> },
}

/// A [`Directive`] as a value of the model.
pub enum DirectiveView {
    Ask(Seq<char>),
    Perform(ActionView),
    Exit { status: i32, notice: Option<Seq<char>>, complaint: Option<Seq<char>> },
}

/// The text that an optional string holds.
pub open spec fn text_of(text: Option<String>) -> Option<Seq<char>> {
    match text {
        Some(s) => Some(s@),
        None => None,
    }
}

impl View for Directive {
    type V = DirectiveView;

    open spec fn view(&self) -> DirectiveView {
        match *self {
            Directive::Ask(s) => DirectiveView::Ask(s@),
            Directive::Perform(a) => DirectiveView::Perform(a@),
            Directive::Exit { status, notice, complaint } => DirectiveView::Exit {
                status,
                notice: text_of(notice),
                complaint: text_of(complaint),
            },
        }
    }
}

/// Where a session stands.
pub enum Session {
    /// Nothing has been shown yet.
    Fresh,
    /// The name has been asked for.
    AwaitingName,
    /// The name is valid and the command has been asked for.
    AwaitingCommand { filename: String },
    /// The handler of the command is running.
    Running(Operation),
    /// The session is over.
    Ended,
}

/// A [`Session`] as a value of the model.
pub enum SessionView {
    Fresh,
    AwaitingName,
    AwaitingCommand { filename: Seq<char> },
    Running(OperationView),
    Ended,
}

impl View for Session {
    type V = SessionView;

    open spec fn view(&self) -> SessionView {
        match *self {
            Session::Fresh => SessionView::Fresh,
            Session::AwaitingName => SessionView::AwaitingName,
            Session::AwaitingCommand { filename } => SessionView::AwaitingCommand {
                filename: filename@,
            },
            Session::Running(operation) => SessionView::Running(operation@),
            Session::Ended => SessionView::Ended,
        }
    }
}

/// One move of a session: where it stands afterwards, what it asks for, and
/// what it adds to the journal.
pub struct Turn {
    pub session: SessionView,
    pub directive: DirectiveView,
    pub records: Seq<Seq<char>>,
}

/// What is shown first.
pub open spec fn banner() -> Seq<char> {
    "SafeBackup - Secure File Backup Utility\n=======================================\n"@
}

/// What the operator is asked first.
pub open spec fn name_prompt() -> Seq<char> {
    "Please enter your file name: "@
}

/// What the operator is asked once the name is accepted.
pub open spec fn command_prompt() -> Seq<char> {
    "Please enter your command (backup, restore, delete): "@
}

/// The command that a token names, trimmed and in lower case already.
pub open spec fn command_of(token: Seq<char>) -> Option<Command> {
    if token == "backup"@ {
        Some(Command::Backup)
    } else if token == "restore"@ {
        Some(Command::Restore)
    } else if token == "delete"@ {
        Some(Command::Delete)
    } else {
        None
    }
}

/// The session ends with status 1: the error is shown, and recorded after
/// the words given.
pub open spec fn gives_up(
    error: (ErrorKind, Seq<char>),
    earlier: Seq<Seq<char>>,
    words: Seq<char>,
) -> Turn {
    Turn {
        session: SessionView::Ended,
        directive: DirectiveView::Exit {
            status: 1,
            notice: None,
            complaint: Some("Error: "@ + error_text(error)),
        },
        records: earlier + seq![words + error_text(error)],
    }
}

/// What a session makes of a move of its handler. A request is passed on.
/// An end of the handler ends the session: with status 0, the notice shown
/// and the end recorded, or with status 1 and the error shown and recorded.
pub open spec fn after_step(operation: OperationView, step: Step) -> Turn {
    match step.action {
        ActionView::Finish(Ok(completion)) => Turn {
            session: SessionView::Ended,
            directive: DirectiveView::Exit {
                status: 0,
                notice: Some(notice_text(completion)),
                complaint: None,
            },
            records: step.records + seq![
                "Operation completed successfully"@,
                "SafeBackup session ended"@,
            ],
        },
        ActionView::Finish(Err(error)) => gives_up(error, step.records, "Operation failed: "@),
        action => Turn {
            session: SessionView::Running(
                OperationView {
                    command: operation.command,
                    filename: operation.filename,
                    stage: step.stage,
                },
            ),
            directive: DirectiveView::Perform(action),
            records: step.records,
        },
    }
}

/// The move that is due in a session, or `None` where the input answers
/// nothing that the session has asked.
pub open spec fn session_step(session: SessionView, input: InputView) -> Option<Turn> {
    match (session, input) {
        (SessionView::Fresh, InputView::Begin) => Some(
            Turn {
                session: SessionView::AwaitingName,
                directive: DirectiveView::Ask(banner() + name_prompt()),
                records: seq!["SafeBackup session started"@],
            },
        ),
        (SessionView::AwaitingName, InputView::Line(line)) => Some(
            match rejection(trimmed(line)) {
                Some(error) => gives_up(
                    error,
                    validation_records(trimmed(line)),
                    "Session terminated: "@,
                ),
                None => Turn {
                    session: SessionView::AwaitingCommand { filename: trimmed(line) },
                    directive: DirectiveView::Ask(command_prompt()),
                    records: seq![],
                },
            },
        ),
        (SessionView::AwaitingCommand { filename }, InputView::Line(line)) => Some(
            match command_of(normalized(line)) {
                Some(command) => after_step(
                    OperationView { command, filename, stage: Stage::Start },
                    handler_step(command, filename, Stage::Start, EventView::Begin)->0,
                ),
                None => Turn {
                    session: SessionView::Ended,
                    directive: DirectiveView::Exit {
                        status: 1,
                        notice: None,
                        complaint: Some("Unknown command: "@ + normalized(line)),
                    },
                    records: seq!["Unknown command attempted: "@ + normalized(line)],
                },
            },
        ),
        (SessionView::Running(operation), InputView::Report(event)) => match handler_step(
            operation.command,
            operation.filename,
            operation.stage,
            event,
        ) {
            Some(step) => Some(after_step(operation, step)),
            None => None,
        },
        _ => None,
    }
}

/// A session made the move that was due, or none where none was due.
pub open spec fn turn_taken(
    due: Option<Turn>,
    before: SessionView,
    made: (Session, Option<Directive>),
    journal_before: Seq<(Seq<char>, Seq<char>)>,
    journal_after: Seq<(Seq<char>, Seq<char>)>,
) -> bool {
    match due {
        Some(turn) => {
            &&& made.0@ == turn.session
            &&& made.1 matches Some(directive)
            &&& directive@ == turn.directive
            &&& grown_by(journal_before, journal_after, turn.records)
        },
        None => made.0@ == before && made.1 is None && journal_after == journal_before,
    }
}

/// Whatever a session directs its driver to carry out names only the file of
/// the running handler or its artifact, and the name of that file is valid.
pub open spec fn is_safe_turn(session: SessionView, directive: Option<DirectiveView>) -> bool {
    match directive {
        Some(DirectiveView::Perform(action)) => match session {
            SessionView::Running(operation) => is_guarded(action, operation.filename),
            _ => false,
        },
        _ => true,
    }
}

/// The directive of a turn, as a value of the model.
pub open spec fn directive_of(made: (Session, Option<Directive>)) -> Option<DirectiveView> {
    match made.1 {
        Some(directive) => Some(directive@),
        None => None,
    }
}

/// The command that a token names, trimmed and in lower case already.
pub fn parse_command(token: &str) -> (command: Option<Command>)
    ensures
        command == command_of(token@),
{
    if same_text(token, "backup") {
        Some(Command::Backup)
    } else if same_text(token, "restore") {
        Some(Command::Restore)
    } else if same_text(token, "delete") {
        Some(Command::Delete)
    } else {
        None
    }
}

fn give_up(error: BackupError, words: &str, journal: &mut Journal) -> (made: (
    Session,
    Option<Directive>,
))
    ensures
        turn_taken(
            Some(gives_up(error@, seq![], words@)),
            SessionView::Ended,
            made,
            old(journal)@,
            final(journal)@,
        ),
{
    let text = error.message();
    let record = joined(words, text.as_str());
    log_action(record.as_str(), journal);
    let complaint = joined("Error: ", text.as_str());
    proof {
        assert(Seq::<Seq<char>>::empty() + seq![words@ + error_text(error@)] =~= seq![
            words@ + error_text(error@),
        ]);
    }
    (Session::Ended, Some(Directive::Exit { status: 1, notice: None, complaint: Some(complaint) }))
}

/// Moves the running handler and makes of its move what the session makes
/// of it.
fn run(operation: Operation, event: &Event, journal: &mut Journal) -> (made: (
    Session,
    Option<Directive>,
))
    ensures
        turn_taken(
            match handler_step(
                operation@.command,
                operation@.filename,
                operation@.stage,
                event@,
            ) {
                Some(step) => Some(after_step(operation@, step)),
                None => None,
            },
            SessionView::Running(operation@),
            made,
            old(journal)@,
            final(journal)@,
        ),
        is_safe_turn(made.0@, directive_of(made)),
{
    let ghost start = journal@;
    let ghost due = handler_step(
        operation@.command,
        operation@.filename,
        operation@.stage,
        event@,
    );
    let mut operation = operation;
    match operation.advance(event, journal) {
        None => (Session::Running(operation), None),
        Some(Action::Finish(Ok(completion))) => {
            let ghost handled = journal@;
            let notice = completion.notice();
            log_action("Operation completed successfully", journal);
            let ghost noted = journal@;
            log_action("SafeBackup session ended", journal);
            proof {
                let first = seq!["Operation completed successfully"@];
                let second = seq!["SafeBackup session ended"@];
                lemma_grown_by_twice(handled, noted, journal@, first, second);
                lemma_grown_by_twice(start, handled, journal@, due->0.records, first + second);
                assert(first + second =~= seq![
                    "Operation completed successfully"@,
                    "SafeBackup session ended"@,
                ]);
            }
            (
                Session::Ended,
                Some(Directive::Exit { status: 0, notice: Some(notice), complaint: None }),
            )
        },
        Some(Action::Finish(Err(error))) => {
            let ghost handled = journal@;
            let made = give_up(error, "Operation failed: ", journal);
            proof {
                let last = seq!["Operation failed: "@ + error_text(error@)];
                assert(Seq::<Seq<char>>::empty() + last =~= last);
                lemma_grown_by_twice(start, handled, journal@, due->0.records, last);
            }
            made
        },
        Some(action) => (Session::Running(operation), Some(Directive::Perform(action))),
    }
}

impl Session {
    /// A session that has not started.
    pub fn new() -> (session: Session)
        ensures
            session@ == SessionView::Fresh,
    {
        Session::Fresh
    }

    /// Whether the session is over.
    pub fn is_over(&self) -> (over: bool)
        ensures
            over == (self@ == SessionView::Ended),
    {
        match self {
            Session::Ended => true,
            _ => false,
        }
    }

    /// Makes the move that is due on an input and gives the directive that
    /// follows from it. For an input that answers nothing that the session
    /// has asked, the session is handed back as it was, with `None`.
    pub fn advance(self, input: &Input, journal: &mut Journal) -> (made: (
        Session,
        Option<Directive>,
    ))
        ensures
            turn_taken(
                session_step(self@, input@),
                self@,
                made,
                old(journal)@,
                final(journal)@,
            ),
            is_safe_turn(made.0@, directive_of(made)),
    {
        proof {
            lemma_grown_by_nothing(old(journal)@, old(journal)@);
        }
        match self {
            Session::Fresh => match input {
                Input::Begin => {
                    log_action("SafeBackup session started", journal);
                    let text = joined(
                        "SafeBackup - Secure File Backup Utility\n=======================================\n",
                        "Please enter your file name: ",
                    );
                    (Session::AwaitingName, Some(Directive::Ask(text)))
                },
                _ => (Session::Fresh, None),
            },
            Session::AwaitingName => match input {
                Input::Line(line) => {
                    let name = trim(line.as_str());
                    match validate_filename(name, journal) {
                        Err(error) => {
                            let ghost validated = journal@;
                            let made = give_up(error, "Session terminated: ", journal);
                            proof {
                                let last = seq!["Session terminated: "@ + error_text(error@)];
                                assert(Seq::<Seq<char>>::empty() + last =~= last);
                                lemma_grown_by_twice(
                                    old(journal)@,
                                    validated,
                                    journal@,
                                    validation_records(name@),
                                    last,
                                );
                            }
                            made
                        },
                        Ok(()) => (
                            Session::AwaitingCommand { filename: String::from_str(name) },
                            Some(
                                Directive::Ask(
                                    String::from_str(
                                        "Please enter your command (backup, restore, delete): ",
                                    ),
                                ),
                            ),
                        ),
                    }
                },
                _ => (Session::AwaitingName, None),
            },
            Session::AwaitingCommand { filename } => match input {
                Input::Line(line) => {
                    let token = normalize(line.as_str());
                    match parse_command(token.as_str()) {
                        Some(command) => {
                            let operation = Operation::new(command, filename.as_str());
                            run(operation, &Event::Begin, journal)
                        },
                        None => {
                            let record = joined("Unknown command attempted: ", token.as_str());
                            log_action(record.as_str(), journal);
                            let complaint = joined("Unknown command: ", token.as_str());
                            (
                                Session::Ended,
                                Some(
                                    Directive::Exit {
                                        status: 1,
                                        notice: None,
                                        complaint: Some(complaint),
                                    },
                                ),
                            )
                        },
                    }
                },
                _ => (Session::AwaitingCommand { filename }, None),
            },
            Session::Running(operation) => match input {
                Input::Report(event) => run(operation, event, journal),
                _ => (Session::Running(operation), None),
            },
            Session::Ended => (Session::Ended, None),
        }
    }
}

} // verus!
