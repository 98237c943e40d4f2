//! The three handlers, as transition functions.
//!
//! A handler never touches a file. It is told what came of the last request
//! and answers with the next one: look whether a path exists, copy, ask the
//! operator, remove. A driver carries the requests out. What a handler has
//! to say goes into the journal on the way.

use crate::error::{BackupError, ErrorKind};
use crate::filename::{is_valid_filename, rejection, validate_filename, validation_records};
use crate::journal::{
    grown_by, lemma_grown_by_nothing, log_action, Journal,
};
use crate::text::{decimal, decimal_text, joined, normalize, normalized, same_text};
use vstd::prelude::*;
use vstd::string::*;

verus! {

/// What the operator can ask for.
#[derive(Clone, Copy, Debug, PartialEq, Eq, Structural)]
pub enum Command {
    Backup,
    Restore,
    Delete,
}

/// How far a handler has come: which request it is waiting on.
#[derive(Clone, Copy, Debug, PartialEq, Eq, Structural)]
pub enum Stage {
    /// Nothing has been asked yet.
    Start,
    /// Whether a path exists.
    Probing,
    /// Whether a path is a regular file.
    Inspecting,
    /// A copy.
    Copying,
    /// The operator's answer.
    Confirming,
    /// A removal.
    Removing,
    /// The handler has finished.
    Done,
}

/// What a driver reports back.
#[derive(Clone, Debug, PartialEq, Eq)]
pub enum Event {
    /// The handler is to start.
    Begin,
    /// The path exists, or does not.
    Exists(bool),
    /// The path is a regular file, or is not.
    RegularFile(bool),
    /// The copy is done and flushed; so many bytes were copied.
    Copied(u64),
    /// The line that the operator typed.
    Answer(String),
    /// The file is removed.
    Removed,
    /// The request failed, for this cause.
    Failed(String),
}

/// An [`Event`] as a value of the model.
pub enum EventView {
    Begin,
    Exists(bool),
    RegularFile(bool),
    Copied(u64),
    Answer(Seq<char>),
    Removed,
    Failed(Seq<char>),
}

impl View for Event {
    type V = EventView;

    open spec fn view(&self) -> EventView {
        match *self {
            Event::Begin => EventView::Begin,
            Event::Exists(b) => EventView::Exists(b),
            Event::RegularFile(b) => EventView::RegularFile(b),
            Event::Copied(n) => EventView::Copied(n),
            Event::Answer(s) => EventView::Answer(s@),
            Event::Removed => EventView::Removed,
            Event::Failed(s) => EventView::Failed(s@),
        }
    }
}

/// How a handler ended when it did not fail.
#[derive(Clone, Debug, PartialEq, Eq)]
pub enum Completion {
    /// The file was copied to the artifact.
    BackedUp { artifact: String, bytes: u64 },
    /// The artifact was copied back over the file.
    Restored { artifact: String, bytes: u64 },
    /// The file was removed.
    Deleted,
    /// The operator did not confirm: nothing was removed.
    Cancelled,
}

/// A [`Completion`] as a value of the model.
pub enum CompletionView {
    BackedUp { artifact: Seq<char>, bytes: u64 },
    Restored { artifact: Seq<char>, bytes: u64 },
    Deleted,
    Cancelled,
}

impl View for Completion {
    type V = CompletionView;

    open spec fn view(&self) -> CompletionView {
        match *self {
            Completion::BackedUp { artifact, bytes } => CompletionView::BackedUp {
                artifact: artifact@,
                bytes,
            },
            Completion::Restored { artifact, bytes } => CompletionView::Restored {
                artifact: artifact@,
                bytes,
            },
            Completion::Deleted => CompletionView::Deleted,
            Completion::Cancelled => CompletionView::Cancelled,
        }
    }
}

/// What the operator is told of a completion.
pub open spec fn notice_text(completion: CompletionView) -> Seq<char> {
    match completion {
        CompletionView::BackedUp { artifact, bytes } => "Your backup created: "@ + artifact,
        CompletionView::Restored { artifact, bytes } => "File restored from: "@ + artifact,
        CompletionView::Deleted => "File deleted."@,
        CompletionView::Cancelled => "Delete cancelled."@,
    }
}

impl Completion {
    /// The line that tells the operator how the handler ended.
    pub fn notice(&self) -> (text: String)
        ensures
            text@ == notice_text(self@),
    {
        match self {
            Completion::BackedUp { artifact, bytes } => joined(
                "Your backup created: ",
                artifact.as_str(),
            ),
            Completion::Restored { artifact, bytes } => joined(
                "File restored from: ",
                artifact.as_str(),
            ),
            Completion::Deleted => String::from_str("File deleted."),
            Completion::Cancelled => String::from_str("Delete cancelled."),
        }
    }

    /// The number of bytes that were copied, where the handler copied.
    pub fn bytes_copied(&self) -> (bytes: Option<u64>)
        ensures
            bytes == copied_bytes(self@),
    {
        match self {
            Completion::BackedUp { artifact, bytes } => Some(*bytes),
            Completion::Restored { artifact, bytes } => Some(*bytes),
            _ => None,
        }
    }
}

/// The number of bytes that a completion tells of, where the handler copied.
pub open spec fn copied_bytes(completion: CompletionView) -> Option<u64> {
    match completion {
        CompletionView::BackedUp { artifact, bytes } => Some(bytes),
        CompletionView::Restored { artifact, bytes } => Some(bytes),
        _ => None,
    }
}

/// What a handler asks of its driver.
#[derive(Debug, PartialEq, Eq)]
pub enum Action {
    /// Report whether this path exists.
    Probe(String),
    /// Report whether this path is a regular file.
    Inspect(String),
    /// Copy every byte of the source to the destination, which is created or
    /// emptied first, and flush it. Report the number of bytes.
    Copy { source: String, destination: String },
    /// Show this prompt and report the line that the operator types.
    Confirm(String),
    /// Remove this file.
    Remove(String),
    /// Nothing more: the handler has ended, in this way.
    Finish(Result<Completion, BackupError>),
}

/// An [`Action`] as a value of the model.
pub enum ActionView {
    Probe(Seq<char>),
    Inspect(Seq<char>),
    Copy { source: Seq<char>, destination: Seq<char> },
    Confirm(Seq<char>),
    Remove(Seq<char>),
    Finish(Result<CompletionView, (ErrorKind, Seq<char>)>),
}

impl View for Action {
    type V = ActionView;

    open spec fn view(&self) -> ActionView {
        match *self {
            Action::Probe(p) => ActionView::Probe(p@),
            Action::Inspect(p) => ActionView::Inspect(p@),
            Action::Copy { source, destination } => ActionView::Copy {
                source: source@,
                destination: destination@,
            },
            Action::Confirm(p) => ActionView::Confirm(p@),
            Action::Remove(p) => ActionView::Remove(p@),
            Action::Finish(Ok(c)) => ActionView::Finish(Ok(c@)),
            Action::Finish(Err(e)) => ActionView::Finish(Err(e@)),
        }
    }
}

/// One move of a handler: where it stands afterwards, what it asks for, and
/// what it adds to the journal.
pub struct Step {
    pub stage: Stage,
    pub action: ActionView,
    pub records: Seq<Seq<char>>,
}

/// The handler ends with this error, having recorded this.
pub open spec fn fails(error: (ErrorKind, Seq<char>), records: Seq<Seq<char>>) -> Step {
    Step { stage: Stage::Done, action: ActionView::Finish(Err(error)), records }
}

/// The handler ends well, having recorded this.
pub open spec fn completes(completion: CompletionView, record: Seq<char>) -> Step {
    Step { stage: Stage::Done, action: ActionView::Finish(Ok(completion)), records: seq![record] }
}

/// The handler asks for something and records nothing.
pub open spec fn asks(stage: Stage, action: ActionView) -> Step {
    Step { stage, action, records: seq![] }
}

/// Where the copy of a file is kept.
pub open spec fn backup_name(name: Seq<char>) -> Seq<char> {
    name + ".bak"@
}

/// The first move of every handler: the name is validated, and only a valid
/// name leads to a request.
pub open spec fn first_step(name: Seq<char>, probe: Seq<char>) -> Step {
    match rejection(name) {
        Some(error) => fails(error, validation_records(name)),
        None => asks(Stage::Probing, ActionView::Probe(probe)),
    }
}

/// What the journal says of a copy that was made: the words given, the two
/// paths, and the number of bytes in decimal.
pub open spec fn copy_record(
    what: Seq<char>,
    source: Seq<char>,
    destination: Seq<char>,
    bytes: u64,
) -> Seq<char> {
    what + source + " -> "@ + destination + " ("@ + decimal(bytes as nat) + " bytes)"@
}

/// What the journal says of a request that failed: the words given, the name
/// of the file, and the cause that the driver reported.
pub open spec fn failure_record(what: Seq<char>, name: Seq<char>, cause: Seq<char>) -> Seq<char> {
    what + name + " - "@ + cause
}

/// Backup: the file must exist and be a regular file; it is then copied to
/// its artifact, and the number of bytes is recorded.
pub open spec fn backup_step(name: Seq<char>, stage: Stage, event: EventView) -> Option<Step> {
    match (stage, event) {
        (Stage::Start, EventView::Begin) => Some(first_step(name, name)),
        (Stage::Probing, EventView::Exists(found)) => Some(
            if found {
                asks(Stage::Inspecting, ActionView::Inspect(name))
            } else {
                fails(
                    (ErrorKind::FileNotFound, name),
                    seq!["Backup failed: File not found - "@ + name],
                )
            },
        ),
        (Stage::Inspecting, EventView::RegularFile(regular)) => Some(
            if regular {
                asks(
                    Stage::Copying,
                    ActionView::Copy { source: name, destination: backup_name(name) },
                )
            } else {
                fails(
                    (ErrorKind::InvalidFilename, "Target is not a regular file"@),
                    seq!["Backup failed: Not a regular file - "@ + name],
                )
            },
        ),
        (Stage::Copying, EventView::Copied(bytes)) => Some(
            completes(
                CompletionView::BackedUp { artifact: backup_name(name), bytes },
                copy_record("Backup successful: "@, name, backup_name(name), bytes),
            ),
        ),
        (Stage::Copying, EventView::Failed(cause)) => Some(
            fails(
                (ErrorKind::IoError, cause),
                seq![failure_record("Backup failed: "@, name, cause)],
            ),
        ),
        _ => None,
    }
}

/// Restore: the artifact must exist; it is then copied back over the file.
pub open spec fn restore_step(name: Seq<char>, stage: Stage, event: EventView) -> Option<Step> {
    match (stage, event) {
        (Stage::Start, EventView::Begin) => Some(first_step(name, backup_name(name))),
        (Stage::Probing, EventView::Exists(found)) => Some(
            if found {
                asks(
                    Stage::Copying,
                    ActionView::Copy { source: backup_name(name), destination: name },
                )
            } else {
                fails(
                    (ErrorKind::FileNotFound, backup_name(name)),
                    seq!["Restore failed: Backup not found - "@ + backup_name(name)],
                )
            },
        ),
        (Stage::Copying, EventView::Copied(bytes)) => Some(
            completes(
                CompletionView::Restored { artifact: backup_name(name), bytes },
                copy_record("Restore successful: "@, backup_name(name), name, bytes),
            ),
        ),
        (Stage::Copying, EventView::Failed(cause)) => Some(
            fails(
                (ErrorKind::IoError, cause),
                seq![failure_record("Restore failed: "@, name, cause)],
            ),
        ),
        _ => None,
    }
}

/// The question that is put before a file is removed.
pub open spec fn confirm_prompt(name: Seq<char>) -> Seq<char> {
    "Are you sure you want to delete "@ + name + "? (yes/no): "@
}

/// The one answer that lets a removal go on, once trimmed and in lower case.
pub open spec fn is_yes(token: Seq<char>) -> bool {
    token == "yes"@
}

/// Delete: the file must exist, and the operator must answer yes; any other
/// answer ends the handler well with nothing removed.
pub open spec fn delete_step(name: Seq<char>, stage: Stage, event: EventView) -> Option<Step> {
    match (stage, event) {
        (Stage::Start, EventView::Begin) => Some(first_step(name, name)),
        (Stage::Probing, EventView::Exists(found)) => Some(
            if found {
                asks(Stage::Confirming, ActionView::Confirm(confirm_prompt(name)))
            } else {
                fails(
                    (ErrorKind::FileNotFound, name),
                    seq!["Delete failed: File not found - "@ + name],
                )
            },
        ),
        (Stage::Confirming, EventView::Answer(line)) => Some(
            if is_yes(normalized(line)) {
                asks(Stage::Removing, ActionView::Remove(name))
            } else {
                completes(CompletionView::Cancelled, "Delete cancelled by user: "@ + name)
            },
        ),
        (Stage::Confirming, EventView::Failed(cause)) => Some(
            fails(
                (ErrorKind::IoError, cause),
                seq![failure_record("Delete failed: "@, name, cause)],
            ),
        ),
        (Stage::Removing, EventView::Removed) => Some(
            completes(CompletionView::Deleted, "Delete successful: "@ + name),
        ),
        (Stage::Removing, EventView::Failed(cause)) => Some(
            fails(
                (ErrorKind::IoError, cause),
                seq![failure_record("Delete failed: "@, name, cause)],
            ),
        ),
        _ => None,
    }
}

/// A handler made the move that was due: it stands where the step says, asks
/// what the step says and has recorded what the step says. Where no move was
/// due, because the event answers no request of that stage, it made none and
/// recorded nothing.
pub open spec fn carried_out(
    due: Option<Step>,
    made: Option<(Stage, Action)>,
    before: Seq<(Seq<char>, Seq<char>)>,
    after: Seq<(Seq<char>, Seq<char>)>,
) -> bool {
    match due {
        Some(step) => {
            &&& made matches Some(pair)
            &&& pair.0 == step.stage
            &&& pair.1@ == step.action
            &&& grown_by(before, after, step.records)
        },
        None => made is None && after == before,
    }
}

/// The name of the artifact that holds the copy of a file.
pub fn backup_path(filename: &str) -> (path: String)
    ensures
        path@ == backup_name(filename@),
{
    joined(filename, ".bak")
}

fn first_move(filename: &str, probe: String, journal: &mut Journal) -> (made: (Stage, Action))
    ensures
        carried_out(
            Some(first_step(filename@, probe@)),
            Some(made),
            old(journal)@,
            final(journal)@,
        ),
{
    match validate_filename(filename, journal) {
        Err(error) => (Stage::Done, Action::Finish(Err(error))),
        Ok(()) => (Stage::Probing, Action::Probe(probe)),
    }
}

fn fail_recorded(error: BackupError, record: &str, journal: &mut Journal) -> (made: (
    Stage,
    Action,
))
    ensures
        carried_out(
            Some(fails(error@, seq![record@])),
            Some(made),
            old(journal)@,
            final(journal)@,
        ),
{
    log_action(record, journal);
    (Stage::Done, Action::Finish(Err(error)))
}

fn complete_recorded(completion: Completion, record: &str, journal: &mut Journal) -> (made: (
    Stage,
    Action,
))
    ensures
        carried_out(
            Some(completes(completion@, record@)),
            Some(made),
            old(journal)@,
            final(journal)@,
        ),
{
    log_action(record, journal);
    (Stage::Done, Action::Finish(Ok(completion)))
}

/// Ends the handler on a request that failed: the cause is the error, and
/// one record tells of it.
fn fail_with_cause(what: &str, filename: &str, cause: &str, journal: &mut Journal) -> (made: (
    Stage,
    Action,
))
    ensures
        carried_out(
            Some(
                fails(
                    (ErrorKind::IoError, cause@),
                    seq![failure_record(what@, filename@, cause@)],
                ),
            ),
            Some(made),
            old(journal)@,
            final(journal)@,
        ),
{
    let mut record = joined(what, filename);
    record.append(" - ");
    record.append(cause);
    let error = BackupError::IoError(String::from_str(cause));
    fail_recorded(error, record.as_str(), journal)
}

fn copy_report(what: &str, source: &str, destination: &str, bytes: u64) -> (record: String)
    ensures
        record@ == copy_record(what@, source@, destination@, bytes),
{
    let mut record = joined(what, source);
    record.append(" -> ");
    record.append(destination);
    record.append(" (");
    record.append(decimal_text(bytes).as_str());
    record.append(" bytes)");
    record
}

/// One move of the backup handler.
///
/// A handler is started at its first stage, where the name is validated; at
/// a later stage the name must be a valid one.
///
/// The name is validated first. A name that passes is looked up; a file that
/// is there and regular is copied to its artifact; the outcome is recorded.
/// `None` is returned, and nothing done, for an event that answers no request
/// of the stage.
pub fn backup_file(filename: &str, stage: Stage, event: &Event, journal: &mut Journal) -> (made:
    Option<(Stage, Action)>)
    requires
        in_progress(stage) ==> is_valid_filename(filename@),
    ensures
        carried_out(backup_step(filename@, stage, event@), made, old(journal)@, final(journal)@),
        keeps_guard(made, filename@),
{
    proof {
        lemma_grown_by_nothing(old(journal)@, old(journal)@);
        if backup_step(filename@, stage, event@) is Some {
            lemma_requests_are_guarded(Command::Backup, filename@, stage, event@);
        }
    }
    match stage {
        Stage::Start => match event {
            Event::Begin => Some(first_move(filename, String::from_str(filename), journal)),
            _ => None,
        },
        Stage::Probing => match event {
            Event::Exists(found) => {
                if *found {
                    Some((Stage::Inspecting, Action::Inspect(String::from_str(filename))))
                } else {
                    let record = joined("Backup failed: File not found - ", filename);
                    let error = BackupError::FileNotFound(String::from_str(filename));
                    Some(fail_recorded(error, record.as_str(), journal))
                }
            },
            _ => None,
        },
        Stage::Inspecting => match event {
            Event::RegularFile(regular) => {
                if *regular {
                    let source = String::from_str(filename);
                    let destination = backup_path(filename);
                    Some((Stage::Copying, Action::Copy { source, destination }))
                } else {
                    let record = joined("Backup failed: Not a regular file - ", filename);
                    let error = BackupError::InvalidFilename(
                        String::from_str("Target is not a regular file"),
                    );
                    Some(fail_recorded(error, record.as_str(), journal))
                }
            },
            _ => None,
        },
        Stage::Copying => match event {
            Event::Copied(bytes) => {
                let artifact = backup_path(filename);
                let record = copy_report(
                    "Backup successful: ",
                    filename,
                    artifact.as_str(),
                    *bytes,
                );
                let completion = Completion::BackedUp { artifact, bytes: *bytes };
                Some(complete_recorded(completion, record.as_str(), journal))
            },
            Event::Failed(cause) => Some(
                fail_with_cause("Backup failed: ", filename, cause.as_str(), journal),
            ),
            _ => None,
        },
        _ => None,
    }
}

/// One move of the restore handler.
///
/// A handler is started at its first stage, where the name is validated; at
/// a later stage the name must be a valid one.
///
/// The name of the file is validated, not that of its artifact. The artifact
/// is looked up and copied back over the file; the outcome is recorded.
/// `None` is returned, and nothing done, for an event that answers no request
/// of the stage.
pub fn restore_file(filename: &str, stage: Stage, event: &Event, journal: &mut Journal) -> (made:
    Option<(Stage, Action)>)
    requires
        in_progress(stage) ==> is_valid_filename(filename@),
    ensures
        carried_out(restore_step(filename@, stage, event@), made, old(journal)@, final(journal)@),
        keeps_guard(made, filename@),
{
    proof {
        lemma_grown_by_nothing(old(journal)@, old(journal)@);
        if restore_step(filename@, stage, event@) is Some {
            lemma_requests_are_guarded(Command::Restore, filename@, stage, event@);
        }
    }
    match stage {
        Stage::Start => match event {
            Event::Begin => Some(first_move(filename, backup_path(filename), journal)),
            _ => None,
        },
        Stage::Probing => match event {
            Event::Exists(found) => {
                let artifact = backup_path(filename);
                if *found {
                    let destination = String::from_str(filename);
                    Some((Stage::Copying, Action::Copy { source: artifact, destination }))
                } else {
                    let record = joined("Restore failed: Backup not found - ", artifact.as_str());
                    let error = BackupError::FileNotFound(artifact);
                    Some(fail_recorded(error, record.as_str(), journal))
                }
            },
            _ => None,
        },
        Stage::Copying => match event {
            Event::Copied(bytes) => {
                let artifact = backup_path(filename);
                let record = copy_report(
                    "Restore successful: ",
                    artifact.as_str(),
                    filename,
                    *bytes,
                );
                let completion = Completion::Restored { artifact, bytes: *bytes };
                Some(complete_recorded(completion, record.as_str(), journal))
            },
            Event::Failed(cause) => Some(
                fail_with_cause("Restore failed: ", filename, cause.as_str(), journal),
            ),
            _ => None,
        },
        _ => None,
    }
}

/// Whether a token, trimmed and in lower case already, confirms a removal.
pub fn confirms(token: &str) -> (yes: bool)
    ensures
        yes == is_yes(token@),
{
    same_text(token, "yes")
}

/// One move of the delete handler.
///
/// A handler is started at its first stage, where the name is validated; at
/// a later stage the name must be a valid one.
///
/// The name is validated and the file looked up. The operator is then asked,
/// and the file is removed only on the answer yes; any other answer ends the
/// handler well, with nothing removed and the cancellation recorded.
/// `None` is returned, and nothing done, for an event that answers no request
/// of the stage.
pub fn delete_file(filename: &str, stage: Stage, event: &Event, journal: &mut Journal) -> (made:
    Option<(Stage, Action)>)
    requires
        in_progress(stage) ==> is_valid_filename(filename@),
    ensures
        carried_out(delete_step(filename@, stage, event@), made, old(journal)@, final(journal)@),
        keeps_guard(made, filename@),
{
    proof {
        lemma_grown_by_nothing(old(journal)@, old(journal)@);
        if delete_step(filename@, stage, event@) is Some {
            lemma_requests_are_guarded(Command::Delete, filename@, stage, event@);
        }
    }
    match stage {
        Stage::Start => match event {
            Event::Begin => Some(first_move(filename, String::from_str(filename), journal)),
            _ => None,
        },
        Stage::Probing => match event {
            Event::Exists(found) => {
                if *found {
                    let mut prompt = joined("Are you sure you want to delete ", filename);
                    prompt.append("? (yes/no): ");
                    Some((Stage::Confirming, Action::Confirm(prompt)))
                } else {
                    let record = joined("Delete failed: File not found - ", filename);
                    let error = BackupError::FileNotFound(String::from_str(filename));
                    Some(fail_recorded(error, record.as_str(), journal))
                }
            },
            _ => None,
        },
        Stage::Confirming => match event {
            Event::Answer(line) => {
                let token = normalize(line.as_str());
                if confirms(token.as_str()) {
                    Some((Stage::Removing, Action::Remove(String::from_str(filename))))
                } else {
                    let record = joined("Delete cancelled by user: ", filename);
                    Some(complete_recorded(Completion::Cancelled, record.as_str(), journal))
                }
            },
            Event::Failed(cause) => Some(
                fail_with_cause("Delete failed: ", filename, cause.as_str(), journal),
            ),
            _ => None,
        },
        Stage::Removing => match event {
            Event::Removed => {
                let record = joined("Delete successful: ", filename);
                Some(complete_recorded(Completion::Deleted, record.as_str(), journal))
            },
            Event::Failed(cause) => Some(
                fail_with_cause("Delete failed: ", filename, cause.as_str(), journal),
            ),
            _ => None,
        },
        _ => None,
    }
}

/// The move that is due in the handler of a command.
pub open spec fn handler_step(
    command: Command,
    name: Seq<char>,
    stage: Stage,
    event: EventView,
) -> Option<Step> {
    match command {
        Command::Backup => backup_step(name, stage, event),
        Command::Restore => restore_step(name, stage, event),
        Command::Delete => delete_step(name, stage, event),
    }
}

/// A request is pending: the handler has started and has not ended.
pub open spec fn in_progress(stage: Stage) -> bool {
    stage != Stage::Start && stage != Stage::Done
}

/// The request names this path.
pub open spec fn names_path(action: ActionView, path: Seq<char>) -> bool {
    match action {
        ActionView::Probe(p) => p == path,
        ActionView::Inspect(p) => p == path,
        ActionView::Remove(p) => p == path,
        ActionView::Copy { source, destination } => source == path || destination == path,
        _ => false,
    }
}

/// Every path that the request names is the file or its artifact, and the
/// file's name is a valid one.
pub open spec fn is_guarded(action: ActionView, name: Seq<char>) -> bool {
    forall|path: Seq<char>| #[trigger]
        names_path(action, path) ==> is_valid_filename(name) && (path == name || path
            == backup_name(name))
}

/// What a handler asks for after a move names only the file or its artifact,
/// and no request is pending under a name that is not valid.
pub open spec fn keeps_guard(made: Option<(Stage, Action)>, name: Seq<char>) -> bool {
    match made {
        Some(pair) => {
            &&& is_guarded(pair.1@, name)
            &&& in_progress(pair.0) ==> is_valid_filename(name)
        },
        None => true,
    }
}

/// A handler that has started leaves exactly one record of how it ends, for
/// success and for each failure alike, and none before it ends.
pub proof fn lemma_one_outcome_record(
    command: Command,
    name: Seq<char>,
    stage: Stage,
    event: EventView,
)
    requires
        in_progress(stage),
        handler_step(command, name, stage, event) is Some,
    ensures
        handler_step(command, name, stage, event)->0.stage == Stage::Done
            ==> handler_step(command, name, stage, event)->0.records.len() == 1,
        handler_step(command, name, stage, event)->0.stage != Stage::Done
            ==> handler_step(command, name, stage, event)->0.records.len() == 0,
        handler_step(command, name, stage, event)->0.stage == Stage::Done
            <==> handler_step(command, name, stage, event)->0.action is Finish,
{
}

/// No handler asks for anything under a name that was not validated: once a
/// handler has started from its first stage, whatever is reported to it, each
/// request that it makes names only the file or its artifact, and the name
/// of the file is valid.
pub proof fn lemma_requests_are_guarded(
    command: Command,
    name: Seq<char>,
    stage: Stage,
    event: EventView,
)
    requires
        in_progress(stage) ==> is_valid_filename(name),
        handler_step(command, name, stage, event) is Some,
    ensures
        is_guarded(handler_step(command, name, stage, event)->0.action, name),
        in_progress(handler_step(command, name, stage, event)->0.stage) ==> is_valid_filename(
            name,
        ),
{
    crate::filename::lemma_valid_iff_not_rejected(name);
}

/// Any answer but yes cancels: the delete handler ends well, asks for nothing
/// more and records the cancellation.
pub proof fn lemma_delete_needs_yes(name: Seq<char>, line: Seq<char>)
    requires
        !is_yes(normalized(line)),
    ensures
        delete_step(name, Stage::Confirming, EventView::Answer(line)) == Some(
            completes(CompletionView::Cancelled, "Delete cancelled by user: "@ + name),
        ),
{
}

/// A removal is asked for only when the operator has just answered yes.
pub proof fn lemma_removal_is_confirmed(
    command: Command,
    name: Seq<char>,
    stage: Stage,
    event: EventView,
)
    requires
        handler_step(command, name, stage, event) is Some,
        handler_step(command, name, stage, event)->0.action is Remove,
    ensures
        command == Command::Delete,
        stage == Stage::Confirming,
        match event {
            EventView::Answer(line) => is_yes(normalized(line)),
            _ => false,
        },
        handler_step(command, name, stage, event)->0.action == ActionView::Remove(name),
{
}

/// What a copy does to the files, each held as its bytes under its path: the
/// destination then holds what the source held, and nothing else changes.
pub open spec fn after_copy(
    files: Map<Seq<char>, Seq<u8>>,
    source: Seq<char>,
    destination: Seq<char>,
) -> Map<Seq<char>, Seq<u8>> {
    files.insert(destination, files[source])
}

/// What carrying out a request does to the files, where the request is a
/// copy. No other request is considered here.
pub open spec fn after_request(
    files: Map<Seq<char>, Seq<u8>>,
    action: ActionView,
) -> Map<Seq<char>, Seq<u8>> {
    match action {
        ActionView::Copy { source, destination } => after_copy(files, source, destination),
        _ => files,
    }
}

/// Restore brings back what backup saved. Let the copy that the backup
/// handler asks for be carried out, let the file then change in any way, and
/// let the copy that the restore handler asks for be carried out: the file
/// holds what it held before the backup. The artifact is another path than
/// the file, so saving never overwrites what is saved.
pub proof fn lemma_restore_brings_back(
    name: Seq<char>,
    files: Map<Seq<char>, Seq<u8>>,
    changed: Seq<u8>,
)
    ensures
        backup_name(name) != name,
        ({
            let saving = backup_step(name, Stage::Inspecting, EventView::RegularFile(true))->0;
            let saved = after_request(files, saving.action);
            let touched = saved.insert(name, changed);
            let restoring = restore_step(name, Stage::Probing, EventView::Exists(true))->0;
            let restored = after_request(touched, restoring.action);
            &&& saved[name] == files[name]
            &&& restored[name] == files[name]
            &&& restored[backup_name(name)] == files[name]
        }),
{
    reveal_strlit(".bak");
    assert(backup_name(name).len() == name.len() + 4);
}

/// Both copying handlers report the number of bytes that the driver counted,
/// in their completion and in the record that they leave.
pub proof fn lemma_bytes_are_reported(name: Seq<char>, bytes: u64)
    ensures
        backup_step(name, Stage::Copying, EventView::Copied(bytes)) == Some(
            completes(
                CompletionView::BackedUp { artifact: backup_name(name), bytes },
                copy_record("Backup successful: "@, name, backup_name(name), bytes),
            ),
        ),
        restore_step(name, Stage::Copying, EventView::Copied(bytes)) == Some(
            completes(
                CompletionView::Restored { artifact: backup_name(name), bytes },
                copy_record("Restore successful: "@, backup_name(name), name, bytes),
            ),
        ),
{
}

/// What an [`Operation`] is made of.
pub struct OperationView {
    pub command: Command,
    pub filename: Seq<char>,
    pub stage: Stage,
}

/// One run of a handler on one name.
///
/// The stage can only be moved by [`Operation::advance`], so a request is
/// never pending under a name that was not validated.
pub struct Operation {
    command: Command,
    filename: String,
    stage: Stage,
}

impl View for Operation {
    type V = OperationView;

    closed spec fn view(&self) -> OperationView {
        OperationView { command: self.command, filename: self.filename@, stage: self.stage }
    }
}

impl Operation {
    #[verifier::type_invariant]
    spec fn validated(&self) -> bool {
        in_progress(self.stage) ==> is_valid_filename(self.filename@)
    }

    /// A handler that has not started.
    pub fn new(command: Command, filename: &str) -> (operation: Operation)
        ensures
            operation@ == (OperationView { command, filename: filename@, stage: Stage::Start }),
    {
        Operation { command, filename: String::from_str(filename), stage: Stage::Start }
    }

    pub fn command(&self) -> (command: Command)
        ensures
            command == self@.command,
    {
        self.command
    }

    pub fn filename(&self) -> (filename: &str)
        ensures
            filename@ == self@.filename,
    {
        self.filename.as_str()
    }

    pub fn stage(&self) -> (stage: Stage)
        ensures
            stage == self@.stage,
            in_progress(stage) ==> is_valid_filename(self@.filename),
    {
        proof {
            use_type_invariant(self);
        }
        self.stage
    }

    /// Makes the move that is due on an event and gives the request that
    /// follows from it. For an event that answers no request of the stage,
    /// nothing changes and `None` is returned.
    pub fn advance(&mut self, event: &Event, journal: &mut Journal) -> (action: Option<Action>)
        ensures
            final(self)@.command == old(self)@.command,
            final(self)@.filename == old(self)@.filename,
            carried_out(
                handler_step(old(self)@.command, old(self)@.filename, old(self)@.stage, event@),
                match action {
                    Some(a) => Some((final(self)@.stage, a)),
                    None => None,
                },
                old(journal)@,
                final(journal)@,
            ),
            action is None ==> final(self)@ == old(self)@,
            action matches Some(a) ==> is_guarded(a@, final(self)@.filename),
            in_progress(final(self)@.stage) ==> is_valid_filename(final(self)@.filename),
    {
        proof {
            use_type_invariant(&*self);
            if handler_step(self@.command, self@.filename, self@.stage, event@) is Some {
                lemma_requests_are_guarded(self@.command, self@.filename, self@.stage, event@);
            }
        }
        let made = match self.command {
            Command::Backup => backup_file(self.filename.as_str(), self.stage, event, journal),
            Command::Restore => restore_file(self.filename.as_str(), self.stage, event, journal),
            Command::Delete => delete_file(self.filename.as_str(), self.stage, event, journal),
        };
        match made {
            Some((stage, action)) => {
                self.stage = stage;
                Some(action)
            },
            None => None,
        }
    }
}

} // verus!
