use safebackup::error::BackupError;
use safebackup::journal::Journal;
use safebackup::operation::{
    backup_file, backup_path, confirms, delete_file, restore_file, Action, Command, Completion,
    Event, Operation, Stage,
};
use std::collections::HashMap;

/// Files held in memory, and the lines that the operator will type.
struct World {
    files: HashMap<String, Vec<u8>>,
    directories: Vec<String>,
    answers: Vec<String>,
    prompts: Vec<String>,
    fail_copy: Option<String>,
    fail_remove: Option<String>,
}

fn world() -> World {
    World {
        files: HashMap::new(),
        directories: Vec::new(),
        answers: Vec::new(),
        prompts: Vec::new(),
        fail_copy: None,
        fail_remove: None,
    }
}

fn perform(world: &mut World, action: &Action) -> Event {
    match action {
        Action::Probe(path) => {
            Event::Exists(world.files.contains_key(path) || world.directories.contains(path))
        }
        Action::Inspect(path) => Event::RegularFile(world.files.contains_key(path)),
        Action::Copy { source, destination } => {
            if let Some(cause) = &world.fail_copy {
                return Event::Failed(cause.clone());
            }
            let content = world.files.get(source).unwrap().clone();
            let bytes = content.len() as u64;
            world.files.insert(destination.clone(), content);
            Event::Copied(bytes)
        }
        Action::Confirm(prompt) => {
            world.prompts.push(prompt.clone());
            Event::Answer(world.answers.remove(0))
        }
        Action::Remove(path) => {
            if let Some(cause) = &world.fail_remove {
                return Event::Failed(cause.clone());
            }
            world.files.remove(path).unwrap();
            Event::Removed
        }
        Action::Finish(_) => panic!("nothing to perform"),
    }
}

fn run(
    command: Command,
    filename: &str,
    world: &mut World,
    journal: &mut Journal,
) -> Result<Completion, BackupError> {
    let mut operation = Operation::new(command, filename);
    let mut event = Event::Begin;
    loop {
        match operation.advance(&event, journal).unwrap() {
            Action::Finish(result) => {
                assert_eq!(operation.stage(), Stage::Done);
                return result;
            }
            action => event = perform(world, &action),
        }
    }
}

fn actions(journal: &Journal) -> Vec<String> {
    let mut all = Vec::new();
    let mut i = 0;
    while let Some(record) = journal.get(i) {
        all.push(record.action.clone());
        i += 1;
    }
    all
}

#[test]
fn backup_then_restore_brings_the_content_back() {
    let mut w = world();
    let mut journal = Journal::new();
    let content = b"the quick brown fox".to_vec();
    w.files.insert("notes.txt".to_string(), content.clone());

    let saved = run(Command::Backup, "notes.txt", &mut w, &mut journal).unwrap();
    assert_eq!(
        saved,
        Completion::BackedUp { artifact: "notes.txt.bak".to_string(), bytes: 19 }
    );
    assert_eq!(saved.bytes_copied(), Some(19));
    assert_eq!(saved.notice(), "Your backup created: notes.txt.bak");
    assert_eq!(w.files["notes.txt.bak"], content);

    w.files.insert("notes.txt".to_string(), b"overwritten".to_vec());

    let restored = run(Command::Restore, "notes.txt", &mut w, &mut journal).unwrap();
    assert_eq!(
        restored,
        Completion::Restored { artifact: "notes.txt.bak".to_string(), bytes: 19 }
    );
    assert_eq!(restored.notice(), "File restored from: notes.txt.bak");
    assert_eq!(w.files["notes.txt"], content);
    assert_eq!(w.files["notes.txt.bak"], content);
    assert_eq!(
        actions(&journal),
        vec![
            "Backup successful: notes.txt -> notes.txt.bak (19 bytes)".to_string(),
            "Restore successful: notes.txt.bak -> notes.txt (19 bytes)".to_string(),
        ]
    );
}

#[test]
fn backup_overwrites_an_earlier_artifact() {
    let mut w = world();
    let mut journal = Journal::new();
    w.files.insert("a".to_string(), b"new".to_vec());
    w.files.insert("a.bak".to_string(), b"old and longer".to_vec());
    run(Command::Backup, "a", &mut w, &mut journal).unwrap();
    assert_eq!(w.files["a.bak"], b"new".to_vec());
}

#[test]
fn backup_of_an_empty_file_reports_zero_bytes() {
    let mut w = world();
    let mut journal = Journal::new();
    w.files.insert("empty".to_string(), Vec::new());
    let saved = run(Command::Backup, "empty", &mut w, &mut journal).unwrap();
    assert_eq!(saved.bytes_copied(), Some(0));
    assert_eq!(
        actions(&journal),
        vec!["Backup successful: empty -> empty.bak (0 bytes)".to_string()]
    );
}

#[test]
fn backup_of_a_missing_file_fails_and_creates_nothing() {
    let mut w = world();
    let mut journal = Journal::new();
    let result = run(Command::Backup, "ghost.txt", &mut w, &mut journal);
    assert_eq!(result, Err(BackupError::FileNotFound("ghost.txt".to_string())));
    assert!(!w.files.contains_key("ghost.txt.bak"));
    assert!(w.files.is_empty());
    assert_eq!(
        actions(&journal),
        vec!["Backup failed: File not found - ghost.txt".to_string()]
    );
}

#[test]
fn backup_of_a_directory_is_refused() {
    let mut w = world();
    let mut journal = Journal::new();
    w.directories.push("folder".to_string());
    let result = run(Command::Backup, "folder", &mut w, &mut journal);
    assert_eq!(
        result,
        Err(BackupError::InvalidFilename("Target is not a regular file".to_string()))
    );
    assert!(w.files.is_empty());
    assert_eq!(
        actions(&journal),
        vec!["Backup failed: Not a regular file - folder".to_string()]
    );
}

#[test]
fn a_failed_copy_gives_the_cause() {
    let mut w = world();
    let mut journal = Journal::new();
    w.files.insert("a".to_string(), b"x".to_vec());
    w.fail_copy = Some("disk full".to_string());
    let result = run(Command::Backup, "a", &mut w, &mut journal);
    assert_eq!(result, Err(BackupError::IoError("disk full".to_string())));
    assert_eq!(result.unwrap_err().message(), "IO Error: disk full");
    w.files.insert("a.bak".to_string(), b"x".to_vec());
    let result = run(Command::Restore, "a", &mut w, &mut journal);
    assert_eq!(result, Err(BackupError::IoError("disk full".to_string())));
    assert_eq!(
        actions(&journal),
        vec![
            "Backup failed: a - disk full".to_string(),
            "Restore failed: a - disk full".to_string(),
        ]
    );
}

#[test]
fn restore_without_an_artifact_fails() {
    let mut w = world();
    let mut journal = Journal::new();
    w.files.insert("a.txt".to_string(), b"x".to_vec());
    let result = run(Command::Restore, "a.txt", &mut w, &mut journal);
    assert_eq!(result, Err(BackupError::FileNotFound("a.txt.bak".to_string())));
    assert_eq!(w.files["a.txt"], b"x".to_vec());
    assert_eq!(
        actions(&journal),
        vec!["Restore failed: Backup not found - a.txt.bak".to_string()]
    );
}

#[test]
fn restore_creates_a_file_that_is_gone() {
    let mut w = world();
    let mut journal = Journal::new();
    w.files.insert("a.txt.bak".to_string(), b"kept".to_vec());
    let restored = run(Command::Restore, "a.txt", &mut w, &mut journal).unwrap();
    assert_eq!(restored.bytes_copied(), Some(4));
    assert_eq!(w.files["a.txt"], b"kept".to_vec());
    assert_eq!(w.files["a.txt.bak"], b"kept".to_vec());
}

#[test]
fn delete_answered_no_keeps_the_file() {
    for answer in ["no", "", "y", "yes please", "yess", "n\n", "ye s", "oui"] {
        let mut w = world();
        let mut journal = Journal::new();
        w.files.insert("a.txt".to_string(), b"x".to_vec());
        w.answers.push(answer.to_string());
        let result = run(Command::Delete, "a.txt", &mut w, &mut journal);
        assert_eq!(result, Ok(Completion::Cancelled), "{:?}", answer);
        assert!(w.files.contains_key("a.txt"));
        assert_eq!(
            w.prompts,
            vec!["Are you sure you want to delete a.txt? (yes/no): ".to_string()]
        );
        assert_eq!(
            actions(&journal),
            vec!["Delete cancelled by user: a.txt".to_string()]
        );
    }
    assert_eq!(Completion::Cancelled.notice(), "Delete cancelled.");
    assert_eq!(Completion::Cancelled.bytes_copied(), None);
}

#[test]
fn delete_answered_yes_removes_the_file() {
    for answer in ["yes", "yes\n", "  YES  \r\n", "Yes", "\tyEs"] {
        let mut w = world();
        let mut journal = Journal::new();
        w.files.insert("a.txt".to_string(), b"x".to_vec());
        w.answers.push(answer.to_string());
        let result = run(Command::Delete, "a.txt", &mut w, &mut journal);
        assert_eq!(result, Ok(Completion::Deleted), "{:?}", answer);
        assert!(!w.files.contains_key("a.txt"));
        assert_eq!(actions(&journal), vec!["Delete successful: a.txt".to_string()]);

        let again = run(Command::Delete, "a.txt", &mut w, &mut journal);
        assert_eq!(again, Err(BackupError::FileNotFound("a.txt".to_string())));
        assert!(w.answers.is_empty());
        assert_eq!(
            actions(&journal),
            vec![
                "Delete successful: a.txt".to_string(),
                "Delete failed: File not found - a.txt".to_string(),
            ]
        );
    }
    assert_eq!(Completion::Deleted.notice(), "File deleted.");
}

#[test]
fn a_failed_removal_is_recorded_with_its_cause() {
    let mut w = world();
    let mut journal = Journal::new();
    w.files.insert("a.txt".to_string(), b"x".to_vec());
    w.answers.push("yes".to_string());
    w.fail_remove = Some("read-only file system".to_string());
    let result = run(Command::Delete, "a.txt", &mut w, &mut journal);
    assert_eq!(
        result,
        Err(BackupError::IoError("read-only file system".to_string()))
    );
    assert_eq!(
        actions(&journal),
        vec!["Delete failed: a.txt - read-only file system".to_string()]
    );
}

#[test]
fn a_prompt_that_cannot_be_read_fails_the_delete() {
    let mut journal = Journal::new();
    let made = delete_file(
        "a.txt",
        Stage::Confirming,
        &Event::Failed("stdin closed".to_string()),
        &mut journal,
    );
    assert_eq!(
        made,
        Some((
            Stage::Done,
            Action::Finish(Err(BackupError::IoError("stdin closed".to_string())))
        ))
    );
    assert_eq!(
        actions(&journal),
        vec!["Delete failed: a.txt - stdin closed".to_string()]
    );
}

#[test]
fn every_end_of_a_started_handler_leaves_one_record() {
    let ends = [
        (Command::Backup, Stage::Probing, Event::Exists(false)),
        (Command::Backup, Stage::Inspecting, Event::RegularFile(false)),
        (Command::Backup, Stage::Copying, Event::Copied(5)),
        (Command::Backup, Stage::Copying, Event::Failed("short write".to_string())),
        (Command::Restore, Stage::Probing, Event::Exists(false)),
        (Command::Restore, Stage::Copying, Event::Copied(5)),
        (Command::Restore, Stage::Copying, Event::Failed("short write".to_string())),
        (Command::Delete, Stage::Probing, Event::Exists(false)),
        (Command::Delete, Stage::Confirming, Event::Answer("no".to_string())),
        (Command::Delete, Stage::Confirming, Event::Failed("closed".to_string())),
        (Command::Delete, Stage::Removing, Event::Removed),
        (Command::Delete, Stage::Removing, Event::Failed("busy".to_string())),
    ];
    for (command, stage, event) in ends {
        let mut journal = Journal::new();
        let made = match command {
            Command::Backup => backup_file("f.dat", stage, &event, &mut journal),
            Command::Restore => restore_file("f.dat", stage, &event, &mut journal),
            Command::Delete => delete_file("f.dat", stage, &event, &mut journal),
        };
        let (next, action) = made.unwrap();
        assert_eq!(next, Stage::Done);
        assert!(matches!(action, Action::Finish(_)));
        assert_eq!(journal.len(), 1, "{:?} {:?} {:?}", command, stage, event);
    }
    let goes_on = [
        (Command::Backup, Stage::Probing, Event::Exists(true)),
        (Command::Backup, Stage::Inspecting, Event::RegularFile(true)),
        (Command::Restore, Stage::Probing, Event::Exists(true)),
        (Command::Delete, Stage::Probing, Event::Exists(true)),
        (Command::Delete, Stage::Confirming, Event::Answer("yes".to_string())),
    ];
    for (command, stage, event) in goes_on {
        let mut journal = Journal::new();
        let made = match command {
            Command::Backup => backup_file("f.dat", stage, &event, &mut journal),
            Command::Restore => restore_file("f.dat", stage, &event, &mut journal),
            Command::Delete => delete_file("f.dat", stage, &event, &mut journal),
        };
        let (next, action) = made.unwrap();
        assert_ne!(next, Stage::Done);
        assert!(!matches!(action, Action::Finish(_)));
        assert_eq!(journal.len(), 0);
    }
}

#[test]
fn every_handler_validates_before_it_asks_for_anything() {
    for command in [Command::Backup, Command::Restore, Command::Delete] {
        let mut w = world();
        let mut journal = Journal::new();
        w.files.insert("../secret".to_string(), b"x".to_vec());
        w.files.insert("../secret.bak".to_string(), b"x".to_vec());
        let result = run(command, "../secret", &mut w, &mut journal);
        assert_eq!(result, Err(BackupError::PathTraversal("../secret".to_string())));
        assert_eq!(w.files.len(), 2);
        assert_eq!(
            actions(&journal),
            vec!["Security: Path traversal attempt blocked - ../secret".to_string()]
        );

        let mut journal = Journal::new();
        let result = run(command, "bad name", &mut w, &mut journal);
        assert_eq!(
            result,
            Err(BackupError::InvalidFilename(
                "Filename contains invalid characters".to_string()
            ))
        );
        assert_eq!(journal.len(), 0);
    }
}

#[test]
fn an_event_that_answers_nothing_changes_nothing() {
    let mut journal = Journal::new();
    let mut operation = Operation::new(Command::Backup, "a.txt");
    assert_eq!(operation.command(), Command::Backup);
    assert_eq!(operation.filename(), "a.txt");
    assert_eq!(operation.stage(), Stage::Start);
    assert_eq!(operation.advance(&Event::Exists(true), &mut journal), None);
    assert_eq!(operation.advance(&Event::Copied(3), &mut journal), None);
    assert_eq!(operation.stage(), Stage::Start);
    assert_eq!(
        operation.advance(&Event::Begin, &mut journal),
        Some(Action::Probe("a.txt".to_string()))
    );
    assert_eq!(operation.stage(), Stage::Probing);
    assert_eq!(operation.advance(&Event::Begin, &mut journal), None);
    assert_eq!(operation.advance(&Event::RegularFile(true), &mut journal), None);
    assert_eq!(operation.advance(&Event::Failed("x".to_string()), &mut journal), None);
    assert_eq!(operation.stage(), Stage::Probing);
    assert_eq!(
        operation.advance(&Event::Exists(false), &mut journal),
        Some(Action::Finish(Err(BackupError::FileNotFound("a.txt".to_string()))))
    );
    assert_eq!(operation.stage(), Stage::Done);
    assert_eq!(operation.advance(&Event::Begin, &mut journal), None);
    assert_eq!(operation.advance(&Event::Exists(true), &mut journal), None);
    assert_eq!(journal.len(), 1);
}

#[test]
fn the_handlers_ask_in_their_order() {
    let mut journal = Journal::new();
    assert_eq!(
        backup_file("a", Stage::Start, &Event::Begin, &mut journal),
        Some((Stage::Probing, Action::Probe("a".to_string())))
    );
    assert_eq!(
        backup_file("a", Stage::Probing, &Event::Exists(true), &mut journal),
        Some((Stage::Inspecting, Action::Inspect("a".to_string())))
    );
    assert_eq!(
        backup_file("a", Stage::Inspecting, &Event::RegularFile(true), &mut journal),
        Some((
            Stage::Copying,
            Action::Copy { source: "a".to_string(), destination: "a.bak".to_string() }
        ))
    );
    assert_eq!(
        restore_file("a", Stage::Start, &Event::Begin, &mut journal),
        Some((Stage::Probing, Action::Probe("a.bak".to_string())))
    );
    assert_eq!(
        restore_file("a", Stage::Probing, &Event::Exists(true), &mut journal),
        Some((
            Stage::Copying,
            Action::Copy { source: "a.bak".to_string(), destination: "a".to_string() }
        ))
    );
    assert_eq!(restore_file("a", Stage::Inspecting, &Event::RegularFile(true), &mut journal), None);
    assert_eq!(
        delete_file("a", Stage::Probing, &Event::Exists(true), &mut journal),
        Some((
            Stage::Confirming,
            Action::Confirm("Are you sure you want to delete a? (yes/no): ".to_string())
        ))
    );
    assert_eq!(
        delete_file("a", Stage::Confirming, &Event::Answer(" Yes\n".to_string()), &mut journal),
        Some((Stage::Removing, Action::Remove("a".to_string())))
    );
    assert_eq!(delete_file("a", Stage::Copying, &Event::Copied(1), &mut journal), None);
    assert_eq!(journal.len(), 0);
    assert_eq!(
        backup_file("a", Stage::Copying, &Event::Copied(18446744073709551615), &mut journal),
        Some((
            Stage::Done,
            Action::Finish(Ok(Completion::BackedUp {
                artifact: "a.bak".to_string(),
                bytes: 18446744073709551615
            }))
        ))
    );
    assert_eq!(
        journal.get(0).unwrap().action,
        "Backup successful: a -> a.bak (18446744073709551615 bytes)"
    );
}

#[test]
fn only_the_word_yes_confirms() {
    assert!(confirms("yes"));
    assert!(!confirms("YES"));
    assert!(!confirms(" yes"));
    assert!(!confirms("ye"));
    assert!(!confirms("yess"));
    assert!(!confirms(""));
    assert!(!confirms("no"));
}

#[test]
fn the_artifact_is_named_after_the_file() {
    assert_eq!(backup_path("a.txt"), "a.txt.bak");
    assert_eq!(backup_path(""), ".bak");
}
