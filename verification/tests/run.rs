use cleanup_package_files::config::{Config, RunMode};
use cleanup_package_files::failure::{ErrorKind, Failure};
use cleanup_package_files::protocol::{Action, Entry, Event};
use cleanup_package_files::run::Run;

fn installation() -> Config {
    Config {
        account: String::from("builder"),
        lock_file: String::from("~builder/.lilac/.lock"),
        repository: String::from("~builder/archgitrepo"),
    }
}

fn entry_of(name: &[u8]) -> Entry {
    let mut path = b"/home/builder/archgitrepo/pkg/".to_vec();
    path.extend_from_slice(name);
    Entry { name: name.to_vec(), path }
}

fn failed(code: Option<i32>, detail: &[u8]) -> Event {
    Event::Failed { code, detail: detail.to_vec() }
}

/// The events of a run up to the point where it waits for the lock file
/// to be opened.
fn until_lock_file() -> Vec<Event> {
    vec![
        Event::Identity { uid: 1000 },
        Event::Done,
        Event::Path { path: b"/home/builder/.lilac/.lock".to_vec() },
    ]
}

/// The events of a run up to the point where it waits for the lock.
fn until_lock() -> Vec<Event> {
    let mut events = until_lock_file();
    events.push(Event::Opened { descriptor: 3 });
    events
}

/// The events of a run up to the point where it waits for the enumeration.
fn until_enumeration() -> Vec<Event> {
    let mut events = until_lock();
    events.push(Event::Done);
    events.push(Event::Path { path: b"/home/builder/archgitrepo".to_vec() });
    events.push(Event::Done);
    events
}

/// The events of a run up to the point where it waits for the first entry.
fn until_listing(stdout: &[u8]) -> Vec<Event> {
    let mut events = until_enumeration();
    events.push(Event::Output { status: Some(0), stdout: stdout.to_vec(), stderr: Vec::new() });
    events.push(Event::Done);
    events
}

/// Hands `events` to a fresh run and returns it with every operation that
/// it waited for on the way, the first one included.
fn drive(mode: RunMode, events: Vec<Event>) -> (Run, Vec<Action>) {
    let mut run = Run::new(installation(), b"pkg".to_vec(), mode);
    let mut asked = vec![run.pending().clone()];
    for event in events {
        run.step(event);
        asked.push(run.pending().clone());
    }
    (run, asked)
}

/// Runs over a listing as the program would: each entry is handed over,
/// and each report or deletion is carried out and confirmed. Returns the
/// operations on entries and the lines printed.
fn clean(mode: RunMode, stdout: &[u8], listing: &[&[u8]]) -> (Run, Vec<Action>, Vec<Vec<u8>>) {
    let (mut run, _) = drive(mode, until_listing(stdout));
    let mut work = Vec::new();
    let mut printed = Vec::new();
    for name in listing {
        assert_eq!(*run.pending(), Action::NextEntry);
        run.step(Event::Entry { entry: entry_of(name) });
        if *run.pending() != Action::NextEntry {
            work.push(run.pending().clone());
            printed.push(run.pending().advisory().unwrap());
            run.step(Event::Done);
        }
    }
    assert_eq!(*run.pending(), Action::NextEntry);
    run.step(Event::End);
    (run, work, printed)
}

fn touches_directory(action: &Action) -> bool {
    matches!(
        action,
        Action::ResolveRepository { .. }
            | Action::EnterDirectory { .. }
            | Action::EnumerateTracked
            | Action::ListDirectory { .. }
            | Action::NextEntry
            | Action::Report { .. }
            | Action::Delete { .. }
    )
}

fn touches_files(action: &Action) -> bool {
    touches_directory(action)
        || matches!(
            action,
            Action::ResolveLockFile { .. } | Action::OpenLockFile { .. } | Action::AcquireLock { .. }
        )
}

#[test]
fn operations_come_in_the_fixed_order() {
    let mut events = until_listing(b"a.txt\n");
    events.push(Event::End);
    let (run, asked) = drive(RunMode::RealRun, events);
    assert_eq!(
        asked,
        vec![
            Action::ResolveIdentity { account: String::from("builder") },
            Action::DropPrivileges { uid: 1000 },
            Action::ResolveLockFile { template: String::from("~builder/.lilac/.lock") },
            Action::OpenLockFile { path: b"/home/builder/.lilac/.lock".to_vec() },
            Action::AcquireLock { descriptor: 3 },
            Action::ResolveRepository { template: String::from("~builder/archgitrepo") },
            Action::EnterDirectory { path: b"/home/builder/archgitrepo/pkg".to_vec() },
            Action::EnumerateTracked,
            Action::ListDirectory { path: b"/home/builder/archgitrepo/pkg".to_vec() },
            Action::NextEntry,
            Action::Stop,
        ]
    );
    assert_eq!(run.outcome(), Some(Ok(())));
}

#[test]
fn a_run_in_progress_has_no_outcome() {
    let (run, _) = drive(RunMode::DryRun, until_enumeration());
    assert_eq!(*run.pending(), Action::EnumerateTracked);
    assert_eq!(run.outcome(), None);
}

#[test]
fn dry_run_reports_the_untracked_entries_only() {
    let (run, work, printed) =
        clean(RunMode::DryRun, b"a.txt\n", &[b"a.txt", b"b.o", b"build"]);
    assert_eq!(
        work,
        vec![
            Action::Report { entry: entry_of(b"b.o") },
            Action::Report { entry: entry_of(b"build") },
        ]
    );
    assert_eq!(
        printed,
        vec![
            b"Would rm -rf /home/builder/archgitrepo/pkg/b.o".to_vec(),
            b"Would rm -rf /home/builder/archgitrepo/pkg/build".to_vec(),
        ]
    );
    assert_eq!(run.outcome(), Some(Ok(())));
}

#[test]
fn real_run_deletes_the_untracked_entries_only() {
    let (run, work, printed) =
        clean(RunMode::RealRun, b"a.txt\n", &[b"a.txt", b"b.o", b"build"]);
    assert_eq!(
        work,
        vec![
            Action::Delete { entry: entry_of(b"b.o") },
            Action::Delete { entry: entry_of(b"build") },
        ]
    );
    assert_eq!(
        printed,
        vec![
            b"rm -rf /home/builder/archgitrepo/pkg/b.o".to_vec(),
            b"rm -rf /home/builder/archgitrepo/pkg/build".to_vec(),
        ]
    );
    assert_eq!(run.outcome(), Some(Ok(())));
}

#[test]
fn entries_are_dealt_with_in_the_order_of_the_listing() {
    let (_, work, _) = clean(RunMode::RealRun, b"keep\n", &[b"z", b"keep", b"a", b"m"]);
    assert_eq!(
        work,
        vec![
            Action::Delete { entry: entry_of(b"z") },
            Action::Delete { entry: entry_of(b"a") },
            Action::Delete { entry: entry_of(b"m") },
        ]
    );
}

#[test]
fn both_modes_pick_the_same_entries() {
    let stdout = b"PKGBUILD\nlilac.py\n";
    let listing: [&[u8]; 5] = [b"pkg", b"PKGBUILD", b"src", b"lilac.py", b"x-1.0.tar.gz"];
    let (_, dry, _) = clean(RunMode::DryRun, stdout, &listing);
    let (_, wet, _) = clean(RunMode::RealRun, stdout, &listing);
    let reported: Vec<Entry> = dry
        .into_iter()
        .map(|action| match action {
            Action::Report { entry } => entry,
            other => panic!("a dry run asked for {:?}", other),
        })
        .collect();
    let deleted: Vec<Entry> = wet
        .into_iter()
        .map(|action| match action {
            Action::Delete { entry } => entry,
            other => panic!("a real run asked for {:?}", other),
        })
        .collect();
    assert_eq!(reported, deleted);
    assert_eq!(reported, vec![entry_of(b"pkg"), entry_of(b"src"), entry_of(b"x-1.0.tar.gz")]);
}

#[test]
fn a_second_real_run_has_nothing_to_do() {
    let stdout = b"a.txt\n";
    let (_, first, _) = clean(RunMode::RealRun, stdout, &[b"a.txt", b"b.o", b"build"]);
    assert_eq!(first.len(), 2);
    // the first run removed `b.o` and `build`
    let (run, second, printed) = clean(RunMode::RealRun, stdout, &[b"a.txt"]);
    assert_eq!(second, Vec::<Action>::new());
    assert_eq!(printed, Vec::<Vec<u8>>::new());
    assert_eq!(run.outcome(), Some(Ok(())));
}

#[test]
fn an_empty_directory_needs_no_work() {
    let (run, work, _) = clean(RunMode::RealRun, b"a.txt\n", &[]);
    assert_eq!(work, Vec::<Action>::new());
    assert_eq!(run.outcome(), Some(Ok(())));
}

#[test]
fn nothing_tracked_means_everything_goes() {
    let (_, work, _) = clean(RunMode::RealRun, b"", &[b"a.txt", b"b.o"]);
    assert_eq!(
        work,
        vec![
            Action::Delete { entry: entry_of(b"a.txt") },
            Action::Delete { entry: entry_of(b"b.o") },
        ]
    );
}

#[test]
fn names_are_compared_byte_for_byte() {
    let stdout = b"caf\xc3\xa9\nsrc/main.rs\nREADME\n";
    let listing: [&[u8]; 6] = [b"caf\xe9", b"caf\xc3\xa9", b"src", b"README.md", b"READ", b"readme"];
    let (_, work, _) = clean(RunMode::DryRun, stdout, &listing);
    assert_eq!(
        work,
        vec![
            Action::Report { entry: entry_of(b"caf\xe9") },
            Action::Report { entry: entry_of(b"src") },
            Action::Report { entry: entry_of(b"README.md") },
            Action::Report { entry: entry_of(b"READ") },
            Action::Report { entry: entry_of(b"readme") },
        ]
    );
}

#[test]
fn failed_enumeration_aborts_before_any_listing() {
    let mut events = until_enumeration();
    events.push(Event::Output {
        status: Some(128),
        stdout: b"a.txt\n".to_vec(),
        stderr: b"fatal: not a git repository\n".to_vec(),
    });
    events.push(Event::Done);
    events.push(Event::Entry { entry: entry_of(b"b.o") });
    let (run, asked) = drive(RunMode::RealRun, events);
    assert!(asked.iter().all(|action| !matches!(
        action,
        Action::ListDirectory { .. } | Action::NextEntry | Action::Report { .. } | Action::Delete { .. }
    )));
    assert_eq!(asked[asked.len() - 3..], [Action::Stop, Action::Stop, Action::Stop]);
    assert_eq!(
        run.outcome(),
        Some(Err(Failure {
            kind: ErrorKind::Subprocess,
            code: Some(128),
            detail: b"fatal: not a git repository\n".to_vec(),
        }))
    );
}

#[test]
fn enumeration_ended_by_a_signal_is_a_failure() {
    let mut events = until_enumeration();
    events.push(Event::Output { status: None, stdout: Vec::new(), stderr: Vec::new() });
    let (run, _) = drive(RunMode::DryRun, events);
    assert_eq!(
        run.outcome(),
        Some(Err(Failure { kind: ErrorKind::Subprocess, code: None, detail: Vec::new() }))
    );
}

#[test]
fn enumeration_that_cannot_start_is_a_subprocess_failure() {
    let mut events = until_enumeration();
    events.push(failed(Some(2), b"No such file or directory (os error 2)"));
    let (run, _) = drive(RunMode::DryRun, events);
    assert_eq!(
        run.outcome(),
        Some(Err(Failure {
            kind: ErrorKind::Subprocess,
            code: Some(2),
            detail: b"No such file or directory (os error 2)".to_vec(),
        }))
    );
}

#[test]
fn refused_lock_aborts_with_a_lock_error() {
    let mut events = until_lock();
    events.push(failed(Some(9), b""));
    events.push(Event::Path { path: b"/home/builder/archgitrepo".to_vec() });
    events.push(Event::Done);
    let (run, asked) = drive(RunMode::RealRun, events);
    assert!(asked.iter().all(|action| !touches_directory(action)));
    assert_eq!(asked[4], Action::AcquireLock { descriptor: 3 });
    assert_eq!(asked[5..], [Action::Stop, Action::Stop, Action::Stop]);
    assert_eq!(
        run.outcome(),
        Some(Err(Failure { kind: ErrorKind::Lock, code: Some(9), detail: Vec::new() }))
    );
}

#[test]
fn missing_lock_file_aborts_with_a_lock_error() {
    let mut events = until_lock_file();
    events.push(failed(Some(2), b"No such file or directory (os error 2)"));
    events.push(Event::Opened { descriptor: 3 });
    events.push(Event::Path { path: b"/home/builder/archgitrepo".to_vec() });
    events.push(Event::Done);
    let (run, asked) = drive(RunMode::RealRun, events);
    assert!(asked.iter().all(|action| !touches_directory(action)));
    assert!(asked.iter().all(|action| !matches!(action, Action::AcquireLock { .. })));
    assert_eq!(asked[3], Action::OpenLockFile { path: b"/home/builder/.lilac/.lock".to_vec() });
    assert_eq!(asked[4..], [Action::Stop, Action::Stop, Action::Stop, Action::Stop]);
    assert_eq!(
        run.outcome(),
        Some(Err(Failure {
            kind: ErrorKind::Lock,
            code: Some(2),
            detail: b"No such file or directory (os error 2)".to_vec(),
        }))
    );
}

#[test]
fn rejected_privilege_drop_aborts_before_any_file_is_touched() {
    let events = vec![
        Event::Identity { uid: 1000 },
        failed(Some(1), b""),
        Event::Path { path: b"/home/builder/.lilac/.lock".to_vec() },
        Event::Done,
    ];
    let (run, asked) = drive(RunMode::RealRun, events);
    assert!(asked.iter().all(|action| !touches_files(action)));
    assert_eq!(
        asked,
        vec![
            Action::ResolveIdentity { account: String::from("builder") },
            Action::DropPrivileges { uid: 1000 },
            Action::Stop,
            Action::Stop,
            Action::Stop,
        ]
    );
    assert_eq!(
        run.outcome(),
        Some(Err(Failure { kind: ErrorKind::Privilege, code: Some(1), detail: Vec::new() }))
    );
}

#[test]
fn failed_lookup_aborts_with_a_lookup_error_and_its_message() {
    let (run, asked) = drive(RunMode::RealRun, vec![failed(None, b"Pointer was null")]);
    assert_eq!(asked[1..], [Action::Stop]);
    assert_eq!(
        run.outcome(),
        Some(Err(Failure {
            kind: ErrorKind::Lookup,
            code: None,
            detail: b"Pointer was null".to_vec(),
        }))
    );
}

#[test]
fn unknown_account_aborts_with_a_lookup_error() {
    let (run, asked) = drive(RunMode::RealRun, vec![failed(None, b""), Event::Done]);
    assert_eq!(asked[1..], [Action::Stop, Action::Stop]);
    assert_eq!(
        run.outcome(),
        Some(Err(Failure { kind: ErrorKind::Lookup, code: None, detail: Vec::new() }))
    );
}

#[test]
fn unresolved_lock_path_is_an_io_error() {
    let events = vec![Event::Identity { uid: 1000 }, Event::Done, failed(None, b"no such user")];
    let (run, asked) = drive(RunMode::RealRun, events);
    assert!(asked.iter().all(|action| !matches!(action, Action::OpenLockFile { .. })));
    assert_eq!(
        run.outcome(),
        Some(Err(Failure { kind: ErrorKind::Io, code: None, detail: b"no such user".to_vec() }))
    );
}

#[test]
fn unresolved_repository_is_an_io_error() {
    let mut events = until_lock();
    events.push(Event::Done);
    events.push(failed(None, b"no such user"));
    let (run, asked) = drive(RunMode::RealRun, events);
    assert!(asked.iter().all(|action| !matches!(action, Action::EnterDirectory { .. })));
    assert_eq!(
        run.outcome(),
        Some(Err(Failure { kind: ErrorKind::Io, code: None, detail: b"no such user".to_vec() }))
    );
}

#[test]
fn missing_directory_is_an_io_error() {
    let mut events = until_lock();
    events.push(Event::Done);
    events.push(Event::Path { path: b"/home/builder/archgitrepo".to_vec() });
    events.push(failed(Some(2), b"not found"));
    let (run, asked) = drive(RunMode::RealRun, events);
    assert!(asked.iter().all(|action| !matches!(action, Action::EnumerateTracked)));
    assert_eq!(
        run.outcome(),
        Some(Err(Failure { kind: ErrorKind::Io, code: Some(2), detail: b"not found".to_vec() }))
    );
}

#[test]
fn unreadable_directory_is_an_io_error() {
    let mut events = until_enumeration();
    events.push(Event::Output { status: Some(0), stdout: Vec::new(), stderr: Vec::new() });
    events.push(failed(Some(13), b"permission denied"));
    let (run, asked) = drive(RunMode::RealRun, events);
    assert!(asked.iter().all(|action| !matches!(action, Action::NextEntry)));
    assert_eq!(
        run.outcome(),
        Some(Err(Failure {
            kind: ErrorKind::Io,
            code: Some(13),
            detail: b"permission denied".to_vec(),
        }))
    );
}

#[test]
fn unreadable_entry_ends_the_run_and_keeps_what_was_done() {
    let mut events = until_listing(b"a.txt\n");
    events.push(Event::Entry { entry: entry_of(b"b.o") });
    events.push(Event::Done);
    events.push(failed(Some(5), b"input/output error"));
    events.push(Event::Entry { entry: entry_of(b"build") });
    let (run, asked) = drive(RunMode::RealRun, events);
    let deletions: Vec<&Action> =
        asked.iter().filter(|action| matches!(action, Action::Delete { .. })).collect();
    assert_eq!(deletions, vec![&Action::Delete { entry: entry_of(b"b.o") }]);
    assert_eq!(
        run.outcome(),
        Some(Err(Failure {
            kind: ErrorKind::Io,
            code: Some(5),
            detail: b"input/output error".to_vec(),
        }))
    );
}

#[test]
fn deletion_that_cannot_start_ends_the_run() {
    let mut events = until_listing(b"a.txt\n");
    events.push(Event::Entry { entry: entry_of(b"b.o") });
    events.push(failed(Some(2), b"rm: not found"));
    events.push(Event::Entry { entry: entry_of(b"build") });
    let (run, asked) = drive(RunMode::RealRun, events);
    assert_eq!(asked[asked.len() - 3..], [
        Action::Delete { entry: entry_of(b"b.o") },
        Action::Stop,
        Action::Stop,
    ]);
    assert_eq!(
        run.outcome(),
        Some(Err(Failure { kind: ErrorKind::Io, code: Some(2), detail: b"rm: not found".to_vec() }))
    );
}

#[test]
fn an_event_that_is_no_answer_changes_nothing() {
    let mut run = Run::new(installation(), b"pkg".to_vec(), RunMode::DryRun);
    assert!(!run.accepts(&Event::Done));
    assert!(!run.accepts(&Event::End));
    assert!(run.accepts(&Event::Identity { uid: 7 }));
    assert!(run.accepts(&failed(None, b"")));
    run.step(Event::Done);
    run.step(Event::Path { path: b"/x".to_vec() });
    run.step(Event::Entry { entry: entry_of(b"b.o") });
    assert_eq!(*run.pending(), Action::ResolveIdentity { account: String::from("builder") });
    run.step(Event::Identity { uid: 7 });
    assert_eq!(*run.pending(), Action::DropPrivileges { uid: 7 });
    run.step(Event::Identity { uid: 8 });
    assert_eq!(*run.pending(), Action::DropPrivileges { uid: 7 });
}

#[test]
fn a_finished_run_stays_finished() {
    let (mut run, _, _) = clean(RunMode::RealRun, b"a.txt\n", &[b"b.o"]);
    assert!(!run.accepts(&Event::Done));
    assert!(!run.accepts(&failed(Some(1), b"late")));
    run.step(failed(Some(1), b"late"));
    run.step(Event::Entry { entry: entry_of(b"build") });
    assert_eq!(*run.pending(), Action::Stop);
    assert_eq!(run.outcome(), Some(Ok(())));
}

#[test]
fn an_absolute_package_name_replaces_the_repository() {
    let mut run = Run::new(installation(), b"/srv/other".to_vec(), RunMode::DryRun);
    for event in until_enumeration() {
        run.step(event);
    }
    run.step(Event::Output { status: Some(0), stdout: Vec::new(), stderr: Vec::new() });
    assert_eq!(*run.pending(), Action::ListDirectory { path: b"/srv/other".to_vec() });
}
