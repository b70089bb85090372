use cleanup_package_files::config::{Config, RunMode, ACCOUNT, LOCK_FILE, REPOSITORY};
use cleanup_package_files::failure::ErrorKind;
use cleanup_package_files::protocol::{Action, Entry, Event, DELETE_PREFIX, REPORT_PREFIX};

fn sample_entry() -> Entry {
    Entry { name: b"b.o".to_vec(), path: b"/repo/pkg/b.o".to_vec() }
}

fn every_action() -> Vec<Action> {
    vec![
        Action::ResolveIdentity { account: String::from("builder") },
        Action::DropPrivileges { uid: 1000 },
        Action::ResolveLockFile { template: String::from("~/.lock") },
        Action::OpenLockFile { path: b"/home/builder/.lock".to_vec() },
        Action::AcquireLock { descriptor: 3 },
        Action::ResolveRepository { template: String::from("~/repo") },
        Action::EnterDirectory { path: b"/repo/pkg".to_vec() },
        Action::EnumerateTracked,
        Action::ListDirectory { path: b"/repo/pkg".to_vec() },
        Action::NextEntry,
        Action::Report { entry: sample_entry() },
        Action::Delete { entry: sample_entry() },
        Action::Stop,
    ]
}

fn every_event() -> Vec<Event> {
    vec![
        Event::Done,
        Event::Identity { uid: 1000 },
        Event::Path { path: b"/repo".to_vec() },
        Event::Opened { descriptor: 3 },
        Event::Output { status: Some(0), stdout: Vec::new(), stderr: Vec::new() },
        Event::Entry { entry: sample_entry() },
        Event::End,
        Event::Failed { code: None, detail: Vec::new() },
    ]
}

#[test]
fn default_config_is_the_standard_installation() {
    let config = Config::default();
    assert_eq!(config.account, "lilydjwg");
    assert_eq!(config.lock_file, "~lilydjwg/.lilac/.lock");
    assert_eq!(config.repository, "~lilydjwg/archgitrepo");
    assert_eq!(ACCOUNT, "lilydjwg");
    assert_eq!(LOCK_FILE, "~lilydjwg/.lilac/.lock");
    assert_eq!(REPOSITORY, "~lilydjwg/archgitrepo");
}

#[test]
fn mode_follows_the_flag() {
    assert_eq!(RunMode::from_flag(true), RunMode::RealRun);
    assert_eq!(RunMode::from_flag(false), RunMode::DryRun);
}

#[test]
fn advisory_of_a_report_says_what_would_be_done() {
    let action = Action::Report { entry: sample_entry() };
    assert_eq!(action.advisory(), Some(b"Would rm -rf /repo/pkg/b.o".to_vec()));
    assert_eq!(REPORT_PREFIX, "Would rm -rf ");
}

#[test]
fn advisory_of_a_deletion_says_what_is_done() {
    let action = Action::Delete { entry: sample_entry() };
    assert_eq!(action.advisory(), Some(b"rm -rf /repo/pkg/b.o".to_vec()));
    assert_eq!(DELETE_PREFIX, "rm -rf ");
}

#[test]
fn advisory_names_the_full_path_byte_for_byte() {
    let entry = Entry { name: b"\xffx".to_vec(), path: b"/r\xc3\xa9po/\xffx".to_vec() };
    assert_eq!(
        Action::Report { entry: entry.clone() }.advisory(),
        Some(b"Would rm -rf /r\xc3\xa9po/\xffx".to_vec())
    );
    assert_eq!(Action::Delete { entry }.advisory(), Some(b"rm -rf /r\xc3\xa9po/\xffx".to_vec()));
}

#[test]
fn only_work_on_an_entry_has_an_advisory() {
    for action in every_action() {
        let expected = matches!(action, Action::Report { .. } | Action::Delete { .. });
        assert_eq!(action.advisory().is_some(), expected, "{:?}", action);
    }
}

#[test]
fn each_action_has_its_answers() {
    // rows as in `every_action`, columns as in `every_event`
    let table: [[bool; 8]; 13] = [
        [false, true, false, false, false, false, false, true],
        [true, false, false, false, false, false, false, true],
        [false, false, true, false, false, false, false, true],
        [false, false, false, true, false, false, false, true],
        [true, false, false, false, false, false, false, true],
        [false, false, true, false, false, false, false, true],
        [true, false, false, false, false, false, false, true],
        [false, false, false, false, true, false, false, true],
        [true, false, false, false, false, false, false, true],
        [false, false, false, false, false, true, true, true],
        [true, false, false, false, false, false, false, true],
        [true, false, false, false, false, false, false, true],
        [false, false, false, false, false, false, false, false],
    ];
    for (row, action) in every_action().iter().enumerate() {
        for (column, event) in every_event().iter().enumerate() {
            assert_eq!(action.answered_by(event), table[row][column], "{:?} {:?}", action, event);
        }
    }
}

#[test]
fn each_action_fails_in_its_own_way() {
    let kinds: Vec<ErrorKind> = every_action().iter().map(|action| action.failure_kind()).collect();
    assert_eq!(
        kinds,
        vec![
            ErrorKind::Lookup,
            ErrorKind::Privilege,
            ErrorKind::Io,
            ErrorKind::Lock,
            ErrorKind::Lock,
            ErrorKind::Io,
            ErrorKind::Io,
            ErrorKind::Subprocess,
            ErrorKind::Io,
            ErrorKind::Io,
            ErrorKind::Io,
            ErrorKind::Io,
            ErrorKind::Io,
        ]
    );
}
