//! The operations of a run that name no file: looking up the account,
//! dropping privileges, resolving a path that starts with `~`, and waiting
//! for the lock on a file that is already open. Each performs its operation
//! on the host and returns the event to hand to the run. What the host does
//! is not known here: the contracts say what holds of the event whatever the
//! host did.

use vstd::prelude::*;
use vstd::string::*;
use vstd::utf8::encode_utf8;
use crate::protocol::{answers, Action, ActionView, Event, EventView};

verus! {

/// The failure of `pwd::Passwd::from_name` to carry out a lookup. Nothing
/// is known of a value of it but the message that it gives.
#[verifier::external_type_specification]
#[verifier::external_body]
pub struct ExPwdError(pwd::PwdError);

/// The failure of `expanduser::expanduser`. Nothing is known of a value of
/// it but the message that it gives.
#[verifier::external_type_specification]
#[verifier::external_body]
pub struct ExIoError(std::io::Error);

/// Calls `pwd::Passwd::from_name` and keeps the numeric user identity of
/// the entry that it finds. Claimed: a name that holds a NUL character is
/// not looked up and gives an error. What is found for any other name
/// depends on the host's account database.
#[verifier::external_body]
fn passwd_uid(name: &str) -> (found: Result<Option<u32>, pwd::PwdError>)
    ensures
        name@.contains('\0') ==> found is Err,
{
    match pwd::Passwd::from_name(name) {
        Ok(Some(entry)) => Ok(Some(entry.uid)),
        Ok(None) => Ok(None),
        Err(error) => Err(error),
    }
}

/// Calls `to_string` on a `pwd::PwdError` and keeps the bytes of the
/// message. Nothing is claimed of the message.
#[verifier::external_body]
fn pwd_error_text(error: &pwd::PwdError) -> (text: Vec<u8>) {
    error.to_string().into_bytes()
}

/// Calls `nix::unistd::setuid` and, where it fails, keeps the error number.
/// Whether the switch is allowed depends on the process, so nothing is
/// claimed of the result.
#[verifier::external_body]
fn set_user_id(uid: u32) -> (outcome: Result<(), i32>) {
    match nix::unistd::setuid(nix::unistd::Uid::from_raw(uid)) {
        Ok(()) => Ok(()),
        Err(errno) => Err(errno as i32),
    }
}

/// Calls `nix::fcntl::flock` for the exclusive lock on the open file
/// `descriptor`, which waits until the lock is granted, and, where it fails,
/// keeps the error number. Whether and when the lock is granted depends on
/// the file and on the other processes, so nothing is claimed of the result.
#[verifier::external_body]
#[allow(deprecated)]
fn flock_exclusive(descriptor: i32) -> (outcome: Result<(), i32>) {
    match nix::fcntl::flock(descriptor, nix::fcntl::FlockArg::LockExclusive) {
        Ok(()) => Ok(()),
        Err(errno) => Err(errno as i32),
    }
}

/// Whether `template` asks for a home directory.
pub open spec fn starts_with_tilde(template: Seq<char>) -> bool {
    template.len() > 0 && template[0] == '~'
}

/// Calls `expanduser::expanduser` and keeps the bytes of the path. Claimed:
/// a template that does not start with `~` is returned as it is. Any other
/// depends on the host's account database and on the environment.
#[verifier::external_body]
fn expand_user(template: &str) -> (outcome: Result<Vec<u8>, std::io::Error>)
    ensures
        !starts_with_tilde(template@) ==> outcome is Ok && outcome->Ok_0@ == encode_utf8(template@),
{
    match expanduser::expanduser(template) {
        Ok(path) => Ok(path.into_os_string().into_encoded_bytes()),
        Err(error) => Err(error),
    }
}

/// Calls `to_string` on a `std::io::Error` and keeps the bytes of the
/// message. Nothing is claimed of the message.
#[verifier::external_body]
fn io_error_text(error: &std::io::Error) -> (text: Vec<u8>) {
    error.to_string().into_bytes()
}

/// The event that a lookup of the account gives: the identity that was
/// found; for an account that is not there a failure without code or
/// message; for a lookup that could not be made a failure with its message.
pub open spec fn identity_answer(found: Result<Option<u32>, Seq<u8>>) -> EventView {
    match found {
        Ok(Some(uid)) => EventView::Identity { uid },
        Ok(None) => EventView::Failed { code: None, detail: Seq::empty() },
        Err(message) => EventView::Failed { code: None, detail: message },
    }
}

/// The event that a call of the operating system gives: done, or a failure
/// with the error number.
pub open spec fn completion_answer(outcome: Result<(), i32>) -> EventView {
    match outcome {
        Ok(_) => EventView::Done,
        Err(errno) => EventView::Failed { code: Some(errno), detail: Seq::empty() },
    }
}

/// The event that the resolution of a path gives: the path, or a failure
/// with the message of the resolver.
pub open spec fn path_answer(outcome: Result<Seq<u8>, Seq<u8>>) -> EventView {
    match outcome {
        Ok(path) => EventView::Path { path },
        Err(message) => EventView::Failed { code: None, detail: message },
    }
}

/// The event for a lookup that found `found`, or else could not be made
/// and gave a message.
pub fn identity_event(found: Result<Option<u32>, Vec<u8>>) -> (event: Event)
    ensures
        event@ == identity_answer(
            match found {
                Ok(entry) => Ok(entry),
                Err(message) => Err(message@),
            },
        ),
{
    match found {
        Ok(Some(uid)) => Event::Identity { uid },
        Ok(None) => Event::Failed { code: None, detail: Vec::new() },
        Err(message) => Event::Failed { code: None, detail: message },
    }
}

/// The event for a call of the operating system that ended in `outcome`.
pub fn completion_event(outcome: Result<(), i32>) -> (event: Event)
    ensures
        event@ == completion_answer(outcome),
{
    match outcome {
        Ok(()) => Event::Done,
        Err(errno) => Event::Failed { code: Some(errno), detail: Vec::new() },
    }
}

/// The event for a resolution that gave the path, or else the message, in
/// `outcome`.
pub fn path_event(outcome: Result<Vec<u8>, Vec<u8>>) -> (event: Event)
    ensures
        event@ == path_answer(
            match outcome {
                Ok(path) => Ok(path@),
                Err(message) => Err(message@),
            },
        ),
{
    match outcome {
        Ok(path) => Event::Path { path },
        Err(message) => Event::Failed { code: None, detail: message },
    }
}

/// What holds of the event of a lookup of `account`, whatever the host's
/// account database holds: it is one of the events of a lookup, and for a
/// name that holds a NUL character it is that of a lookup that could not be
/// made.
pub open spec fn identity_outcome(account: Seq<char>, event: EventView) -> bool {
    &&& exists|found: Result<Option<u32>, Seq<u8>>| event == identity_answer(found)
    &&& account.contains('\0') ==> exists|message: Seq<u8>|
        event == identity_answer(Err(message))
}

/// What holds of the event of a call of the operating system, whatever the
/// system did: it is done, or a failure with an error number.
pub open spec fn completion_outcome(event: EventView) -> bool {
    exists|outcome: Result<(), i32>| event == completion_answer(outcome)
}

/// What holds of the event of the resolution of `template`, whatever the
/// host holds: it is one of the events of a resolution, and for a template
/// that does not start with `~` it is the template's own bytes as the path.
pub open spec fn path_outcome(template: Seq<char>, event: EventView) -> bool {
    &&& exists|outcome: Result<Seq<u8>, Seq<u8>>| event == path_answer(outcome)
    &&& !starts_with_tilde(template) ==> event == (EventView::Path {
        path: encode_utf8(template),
    })
}

/// Whether `action` is one of the operations that this module performs.
pub open spec fn performed_here(action: ActionView) -> bool {
    ||| action is ResolveIdentity
    ||| action is DropPrivileges
    ||| action is ResolveLockFile
    ||| action is AcquireLock
    ||| action is ResolveRepository
}

/// What holds of the event that this module gives for `action`, whatever
/// the host did: what holds of the operation that the action names, on what
/// the action carries.
pub open spec fn host_outcome(action: ActionView, event: EventView) -> bool {
    match action {
        ActionView::ResolveIdentity { account } => identity_outcome(account, event),
        ActionView::DropPrivileges { .. } | ActionView::AcquireLock { .. } => completion_outcome(
            event,
        ),
        ActionView::ResolveLockFile { template } | ActionView::ResolveRepository { template } =>
            path_outcome(template, event),
        _ => false,
    }
}

/// Looks up the numeric identity of `account` on this host. An account
/// that is unknown is a failure without a message; a lookup that cannot be
/// made, as for every name that holds a NUL character, is a failure with
/// the message of the lookup.
pub fn resolve_identity(account: &str) -> (event: Event)
    ensures
        identity_outcome(account@, event@),
{
    let found = match passwd_uid(account) {
        Ok(entry) => Ok(entry),
        Err(error) => Err(pwd_error_text(&error)),
    };
    identity_event(found)
}

/// Switches the process to the user identity `uid`. There is no way back.
pub fn drop_privileges(uid: u32) -> (event: Event)
    ensures
        completion_outcome(event@),
{
    completion_event(set_user_id(uid))
}

/// Waits for the exclusive lock on the open file `descriptor`, however long
/// another process holds it. The lock lasts until the file is closed, which
/// is the end of the process where nothing closes it.
pub fn acquire_lock(descriptor: i32) -> (event: Event)
    ensures
        completion_outcome(event@),
{
    completion_event(flock_exclusive(descriptor))
}

/// Resolves `template` to a path: `~` to the home directory of the current
/// user, `~name` to that of the account `name`. A template that does not
/// start with `~` is the path itself.
pub fn resolve_path(template: &str) -> (event: Event)
    ensures
        path_outcome(template@, event@),
{
    let outcome = match expand_user(template) {
        Ok(path) => Ok(path),
        Err(error) => Err(io_error_text(&error)),
    };
    path_event(outcome)
}

/// Performs `action` where it is an operation of this module, and returns
/// the answer to it: the event of the lookup, of the switch of identity, of
/// the resolution or of the lock, for the account, the identity, the
/// template or the descriptor that the action carries. Any other action is
/// left to the caller.
pub fn perform(action: &Action) -> (event: Option<Event>)
    ensures
        match event {
            Some(answer) => host_outcome(action@, answer@) && answers(action@, answer@),
            None => !performed_here(action@),
        },
{
    match action {
        Action::ResolveIdentity { account } => Some(resolve_identity(account.as_str())),
        Action::DropPrivileges { uid } => Some(drop_privileges(*uid)),
        Action::ResolveLockFile { template } => Some(resolve_path(template.as_str())),
        Action::AcquireLock { descriptor } => Some(acquire_lock(*descriptor)),
        Action::ResolveRepository { template } => Some(resolve_path(template.as_str())),
        _ => None,
    }
}

} // verus!
