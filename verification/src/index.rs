//! The set of file names that the repository tracks, read from the output of
//! the enumeration subprocess.

use vstd::prelude::*;
use crate::failure::{ErrorKind, Failure, FailureView};
use crate::paths::same_bytes;

verus! {

/// The byte that ends a line of the enumeration's output.
pub const NEWLINE: u8 = 0x0a;

/// The lines of `bytes`, read from left to right: a newline opens a new,
/// empty line, and any other byte extends the last line. There is always at
/// least one line, and text that ends in a newline has an empty last line.
pub open spec fn split_lines(bytes: Seq<u8>) -> Seq<Seq<u8>>
    decreases bytes.len(),
{
    if bytes.len() == 0 {
        seq![Seq::empty()]
    } else {
        let before = split_lines(bytes.drop_last());
        if bytes.last() == NEWLINE {
            before.push(Seq::empty())
        } else {
            before.drop_last().push(before.last().push(bytes.last()))
        }
    }
}

/// The text that has `lines` as its lines: the lines in order, with a
/// newline between each two.
pub open spec fn joined_lines(lines: Seq<Seq<u8>>) -> Seq<u8>
    decreases lines.len(),
{
    if lines.len() == 0 {
        Seq::empty()
    } else if lines.len() == 1 {
        lines[0]
    } else {
        joined_lines(lines.drop_last()).push(NEWLINE) + lines.last()
    }
}

/// Splitting loses nothing and keeps no newline. The lines of a text are
/// the stretches between its newlines: no line holds a newline, and the
/// lines with a newline between each two are the text again.
pub proof fn lemma_split_lines(bytes: Seq<u8>)
    ensures
        split_lines(bytes).len() >= 1,
        forall|i: int|
            0 <= i < split_lines(bytes).len() ==> !(#[trigger] split_lines(bytes)[i]).contains(
                NEWLINE,
            ),
        joined_lines(split_lines(bytes)) == bytes,
    decreases bytes.len(),
{
    if bytes.len() > 0 {
        let before = split_lines(bytes.drop_last());
        let lines = split_lines(bytes);
        lemma_split_lines(bytes.drop_last());
        if bytes.last() == NEWLINE {
            assert(lines.drop_last() == before);
        } else {
            let line = before.last().push(bytes.last());
            assert(!line.contains(NEWLINE)) by {
                assert forall|k: int| 0 <= k < line.len() implies line[k] != NEWLINE by {}
            }
            if before.len() > 1 {
                assert(lines.drop_last() == before.drop_last());
                assert(joined_lines(lines) == (joined_lines(before.drop_last()).push(NEWLINE)
                    + before.last()).push(bytes.last()));
            }
        }
    }
}

/// The lines of a text are the only ones of their kind. Lines that hold no
/// newline and that give `bytes` when put together with a newline between
/// each two are the lines of `bytes`.
pub proof fn lemma_lines_are_unique(lines: Seq<Seq<u8>>, bytes: Seq<u8>)
    requires
        lines.len() >= 1,
        forall|i: int| 0 <= i < lines.len() ==> !(#[trigger] lines[i]).contains(NEWLINE),
        joined_lines(lines) == bytes,
    ensures
        lines == split_lines(bytes),
    decreases bytes.len(),
{
    let rest = lines.drop_last();
    let last = lines.last();
    if lines.len() == 1 {
        lemma_line_without_newline(bytes);
    } else if last.len() == 0 {
        assert(bytes.drop_last() == joined_lines(rest));
        lemma_lines_are_unique(rest, bytes.drop_last());
        assert(last == Seq::<u8>::empty());
    } else {
        let shorter = rest.push(last.drop_last());
        assert(shorter.drop_last() == rest);
        assert(joined_lines(shorter) == bytes.drop_last());
        lemma_shorter_line_without_newline(last);
        lemma_lines_are_unique(shorter, bytes.drop_last());
        assert(shorter.last().push(bytes.last()) == last);
    }
}

/// A line without a newline has none when it loses its last byte.
proof fn lemma_shorter_line_without_newline(line: Seq<u8>)
    requires
        line.len() > 0,
        !line.contains(NEWLINE),
    ensures
        !line.drop_last().contains(NEWLINE),
        line.last() != NEWLINE,
{
    assert forall|k: int| 0 <= k < line.drop_last().len() implies line.drop_last()[k]
        != NEWLINE by {}
}

/// Text without a newline is one line.
proof fn lemma_line_without_newline(bytes: Seq<u8>)
    requires
        !bytes.contains(NEWLINE),
    ensures
        split_lines(bytes) == seq![bytes],
    decreases bytes.len(),
{
    if bytes.len() == 0 {
        assert(bytes == Seq::<u8>::empty());
    } else {
        lemma_shorter_line_without_newline(bytes);
        lemma_line_without_newline(bytes.drop_last());
        assert(bytes.drop_last().push(bytes.last()) == bytes);
    }
}

/// The names that an enumeration with standard output `stdout` reports.
pub open spec fn tracked_names(stdout: Seq<u8>) -> Set<Seq<u8>> {
    split_lines(stdout).to_set()
}

/// The byte strings that `lines` holds, in order.
pub open spec fn contents(lines: Seq<Vec<u8>>) -> Seq<Seq<u8>> {
    lines.map_values(|line: Vec<u8>| line@)
}

/// Splits `bytes` into its lines.
pub fn lines(bytes: &[u8]) -> (lines: Vec<Vec<u8>>)
    ensures
        contents(lines@) == split_lines(bytes@),
{
    let mut lines: Vec<Vec<u8>> = Vec::new();
    let mut current: Vec<u8> = Vec::new();
    let mut i: usize = 0;
    while i < bytes.len()
        invariant
            i <= bytes.len(),
            split_lines(bytes@.take(i as int)) == contents(lines@).push(current@),
        decreases bytes.len() - i,
    {
        let ghost before = contents(lines@).push(current@);
        assert(bytes@.take(i + 1).drop_last() == bytes@.take(i as int));
        let byte = bytes[i];
        if byte == NEWLINE {
            lines.push(current);
            current = Vec::new();
        } else {
            current.push(byte);
            assert(contents(lines@).push(current@) == before.drop_last().push(
                before.last().push(byte),
            ));
        }
        i += 1;
    }
    assert(bytes@.take(i as int) == bytes@);
    lines.push(current);
    lines
}

/// The names that the repository tracks.
pub struct TrackedSet {
    names: Vec<Vec<u8>>,
}

impl View for TrackedSet {
    type V = Set<Seq<u8>>;

    closed spec fn view(&self) -> Set<Seq<u8>> {
        contents(self.names@).to_set()
    }
}

/// Whether an enumeration that ended with `status` succeeded: it exited, and
/// with status zero.
pub open spec fn succeeded(status: Option<i32>) -> bool {
    status == Some(0i32)
}

impl TrackedSet {
    /// The set without any name.
    pub fn empty() -> (set: TrackedSet)
        ensures
            set@ == Set::<Seq<u8>>::empty(),
    {
        TrackedSet { names: Vec::new() }
    }

    /// Reads the result of the enumeration subprocess: its exit status, if it
    /// exited, and what it wrote to its standard output and standard error
    /// streams. A successful enumeration names one file on each line of its
    /// output; any other is a failure that carries the status and the error
    /// text.
    pub fn from_enumeration(status: Option<i32>, stdout: &[u8], stderr: Vec<u8>) -> (result: Result<
        TrackedSet,
        Failure,
    >)
        ensures
            match result {
                Ok(set) => succeeded(status) && set@ == tracked_names(stdout@),
                Err(failure) => !succeeded(status) && failure@ == (FailureView {
                    kind: ErrorKind::Subprocess,
                    code: status,
                    detail: stderr@,
                }),
            },
    {
        match status {
            Some(0) => Ok(TrackedSet { names: lines(stdout) }),
            _ => Err(Failure { kind: ErrorKind::Subprocess, code: status, detail: stderr }),
        }
    }

    /// Whether `name` is one of the names, byte for byte.
    pub fn contains(&self, name: &[u8]) -> (found: bool)
        ensures
            found == self@.contains(name@),
    {
        let mut i: usize = 0;
        while i < self.names.len()
            invariant
                i <= self.names.len(),
                forall|j: int| 0 <= j < i ==> contents(self.names@)[j] != name@,
            decreases self.names.len() - i,
        {
            if same_bytes(self.names[i].as_slice(), name) {
                assert(contents(self.names@)[i as int] == name@);
                return true;
            }
            i += 1;
        }
        false
    }
}

} // verus!
