//! Which entries of a directory are compressed, under what name the result
//! is stored, and what is said about it. File names are byte strings, as the
//! file system has them.

use vstd::prelude::*;

verus! {

/// The number of bytes read from a source file at a time.
pub const CHUNK_CAPACITY: usize = 32768;

/// The byte `.`.
pub const DOT: u8 = 46;

/// The byte `g`.
pub const LOWER_G: u8 = 103;

/// The byte `z`.
pub const LOWER_Z: u8 = 122;

/// What an entry of a directory is.
#[derive(Clone, Copy, Debug, PartialEq, Eq, Structural)]
pub enum EntryKind {
    /// A directory.
    Directory,
    /// A regular file.
    File,
    /// Anything else.
    Other,
}

/// What is done with an entry.
#[derive(Clone, Copy, Debug, PartialEq, Eq, Structural)]
pub enum Task {
    /// Walk the directory.
    Descend,
    /// Compress the file.
    Compress,
    /// Leave it alone.
    Skip,
}

/// What is said once a file has been dealt with.
#[derive(Clone, Copy, Debug, PartialEq, Eq, Structural)]
pub enum Notice {
    /// The file was compressed.
    Success,
    /// The file was left out, because its destination could not be created.
    Warning,
}

/// The index of the last `.` in `name`, if there is one.
pub open spec fn last_dot(name: Seq<u8>) -> Option<int>
    decreases name.len(),
{
    if name.len() == 0 {
        None
    } else if name.last() == DOT {
        Some(name.len() - 1)
    } else {
        last_dot(name.drop_last())
    }
}

/// The extension of a file name: what follows its last `.`; none if the
/// name has no `.`, or only one that begins it, or is `..`.
pub open spec fn extension(name: Seq<u8>) -> Option<Seq<u8>> {
    if name == seq![DOT, DOT] {
        None
    } else {
        match last_dot(name) {
            None => None,
            Some(at) => if at == 0 {
                None
            } else {
                Some(name.skip(at + 1))
            },
        }
    }
}

/// The extension `gz`.
pub open spec fn gz() -> Seq<u8> {
    seq![LOWER_G, LOWER_Z]
}

/// The suffix `.gz`.
pub open spec fn gz_suffix() -> Seq<u8> {
    seq![DOT, LOWER_G, LOWER_Z]
}

/// Whether a file name has the extension `gz`.
pub open spec fn is_compressed(name: Seq<u8>) -> bool {
    extension(name) == Some(gz())
}

/// What is done with an entry of the given kind and name.
pub open spec fn task_for(kind: EntryKind, name: Seq<u8>) -> Task {
    match kind {
        EntryKind::Directory => Task::Descend,
        EntryKind::File => if is_compressed(name) {
            Task::Skip
        } else {
            Task::Compress
        },
        EntryKind::Other => Task::Skip,
    }
}

/// The name under which the compressed form of `name` is stored.
pub open spec fn destination_of(name: Seq<u8>) -> Seq<u8> {
    name + gz_suffix()
}

/// Where `last_dot` finds a `.`, none follows; where it finds none, there is
/// none.
pub proof fn lemma_last_dot(name: Seq<u8>)
    ensures
        match last_dot(name) {
            Some(at) => {
                &&& 0 <= at < name.len()
                &&& name[at] == DOT
                &&& forall|i: int| at < i < name.len() ==> name[i] != DOT
            },
            None => forall|i: int| 0 <= i < name.len() ==> name[i] != DOT,
        },
    decreases name.len(),
{
    if name.len() > 0 && name.last() != DOT {
        let front = name.drop_last();
        lemma_last_dot(front);
        assert forall|i: int| 0 <= i < front.len() implies front[i] == name[i] by {}
        match last_dot(front) {
            Some(at) => {
                assert forall|i: int| at < i < name.len() implies name[i] != DOT by {
                    if i < front.len() {
                        assert(front[i] != DOT);
                    }
                }
            },
            None => {
                assert forall|i: int| 0 <= i < name.len() implies name[i] != DOT by {
                    if i < front.len() {
                        assert(front[i] != DOT);
                    }
                }
            },
        }
    }
}

/// A `.` after which no other follows is the last one.
pub proof fn lemma_last_dot_is(name: Seq<u8>, at: int)
    requires
        0 <= at < name.len(),
        name[at] == DOT,
        forall|i: int| at < i < name.len() ==> name[i] != DOT,
    ensures
        last_dot(name) == Some(at),
{
    lemma_last_dot(name);
}

/// A name has the extension `gz` exactly if it ends in `.gz` and something
/// stands before that.
pub proof fn lemma_compressed_iff_suffix(name: Seq<u8>)
    ensures
        is_compressed(name) <==> name.len() > 3 && name.skip(name.len() - 3) == gz_suffix(),
{
    let n = name.len() as int;
    lemma_last_dot(name);
    if n > 3 && name.skip(n - 3) == gz_suffix() {
        assert(name[n - 3] == name.skip(n - 3)[0]);
        assert(name[n - 2] == name.skip(n - 3)[1]);
        assert(name[n - 1] == name.skip(n - 3)[2]);
        lemma_last_dot_is(name, n - 3);
        assert(name.skip(n - 2) =~= gz());
        assert(name != seq![DOT, DOT]);
    }
    if is_compressed(name) {
        let at = last_dot(name)->Some_0;
        assert(name.skip(at + 1).len() == 2);
        assert(name.skip(at + 1)[0] == LOWER_G);
        assert(name.skip(at + 1)[1] == LOWER_Z);
        assert(name.skip(n - 3) =~= gz_suffix());
    }
}

/// The destination of a file is never compressed in its turn: its name has
/// the extension `gz`, so as an entry it is skipped.
pub proof fn lemma_destination_is_skipped(name: Seq<u8>)
    requires
        name.len() > 0,
    ensures
        is_compressed(destination_of(name)),
        task_for(EntryKind::File, destination_of(name)) == Task::Skip,
{
    let dest = destination_of(name);
    lemma_compressed_iff_suffix(dest);
    assert(dest.skip(dest.len() - 3) =~= gz_suffix());
}

/// A file is compressed under its own name with `.gz` behind it, and two
/// files have the same destination only if they have the same name.
pub proof fn lemma_destination_keeps_name(first: Seq<u8>, second: Seq<u8>)
    ensures
        destination_of(first).take(first.len() as int) == first,
        destination_of(first).len() == first.len() + 3,
        destination_of(first) == destination_of(second) ==> first == second,
{
    assert(destination_of(first).take(first.len() as int) =~= first);
    assert(destination_of(second).take(second.len() as int) =~= second);
}

/// Whether a file name has the extension `gz`.
pub fn has_gz_extension(name: &[u8]) -> (compressed: bool)
    ensures
        compressed == is_compressed(name@),
{
    proof {
        lemma_compressed_iff_suffix(name@);
    }
    let len: usize = name.len();
    if len <= 3 {
        return false;
    }
    let compressed = name[len - 3] == DOT && name[len - 2] == LOWER_G && name[len - 1] == LOWER_Z;
    proof {
        let tail = name@.skip(len - 3);
        assert(tail.len() == 3);
        assert(tail[0] == name@[len - 3]);
        assert(tail[1] == name@[len - 2]);
        assert(tail[2] == name@[len - 1]);
        if compressed {
            assert(tail =~= gz_suffix());
        }
    }
    compressed
}

/// Decides what is done with an entry: a directory is walked, a regular
/// file is compressed unless its name has the extension `gz`, and anything
/// else is left alone. Nothing but the kind and the name counts.
pub fn plan_entry(kind: EntryKind, name: &[u8]) -> (task: Task)
    ensures
        task == task_for(kind, name@),
{
    match kind {
        EntryKind::Directory => Task::Descend,
        EntryKind::File => if has_gz_extension(name) {
            Task::Skip
        } else {
            Task::Compress
        },
        EntryKind::Other => Task::Skip,
    }
}

/// The name of the compressed file: the name of the source with `.gz`
/// behind it.
pub fn destination_name(name: &[u8]) -> (destination: Vec<u8>)
    ensures
        destination@ == destination_of(name@),
{
    let mut destination: Vec<u8> = Vec::new();
    destination.extend_from_slice(name);
    destination.push(DOT);
    destination.push(LOWER_G);
    destination.push(LOWER_Z);
    assert(destination@ =~= name@ + gz_suffix());
    destination
}

/// What is said about a file: a warning if its destination could not be
/// created, silent or not; a success otherwise, unless silence was asked
/// for.
pub fn notice_for(created: bool, silent: bool) -> (notice: Option<Notice>)
    ensures
        !created ==> notice == Some(Notice::Warning),
        created && !silent ==> notice == Some(Notice::Success),
        created && silent ==> notice is None,
{
    if !created {
        Some(Notice::Warning)
    } else if silent {
        None
    } else {
        Some(Notice::Success)
    }
}

} // verus!
