//! Finding the highest readable ancestor of a directory, which becomes the
//! default mount root. The walk goes up one parent at a time; the caller
//! looks at each directory it asks about and reports whether it is readable.

use vstd::prelude::*;

use crate::text::str_eq;

verus! {

/// How a file-system call went.
#[derive(PartialEq, Eq, Structural, Clone, Copy, Debug)]
pub enum Access {
    Granted,
    /// It failed for want of permission.
    Denied,
    /// It failed for another reason.
    Failed,
}

/// What a path names.
#[derive(PartialEq, Eq, Structural, Clone, Copy, Debug)]
pub enum EntryKind {
    File,
    Dir,
    Other,
}

/// Why readability could not be decided.
#[derive(PartialEq, Eq, Structural, Clone, Copy, Debug)]
pub enum AccessError {
    /// Reading the metadata failed, not for want of permission.
    Metadata,
    /// Opening the file or listing the directory failed, not for want of
    /// permission.
    Open,
}

/// Whether a path is readable, from its metadata lookup, its kind and the
/// attempt to open it (a file) or list it (a directory). A refusal for want
/// of permission means "not readable"; any other failure is an error.
/// Anything but a file or a directory is not readable, whatever `opened` says.
pub fn read_permission(metadata: Access, kind: EntryKind, opened: Access) -> (r: Result<
    bool,
    AccessError,
>)
    ensures
        metadata == Access::Denied ==> r == Ok::<bool, AccessError>(false),
        metadata == Access::Failed ==> r == Err::<bool, AccessError>(AccessError::Metadata),
        metadata == Access::Granted ==> r == match kind {
            EntryKind::Other => Ok(false),
            _ => match opened {
                Access::Granted => Ok(true),
                Access::Denied => Ok(false),
                Access::Failed => Err(AccessError::Open),
            },
        },
{
    match metadata {
        Access::Denied => Ok(false),
        Access::Failed => Err(AccessError::Metadata),
        Access::Granted => match kind {
            EntryKind::Other => Ok(false),
            _ => match opened {
                Access::Granted => Ok(true),
                Access::Denied => Ok(false),
                Access::Failed => Err(AccessError::Open),
            },
        },
    }
}

/// Whether a directory the walk reaches may be adopted: it can be listed and
/// some read bit of its mode is set.
pub fn dir_readable(listable: bool, mode: u32) -> (r: bool)
    ensures
        r == (listable && (mode & 0o444u32) != 0),
{
    listable && (mode & 0o444u32) != 0
}

/// The index of the last `/` in a path, or -1.
pub open spec fn last_slash(p: Seq<char>) -> int
    decreases p.len(),
{
    if p.len() == 0 {
        -1
    } else if p.last() == '/' {
        p.len() - 1
    } else {
        last_slash(p.drop_last())
    }
}

proof fn lemma_last_slash_bounds(p: Seq<char>)
    ensures
        -1 <= last_slash(p) < p.len(),
        last_slash(p) >= 0 ==> p[last_slash(p)] == '/',
    decreases p.len(),
{
    if p.len() > 0 && p.last() != '/' {
        lemma_last_slash_bounds(p.drop_last());
    }
}

/// The parent of a canonical path, as `Path::parent` gives it: everything
/// before the last separator, the root for a top-level entry, and none for
/// the root itself or a path without a separator.
pub open spec fn parent_of(p: Seq<char>) -> Option<Seq<char>> {
    let k = last_slash(p);
    if p.len() <= 1 || k < 0 {
        None
    } else if k == 0 {
        Some(seq!['/'])
    } else {
        Some(p.take(k))
    }
}

/// The next directory the walk would look at: the parent, unless there is
/// none or it is the root, where the walk stops.
pub open spec fn next_up(p: Seq<char>) -> Option<Seq<char>> {
    match parent_of(p) {
        Some(q) => if q == seq!['/'] {
            None
        } else {
            Some(q)
        },
        None => None,
    }
}

/// Where a walk from `start` stands after the given answers, in order: the
/// directory adopted last, and whether the walk has stopped at an unreadable
/// parent.
pub open spec fn walk(start: Seq<char>, answers: Seq<bool>) -> (Seq<char>, bool)
    decreases answers.len(),
{
    if answers.len() == 0 {
        (start, false)
    } else {
        let (top, stopped) = walk(start, answers.drop_last());
        if stopped || next_up(top) is None {
            (top, stopped)
        } else if answers.last() {
            (next_up(top).unwrap(), false)
        } else {
            (top, true)
        }
    }
}

/// The `n`-th directory above `p` that a walk may adopt.
pub open spec fn ancestor(p: Seq<char>, n: nat) -> Option<Seq<char>>
    decreases n,
{
    if n == 0 {
        Some(p)
    } else {
        match ancestor(p, (n - 1) as nat) {
            Some(q) => next_up(q),
            None => None,
        }
    }
}

/// Why a walk could not start.
pub enum WalkError {
    /// The starting directory itself cannot be read.
    PermissionDenied { path: String },
}

/// A walk up from a directory towards the root.
pub struct PermissionWalker {
    start: String,
    top: String,
    stopped: bool,
    answers: Ghost<Seq<bool>>,
}

impl PermissionWalker {
    /// The directory the walk started from.
    pub closed spec fn start_path(&self) -> Seq<char> {
        self.start@
    }

    /// The readability answers given so far, in order.
    pub closed spec fn answers(&self) -> Seq<bool> {
        self.answers@
    }

    /// The walk is where its answers lead.
    pub closed spec fn wf(&self) -> bool {
        walk(self.start@, self.answers@) == (self.top@, self.stopped)
    }

    /// The directory adopted last.
    pub closed spec fn top_path(&self) -> Seq<char> {
        self.top@
    }

    /// Whether the walk stopped at an unreadable parent.
    pub closed spec fn is_stopped(&self) -> bool {
        self.stopped
    }

    /// A well-formed walk's top and stop flag are those its answers lead to.
    pub proof fn lemma_where_answers_lead(&self)
        requires
            self.wf(),
        ensures
            self.top_path() == walk(self.start_path(), self.answers()).0,
            self.is_stopped() == walk(self.start_path(), self.answers()).1,
    {
    }

    /// Starts a walk from a canonical directory, which must itself be
    /// readable.
    pub fn new(start: String, readable: bool) -> (r: Result<Self, WalkError>)
        ensures
            r is Err <==> !readable,
            r matches Err(WalkError::PermissionDenied { path }) ==> path@ == start@,
            r matches Ok(w) ==> w.wf() && w.start_path() == start@ && w.answers() == Seq::<
                bool,
            >::empty(),
    {
        if !readable {
            return Err(WalkError::PermissionDenied { path: start });
        }
        let top = start.clone();
        Ok(PermissionWalker { start, top, stopped: false, answers: Ghost(Seq::empty()) })
    }

    /// The directory whose readability the walk needs next, or none once the
    /// walk is over.
    pub fn next_probe(&self) -> (r: Option<String>)
        requires
            self.wf(),
        ensures
            walk(self.start_path(), self.answers()).1 ==> r is None,
            !walk(self.start_path(), self.answers()).1 ==> match next_up(
                walk(self.start_path(), self.answers()).0,
            ) {
                Some(q) => r matches Some(p) && p@ == q,
                None => r is None,
            },
    {
        if self.stopped {
            return None;
        }
        next_dir_up(self.top.as_str())
    }

    /// Records the readability of the directory `next_probe` named.
    pub fn record_probe(&mut self, readable: bool)
        requires
            old(self).wf(),
        ensures
            final(self).wf(),
            final(self).start_path() == old(self).start_path(),
            final(self).answers() == old(self).answers().push(readable),
    {
        let ghost answers = self.answers@.push(readable);
        proof {
            assert(answers.drop_last() =~= self.answers@);
        }
        if !self.stopped {
            match next_dir_up(self.top.as_str()) {
                Some(parent) => {
                    if readable {
                        self.top = parent;
                    } else {
                        self.stopped = true;
                    }
                },
                None => {},
            }
        }
        self.answers = Ghost(answers);
    }

    /// The directory the walk settled on so far.
    pub fn top(&self) -> (r: String)
        requires
            self.wf(),
        ensures
            r@ == self.top_path(),
            r@ == walk(self.start_path(), self.answers()).0,
    {
        self.top.clone()
    }
}

/// The index of the last `/` in a string, if it has one.
fn find_last_slash(p: &str) -> (r: Option<usize>)
    ensures
        match r {
            Some(k) => k == last_slash(p@),
            None => last_slash(p@) == -1,
        },
{
    let mut i: usize = p.unicode_len();
    assert(p@.take(i as int) =~= p@);
    while i > 0
        invariant
            i <= p@.len(),
            last_slash(p@) == last_slash(p@.take(i as int)),
        decreases i,
    {
        proof {
            assert(p@.take(i as int).drop_last() =~= p@.take(i as int - 1));
        }
        if p.get_char(i - 1) == '/' {
            return Some(i - 1);
        }
        i = i - 1;
    }
    None
}

/// The parent of a canonical path, as `parent_of` describes it.
pub fn parent_dir(p: &str) -> (r: Option<String>)
    ensures
        match parent_of(p@) {
            Some(q) => r matches Some(s) && s@ == q,
            None => r is None,
        },
{
    let n = p.unicode_len();
    if n <= 1 {
        return None;
    }
    proof {
        lemma_last_slash_bounds(p@);
    }
    match find_last_slash(p) {
        None => None,
        Some(k) => if k == 0 {
            proof {
                reveal_strlit("/");
            }
            Some(String::from_str("/"))
        } else {
            Some(String::from_str(p.substring_char(0, k)))
        },
    }
}

/// The next directory a walk from `p` looks at, as `next_up` describes it.
pub fn next_dir_up(p: &str) -> (r: Option<String>)
    ensures
        match next_up(p@) {
            Some(q) => r matches Some(s) && s@ == q,
            None => r is None,
        },
{
    match parent_dir(p) {
        Some(q) => {
            proof {
                reveal_strlit("/");
                assert("/"@ =~= seq!['/']);
            }
            if str_eq(q.as_str(), "/") {
                None
            } else {
                Some(q)
            }
        },
        None => None,
    }
}


/// How many directories a walk climbed: its top is that many levels up, each
/// level was answered readable, and a walk that can still go on has climbed
/// once per answer.
proof fn walk_depth(start: Seq<char>, answers: Seq<bool>) -> (m: nat)
    ensures
        m <= answers.len(),
        ancestor(start, m) == Some(walk(start, answers).0),
        forall|i: int| 0 <= i < m ==> answers[i],
        !walk(start, answers).1 && next_up(walk(start, answers).0) is Some ==> m == answers.len(),
        walk(start, answers).1 ==> m < answers.len() && !answers[m as int] && next_up(
            walk(start, answers).0,
        ) is Some,
    decreases answers.len(),
{
    if answers.len() == 0 {
        0
    } else {
        let prev = answers.drop_last();
        let m = walk_depth(start, prev);
        let (top, stopped) = walk(start, prev);
        assert forall|i: int| 0 <= i < m implies answers[i] by {
            assert(answers[i] == prev[i]);
        }
        if stopped || next_up(top) is None {
            if stopped {
                assert(answers[m as int] == prev[m as int]);
            }
            m
        } else if answers.last() {
            assert(ancestor(start, m + 1) == next_up(top));
            assert forall|i: int| 0 <= i < m + 1 implies answers[i] by {
                if i < m {
                    assert(answers[i] == prev[i]);
                }
            }
            m + 1
        } else {
            m
        }
    }
}

/// Whatever the answers, a walk's top is its start or an ancestor of it
/// that was answered readable, as was every directory climbed through; it
/// is never the root, unless the walk started there. A walk that stopped
/// did so at the top's parent, answered unreadable; one that did not stop
/// and can still go up has climbed once per answer.
pub proof fn lemma_walk_top_readable(start: Seq<char>, answers: Seq<bool>)
    ensures
        exists|m: nat|
            m <= answers.len() && #[trigger] ancestor(start, m) == Some(walk(start, answers).0)
                && forall|i: int| 0 <= i < m ==> answers[i],
        walk(start, answers).0 == seq!['/'] ==> start == seq!['/'],
        walk(start, answers).1 ==> exists|m: nat|
            m < answers.len() && #[trigger] ancestor(start, m) == Some(walk(start, answers).0)
                && !answers[m as int] && next_up(walk(start, answers).0) is Some,
        !walk(start, answers).1 && next_up(walk(start, answers).0) is Some ==> ancestor(
            start,
            answers.len(),
        ) == Some(walk(start, answers).0),
{
    let m = walk_depth(start, answers);
    if m > 0 {
        let below = ancestor(start, (m - 1) as nat);
        assert(below is Some);
        assert(next_up(below.unwrap()) != Some(seq!['/']));
    }
}

} // verus!
