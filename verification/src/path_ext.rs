//! Joining a relative path onto a directory without leaving it. Paths are
//! Unix paths held as text: `/` separates components, repeated separators
//! and `.` components after the first are ignored, `..` names the parent.

use vstd::prelude::*;

verus! {

/// Whether the characters `tail[from..]` add no component to a path: each
/// is a `/`, or a `.` standing alone between separators (or at the end).
pub open spec fn adds_no_component(p: Seq<char>, from: int) -> bool {
    forall|i: int|
        from <= i < p.len() ==> (#[trigger] p[i] == '/' || (p[i] == '.' && p[i - 1] == '/' && (i + 1
            == p.len() || p[i + 1] == '/')))
}

/// Whether `p` is a single plain name: its first component, up to the first
/// `/` at index `k`, is neither empty (a root), `.` nor `..`, and what
/// follows adds no component (only separators and lone `.`s).
pub open spec fn single_plain_name_at(p: Seq<char>, k: int) -> bool {
    &&& 0 < k <= p.len()
    &&& forall|i: int| 0 <= i < k ==> #[trigger] p[i] != '/'
    &&& k < p.len() ==> p[k] == '/'
    &&& p.take(k) != "."@
    &&& p.take(k) != ".."@
    &&& adds_no_component(p, k)
}

/// Whether `p` is exactly one plain name (such as `a`, `a/` or `a/.`): no
/// root, no `.` or `..` component, no second component.
pub open spec fn single_plain_name(p: Seq<char>) -> bool {
    exists|k: int| single_plain_name_at(p, k)
}

/// `relative` appended to `base`, with a `/` between them unless `base` is
/// empty or already ends with one.
pub open spec fn join_path(base: Seq<char>, relative: Seq<char>) -> Seq<char> {
    if base.len() == 0 {
        relative
    } else if base.last() == '/' {
        base + relative
    } else {
        base + seq!['/'] + relative
    }
}

/// The error of `PathExt::join_safe`.
#[derive(Debug, Clone, Copy, PartialEq, Eq, Structural)]
pub enum SafeJoinErr {
    DirContainsInvalidComponents,
}

impl SafeJoinErr {
    /// The human-readable description of the error.
    pub fn message(&self) -> (res: String)
        ensures
            res@ == "joined directory must only contain simple components (no .., etc)"@,
    {
        "joined directory must only contain simple components (no .., etc)".to_owned()
    }
}

/// Whether a path is exactly one plain name.
pub fn is_single_plain_name(p: &str) -> (res: bool)
    ensures
        res == single_plain_name(p@),
{
    let n: usize = p.unicode_len();
    // The first component runs up to the first separator.
    let mut k: usize = 0;
    while k < n && p.get_char(k) != '/'
        invariant
            n == p@.len(),
            k <= n,
            forall|i: int| 0 <= i < k ==> #[trigger] p@[i] != '/',
        decreases n - k,
    {
        k = k + 1;
    }
    proof {
        // Only this k can witness the name.
        assert forall|j: int| single_plain_name_at(p@, j) implies j == k by {
            if j < k {
                assert(p@[j] == '/');
            } else if j > k {
                assert(p@[k as int] != '/');
            }
        }
    }
    if k == 0 {
        return false;
    }
    if k == 1 && p.get_char(0) == '.' {
        assert(p@.take(1) =~= "."@) by {
            reveal_strlit(".");
        }
        return false;
    }
    if k == 2 && p.get_char(0) == '.' && p.get_char(1) == '.' {
        assert(p@.take(2) =~= ".."@) by {
            reveal_strlit("..");
        }
        return false;
    }
    proof {
        reveal_strlit(".");
        reveal_strlit("..");
        assert(p@.take(k as int) != "."@) by {
            if p@.take(k as int) == "."@ {
                assert(p@.take(k as int).len() == 1);
                assert(p@.take(k as int)[0] == '.');
            }
        }
        assert(p@.take(k as int) != ".."@) by {
            if p@.take(k as int) == ".."@ {
                assert(p@.take(k as int).len() == 2);
                assert(p@.take(k as int)[0] == '.');
                assert(p@.take(k as int)[1] == '.');
            }
        }
    }
    // What follows must be separators and lone `.`s.
    let mut i: usize = k;
    while i < n
        invariant
            n == p@.len(),
            0 < k <= i <= n,
            forall|j: int| single_plain_name_at(p@, j) ==> j == k,
            forall|j: int| k <= j < i ==> #[trigger] p@[j] == '/' || (p@[j] == '.' && p@[j - 1] == '/' && (j
                + 1 == p@.len() || p@[j + 1] == '/')),
        decreases n - i,
    {
        let c = p.get_char(i);
        if c != '/' {
            if c != '.' || p.get_char(i - 1) != '/' || (i + 1 < n && p.get_char(i + 1) != '/') {
                assert(!single_plain_name_at(p@, k as int));
                return false;
            }
        }
        i = i + 1;
    }
    assert(single_plain_name_at(p@, k as int));
    true
}

/// Joins two paths: `relative` after `base`, separated by a `/` unless
/// `base` is empty or already ends with one.
pub fn join_path_text(base: &str, relative: &str) -> (res: String)
    ensures
        res@ == join_path(base@, relative@),
{
    let n: usize = base.unicode_len();
    let mut joined = base.to_owned();
    if n > 0 && base.get_char(n - 1) != '/' {
        proof {
            reveal_strlit("/");
        }
        joined.append("/");
    }
    joined.append(relative);
    joined
}

/// Joining paths so that the result cannot climb out of the base directory.
pub trait PathExt {
    /// Joins `relative` onto `self` when `relative` is a single plain name.
    fn join_safe(&self, relative: &str) -> Result<String, SafeJoinErr>;
}

impl PathExt for str {
    /// Refuses `relative` unless it is exactly one plain name (no root, no
    /// `.` or `..`, no further component), so that the result is an entry
    /// directly inside `self`; otherwise joins it onto `self`.
    fn join_safe(&self, relative: &str) -> (res: Result<String, SafeJoinErr>)
        ensures
            res is Ok <==> single_plain_name(relative@),
            res matches Ok(p) ==> p@ == join_path(self@, relative@),
            res matches Err(e) ==> e == SafeJoinErr::DirContainsInvalidComponents,
    {
        if !is_single_plain_name(relative) {
            return Err(SafeJoinErr::DirContainsInvalidComponents);
        }
        Ok(join_path_text(self, relative))
    }
}

} // verus!
