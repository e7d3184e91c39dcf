//! File paths under the Unix rules of `std::path::Path`: `/` is the only
//! separator, a leading `/` is the root, a leading `.` segment of a
//! relative path is kept, and after that empty segments (repeated or
//! trailing separators) and `.` segments are not components. Two paths are
//! the same when their components are. These are not Windows' rules, where
//! `\` also separates and drive and UNC prefixes are components.

use vstd::prelude::*;

use crate::component::strings_model;
use crate::text::{min_int, push_char};

verus! {

/// The component that a finished segment gives: none for an empty segment
/// or for `.`.
pub open spec fn closed_segment(cur: Seq<char>) -> Seq<Seq<char>> {
    if cur.len() == 0 || cur == seq!['.'] {
        Seq::empty()
    } else {
        seq![cur]
    }
}

/// Reading `p` from the left: the components finished so far and the
/// segment being read.
pub open spec fn scan_segments(p: Seq<char>) -> (Seq<Seq<char>>, Seq<char>)
    decreases p.len(),
{
    if p.len() == 0 {
        (Seq::empty(), Seq::empty())
    } else {
        let (done, cur) = scan_segments(p.drop_last());
        if p.last() == '/' {
            (done + closed_segment(cur), Seq::empty())
        } else {
            (done, cur.push(p.last()))
        }
    }
}

/// The named components of `p` (`..` among them), in order.
pub open spec fn path_segments(p: Seq<char>) -> Seq<Seq<char>> {
    scan_segments(p).0 + closed_segment(scan_segments(p).1)
}

/// Whether `p` starts at the root.
pub open spec fn path_has_root(p: Seq<char>) -> bool {
    p.len() > 0 && p[0] == '/'
}

/// Whether `p` is relative and starts with a `.` segment, which std keeps
/// as a component.
pub open spec fn path_has_cur_dir(p: Seq<char>) -> bool {
    !path_has_root(p) && p.len() > 0 && p[0] == '.' && (p.len() == 1 || p[1] == '/')
}

/// Whether `a` and `b` name the same path under Unix rules: they have the
/// same components.
pub open spec fn same_unix_path(a: Seq<char>, b: Seq<char>) -> bool {
    &&& path_has_root(a) == path_has_root(b)
    &&& path_has_cur_dir(a) == path_has_cur_dir(b)
    &&& path_segments(a) == path_segments(b)
}

/// Whether one of `ps` is the same path as `p` under Unix rules.
pub open spec fn has_same_unix_path(ps: Seq<Seq<char>>, p: Seq<char>) -> bool {
    exists|i: int| 0 <= i < ps.len() && same_unix_path(#[trigger] ps[i], p)
}

/// The components of a path.
pub struct PathParts {
    pub root: bool,
    pub cur_dir: bool,
    pub segments: Vec<String>,
}

/// Splits `p` into its components under Unix rules.
pub fn path_parts(p: &str) -> (r: PathParts)
    ensures
        r.root == path_has_root(p@),
        r.cur_dir == path_has_cur_dir(p@),
        strings_model(r.segments@) == path_segments(p@),
{
    let mut done: Vec<String> = Vec::new();
    let mut cur = String::new();
    let mut cur_empty = true;
    let mut cur_dot = false;
    let mut first: Option<char> = None;
    let mut second: Option<char> = None;
    for x in it: p.chars()
        invariant
            it.seq() == p@,
            strings_model(done@) == scan_segments(p@.take(it.index() as int)).0,
            cur@ == scan_segments(p@.take(it.index() as int)).1,
            cur_empty == (cur@.len() == 0),
            cur_dot == (cur@ == seq!['.']),
            first == (if it.index() > 0 { Some(p@[0]) } else { None::<char> }),
            second == (if it.index() > 1 { Some(p@[1]) } else { None::<char> }),
    {
        proof {
            assert(p@.take(it.index() + 1).drop_last() =~= p@.take(it.index() as int));
        }
        if first.is_none() {
            first = Some(x);
        } else if second.is_none() {
            second = Some(x);
        }
        if x == '/' {
            let ghost before = done@;
            if !cur_empty && !cur_dot {
                done.push(cur);
                assert(strings_model(done@) =~= strings_model(before) + closed_segment(
                    scan_segments(p@.take(it.index() as int)).1,
                ));
            } else {
                assert(strings_model(done@) =~= strings_model(before) + closed_segment(
                    scan_segments(p@.take(it.index() as int)).1,
                ));
            }
            cur = String::new();
            cur_empty = true;
            cur_dot = false;
        } else {
            let ghost old_cur = cur@;
            cur_dot = cur_empty && x == '.';
            push_char(&mut cur, x);
            cur_empty = false;
            proof {
                if cur_dot {
                    assert(cur@ =~= seq!['.']);
                } else if cur@ == seq!['.'] {
                    assert(old_cur.len() == 0 && x == '.') by {
                        assert(cur@.len() == old_cur.len() + 1);
                        assert(cur@[old_cur.len() as int] == x);
                    }
                }
            }
        }
    }
    proof {
        assert(p@.take(p@.len() as int) =~= p@);
    }
    let root = match first {
        Some(c) => c == '/',
        None => false,
    };
    let cur_dir = !root && match first {
        Some(c) => c == '.' && match second {
            Some(d) => d == '/',
            None => true,
        },
        None => false,
    };
    let ghost before = done@;
    if !cur_empty && !cur_dot {
        done.push(cur);
    }
    assert(strings_model(done@) =~= path_segments(p@)) by {
        assert(strings_model(done@) =~= strings_model(before) + closed_segment(scan_segments(p@).1));
    }
    PathParts { root, cur_dir, segments: done }
}

/// Whether two lists of strings hold the same strings in the same order.
fn same_strings(a: &Vec<String>, b: &Vec<String>) -> (r: bool)
    ensures
        r == (strings_model(a@) == strings_model(b@)),
{
    if a.len() != b.len() {
        assert(strings_model(a@).len() != strings_model(b@).len());
        return false;
    }
    let mut i: usize = 0;
    while i < a.len()
        invariant
            i <= a@.len(),
            a@.len() == b@.len(),
            forall|j: int| 0 <= j < i ==> a@[j]@ == b@[j]@,
        decreases a@.len() - i,
    {
        if a[i] != b[i] {
            assert(strings_model(a@)[i as int] != strings_model(b@)[i as int]);
            return false;
        }
        i = i + 1;
    }
    assert(strings_model(a@) =~= strings_model(b@));
    true
}

/// Whether `a` and `b` name the same path, as `Path`'s `==` decides on
/// Unix.
pub fn is_same_unix_path(a: &str, b: &str) -> (r: bool)
    ensures
        r == same_unix_path(a@, b@),
{
    let pa = path_parts(a);
    let pb = path_parts(b);
    pa.root == pb.root && pa.cur_dir == pb.cur_dir && same_strings(&pa.segments, &pb.segments)
}

/// The name of the file `p` names under Unix rules, as `Path::file_name`
/// gives it: its last component, unless there is none or it is `..`.
pub open spec fn unix_file_name(p: Seq<char>) -> Option<Seq<char>> {
    let segs = path_segments(p);
    if segs.len() > 0 && segs.last() != seq!['.', '.'] {
        Some(segs.last())
    } else {
        None
    }
}

/// Whether `s` is `..`.
fn is_dot_dot(s: &str) -> (r: bool)
    ensures
        r == (s@ == seq!['.', '.']),
{
    let mut dots: usize = 0;
    let mut only_dots = true;
    for x in it: s.chars()
        invariant
            it.seq() == s@,
            only_dots == (forall|j: int| 0 <= j < it.index() ==> s@[j] == '.'),
            dots == min_int(it.index() as int, 3),
    {
        if x != '.' {
            only_dots = false;
        }
        if dots < 3 {
            dots = dots + 1;
        }
    }
    let r = only_dots && dots == 2;
    proof {
        if r {
            assert(s@ =~= seq!['.', '.']);
        }
    }
    r
}

/// The name of the file `p` names under Unix rules, as `Path::file_name`
/// gives it.
pub fn file_name(p: &str) -> (r: Option<String>)
    ensures
        match r {
            Some(n) => unix_file_name(p@) == Some(n@),
            None => unix_file_name(p@) is None,
        },
{
    let parts = path_parts(p);
    let n = parts.segments.len();
    if n == 0 {
        return None;
    }
    let last = &parts.segments[n - 1];
    assert(strings_model(parts.segments@).last() == last@);
    if is_dot_dot(last.as_str()) {
        None
    } else {
        Some(last.clone())
    }
}

} // verus!
