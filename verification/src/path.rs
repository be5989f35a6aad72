//! Lexical handling of Unix paths, held as plain strings.
//!
//! The spec functions here describe, over `Seq<char>`, what `std::path` does
//! on Unix for the few operations the library needs: whether a path is
//! absolute, whether one of its components is `..`, `PathBuf::join` and
//! `Path::parent`.
use vstd::prelude::*;
use vstd::string::*;

verus! {

/// A Unix path is absolute when it starts with the separator.
pub open spec fn is_absolute(s: Seq<char>) -> bool {
    s.len() > 0 && s[0] == '/'
}

/// The two characters at `i` form a whole `..` piece between separators.
pub open spec fn parent_piece_at(s: Seq<char>, i: int) -> bool {
    &&& 0 <= i
    &&& i + 2 <= s.len()
    &&& s[i] == '.'
    &&& s[i + 1] == '.'
    &&& (i == 0 || s[i - 1] == '/')
    &&& (i + 2 == s.len() || s[i + 2] == '/')
}

/// Some component of the path is `..` (a parent-directory component).
pub open spec fn has_parent_component(s: Seq<char>) -> bool {
    exists|i: int| parent_piece_at(s, i)
}

/// `PathBuf::join` on Unix: an absolute `other` replaces `base`; otherwise
/// `other` is appended, with one separator in between unless `base` is empty
/// or already ends with one.
pub open spec fn join(base: Seq<char>, other: Seq<char>) -> Seq<char> {
    if is_absolute(other) || base.len() == 0 {
        other
    } else if base.last() == '/' {
        base + other
    } else {
        base + seq!['/'] + other
    }
}

/// Length of what precedes the body of the path: the root separator, or a
/// leading `.` component.
pub open spec fn root_len(s: Seq<char>) -> int {
    if s.len() > 0 && (s[0] == '/' || (s[0] == '.' && (s.len() == 1 || s[1] == '/'))) {
        1
    } else {
        0
    }
}

/// New end of `s[lo..hi]` once trailing separators and `.` pieces are removed.
pub open spec fn trim_end(s: Seq<char>, lo: int, hi: int) -> int
    decreases hi - lo,
{
    if hi <= lo {
        lo
    } else if s[hi - 1] == '/' {
        trim_end(s, lo, hi - 1)
    } else if s[hi - 1] == '.' && (hi - 1 == lo || s[hi - 2] == '/') {
        trim_end(s, lo, hi - 1)
    } else {
        hi
    }
}

/// New end of `s[lo..hi]` once its last piece and the separator before it
/// are removed.
pub open spec fn drop_piece(s: Seq<char>, lo: int, hi: int) -> int
    decreases hi - lo,
{
    if hi <= lo {
        lo
    } else if s[hi - 1] == '/' {
        hi - 1
    } else {
        drop_piece(s, lo, hi - 1)
    }
}

/// `Path::parent` on Unix: `None` for the root and for the empty path; the
/// empty path for a lone `.`; otherwise the path without its last component,
/// with trailing separators and `.` pieces removed.
pub open spec fn parent(s: Seq<char>) -> Option<Seq<char>> {
    let r = root_len(s);
    let t = trim_end(s, r, s.len() as int);
    if t <= r {
        if r == 1 && s[0] == '.' {
            Some(Seq::empty())
        } else {
            None
        }
    } else {
        Some(s.subrange(0, trim_end(s, r, drop_piece(s, r, t))))
    }
}

/// The path with trailing separators and `.` pieces removed.
pub open spec fn trimmed(s: Seq<char>) -> Seq<char> {
    s.subrange(0, trim_end(s, root_len(s), s.len() as int))
}

/// A single ordinary component: not empty, not `.`, without a separator.
pub open spec fn is_plain_name(n: Seq<char>) -> bool {
    &&& n.len() > 0
    &&& n != seq!['.']
    &&& forall|i: int| 0 <= i < n.len() ==> n[i] != '/'
}

pub proof fn lemma_trim_end_bounds(s: Seq<char>, lo: int, hi: int)
    requires
        lo <= hi,
    ensures
        lo <= trim_end(s, lo, hi) <= hi,
    decreases hi - lo,
{
    if hi > lo {
        lemma_trim_end_bounds(s, lo, hi - 1);
    }
}

pub proof fn lemma_drop_piece_bounds(s: Seq<char>, lo: int, hi: int)
    requires
        lo <= hi,
    ensures
        lo <= drop_piece(s, lo, hi) <= hi,
        hi > lo ==> drop_piece(s, lo, hi) < hi,
    decreases hi - lo,
{
    if hi > lo {
        lemma_drop_piece_bounds(s, lo, hi - 1);
    }
}

/// `trim_end` reads nothing at or past `hi`.
proof fn lemma_trim_end_prefix(s1: Seq<char>, s2: Seq<char>, lo: int, hi: int)
    requires
        0 <= lo,
        hi <= s1.len(),
        hi <= s2.len(),
        forall|k: int| 0 <= k < hi ==> s1[k] == s2[k],
    ensures
        trim_end(s1, lo, hi) == trim_end(s2, lo, hi),
    decreases hi - lo,
{
    if hi > lo {
        lemma_trim_end_prefix(s1, s2, lo, hi - 1);
    }
}

/// Over a stretch without separators, `drop_piece` goes straight past it.
proof fn lemma_drop_piece_skips(s: Seq<char>, lo: int, a: int, hi: int)
    requires
        lo <= a <= hi,
        forall|k: int| a <= k < hi ==> s[k] != '/',
    ensures
        drop_piece(s, lo, hi) == drop_piece(s, lo, a),
    decreases hi - a,
{
    if hi > a {
        lemma_drop_piece_skips(s, lo, a, hi - 1);
    }
}

/// Law: the parent of `base` joined with a plain name is `base` itself, up to
/// trailing separators and `.` pieces.
pub proof fn lemma_parent_of_join(base: Seq<char>, name: Seq<char>)
    requires
        is_plain_name(name),
    ensures
        parent(join(base, name)) == Some(trimmed(base)),
{
    let j = join(base, name);
    let nl = name.len() as int;
    let jl = j.len() as int;
    assert(!is_absolute(name));
    if base.len() == 0 {
        assert(j == name);
        assert(root_len(j) == 0) by {
            if name[0] == '.' && nl > 1 {
                assert(name[1] != '/');
            }
            if name[0] == '.' && nl == 1 {
                assert(name =~= seq!['.']);
            }
        }
        assert(trim_end(j, 0, jl) == jl) by {
            if nl >= 2 {
                assert(j[jl - 2] != '/');
            } else if name[0] == '.' {
                assert(name =~= seq!['.']);
            }
        }
        lemma_drop_piece_skips(j, 0, 0, jl);
        assert(trimmed(base) =~= Seq::<char>::empty());
        assert(j.subrange(0, 0) =~= Seq::<char>::empty());
    } else {
        let bl = base.len() as int;
        // The separator between the two parts sits at `sep`.
        let sep: int = if base.last() == '/' { bl - 1 } else { bl };
        let start: int = sep + 1;
        assert(forall|k: int| 0 <= k < bl ==> j[k] == base[k]);
        assert(j[sep] == '/');
        assert(jl == start + nl);
        assert(forall|k: int| start <= k < jl ==> j[k] == name[k - start]);
        let r = root_len(base);
        assert(root_len(j) == r) by {
            if bl >= 2 {
                assert(j[1] == base[1]);
            }
        }
        assert(trim_end(j, r, jl) == jl) by {
            assert(j[jl - 1] == name[nl - 1]);
            if nl >= 2 {
                assert(j[jl - 2] == name[nl - 2]);
            } else {
                assert(j[jl - 2] == '/');
                assert(name =~= seq![name[0]]);
            }
        }
        lemma_drop_piece_skips(j, r, start, jl);
        if sep >= r {
            assert(drop_piece(j, r, start) == sep);
            if base.last() == '/' {
                assert(trim_end(base, r, bl) == trim_end(base, r, bl - 1));
            }
            lemma_trim_end_prefix(j, base, r, sep);
        } else {
            // Only `/` itself has its separator before the body.
            assert(drop_piece(j, r, start) == r);
            assert(trim_end(base, r, bl) == r);
            assert(trim_end(j, r, r) == r);
        }
        lemma_trim_end_bounds(base, r, bl);
        assert(j.subrange(0, trim_end(base, r, bl)) =~= base.subrange(0, trim_end(base, r, bl)));
    }
}

// ---------------------------------------------------------------------------
// Executable counterparts.

pub fn path_is_absolute(s: &str) -> (r: bool)
    ensures
        r == is_absolute(s@),
{
    s.unicode_len() > 0 && s.get_char(0) == '/'
}

pub fn path_has_parent_component(s: &str) -> (r: bool)
    ensures
        r == has_parent_component(s@),
{
    let n = s.unicode_len();
    let mut i: usize = 0;
    while i < n && n - i >= 2
        invariant
            n == s@.len(),
            i <= n,
            forall|j: int| 0 <= j < i ==> !parent_piece_at(s@, j),
        decreases n - i,
    {
        if s.get_char(i) == '.' && s.get_char(i + 1) == '.' && (i == 0 || s.get_char(i - 1)
            == '/') && (n - i == 2 || s.get_char(i + 2) == '/') {
            assert(parent_piece_at(s@, i as int));
            return true;
        }
        i = i + 1;
    }
    false
}

pub fn path_join(base: &str, other: &str) -> (r: String)
    ensures
        r@ == join(base@, other@),
{
    if path_is_absolute(other) || base.unicode_len() == 0 {
        return String::from_str(other);
    }
    let mut r = String::from_str(base);
    let last = base.get_char(base.unicode_len() - 1);
    if last != '/' {
        r.append("/");
        proof {
            reveal_strlit("/");
        }
    }
    r.append(other);
    r
}

fn exec_root_len(s: &str) -> (r: usize)
    ensures
        r == root_len(s@),
{
    let n = s.unicode_len();
    if n > 0 {
        let c = s.get_char(0);
        if c == '/' {
            return 1;
        }
        if c == '.' && (n == 1 || s.get_char(1) == '/') {
            return 1;
        }
    }
    0
}

fn exec_trim_end(s: &str, lo: usize, hi: usize) -> (r: usize)
    requires
        lo <= hi <= s@.len(),
    ensures
        r == trim_end(s@, lo as int, hi as int),
{
    let mut h = hi;
    while h > lo
        invariant
            lo <= h <= hi <= s@.len(),
            trim_end(s@, lo as int, h as int) == trim_end(s@, lo as int, hi as int),
        decreases h,
    {
        let c = s.get_char(h - 1);
        if c == '/' || (c == '.' && (h - 1 == lo || s.get_char(h - 2) == '/')) {
            h = h - 1;
        } else {
            return h;
        }
    }
    h
}

fn exec_drop_piece(s: &str, lo: usize, hi: usize) -> (r: usize)
    requires
        lo <= hi <= s@.len(),
    ensures
        r == drop_piece(s@, lo as int, hi as int),
{
    let mut h = hi;
    while h > lo
        invariant
            lo <= h <= hi <= s@.len(),
            drop_piece(s@, lo as int, h as int) == drop_piece(s@, lo as int, hi as int),
        decreases h,
    {
        if s.get_char(h - 1) == '/' {
            return h - 1;
        }
        h = h - 1;
    }
    h
}

/// `Path::parent`, on a path held as a string.
pub fn path_parent(s: &str) -> (r: Option<String>)
    ensures
        r matches Some(p) ==> parent(s@) == Some(p@),
        r is None ==> parent(s@) is None,
{
    let n = s.unicode_len();
    let r = exec_root_len(s);
    let t = exec_trim_end(s, r, n);
    proof {
        lemma_trim_end_bounds(s@, r as int, n as int);
    }
    if t <= r {
        if r == 1 && s.get_char(0) == '.' {
            let e = String::new();
            return Some(e);
        }
        return None;
    }
    let d = exec_drop_piece(s, r, t);
    proof {
        lemma_drop_piece_bounds(s@, r as int, t as int);
    }
    let e = exec_trim_end(s, r, d);
    proof {
        lemma_trim_end_bounds(s@, r as int, d as int);
    }
    Some(String::from_str(s.substring_char(0, e)))
}

} // verus!
