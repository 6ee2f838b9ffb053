//! Hierarchical resource paths.
//!
//! A path is a sequence of segments separated by `/`.  Paths are kept
//! normalized: non-empty, no trailing separator, no empty segment, and
//! only printable characters that can stand inside a JSON string as they
//! are.  Prefix tests and prefix stripping are segment-aware: `/root/it`
//! is not a prefix of `/root/items`, while `/root` is.

use vstd::prelude::*;
use vstd::string::StrSliceExecFns;
use crate::json::json_safe_char;

verus! {

/// Characters a path may hold: exactly those that can be embedded in a
/// JSON string as they are.
pub open spec fn path_char(c: char) -> bool {
    json_safe_char(c)
}

/// A normalized path: non-empty, no trailing separator, no empty
/// segment, and every character admissible.
pub open spec fn wf_path(s: Seq<char>) -> bool {
    &&& 0 < s.len()
    &&& s[s.len() - 1] != '/'
    &&& forall|i: int| 0 <= i < s.len() ==> path_char(#[trigger] s[i])
    &&& forall|i: int| #![trigger s[i]] 0 <= i < s.len() - 1 ==> !(s[i] == '/' && s[i + 1] == '/')
}

/// Drops a single leading separator, the one normalization applied to a
/// relative path before it is joined onto a root.
pub open spec fn strip_leading_separator(s: Seq<char>) -> Seq<char> {
    if s.len() > 0 && s[0] == '/' {
        s.skip(1)
    } else {
        s
    }
}

/// The root path extended by a relative path.
pub open spec fn join_paths(root: Seq<char>, rel: Seq<char>) -> Seq<char> {
    root + seq!['/'] + strip_leading_separator(rel)
}

/// Whether `e` is a segment-wise prefix of `p` (including `p` itself).
pub open spec fn path_starts_with(p: Seq<char>, e: Seq<char>) -> bool {
    &&& e.len() <= p.len()
    &&& p.take(e.len() as int) == e
    &&& (p.len() == e.len() || p[e.len() as int] == '/')
}

/// The remainder of `p` once the strict prefix `e` and the separator
/// after it are removed.
pub open spec fn strip_path_prefix(p: Seq<char>, e: Seq<char>) -> Seq<char> {
    p.skip(e.len() as int + 1)
}

/// A hierarchical path to a resource, kept normalized.
pub struct ResourcePath {
    text: String,
}

impl View for ResourcePath {
    type V = Seq<char>;

    closed spec fn view(&self) -> Seq<char> {
        self.text@
    }
}

impl ResourcePath {
    pub open spec fn wf(&self) -> bool {
        wf_path(self@)
    }

    /// Accepts exactly the normalized texts.
    pub fn new(text: String) -> (r: Option<ResourcePath>)
        ensures
            match r {
                Some(p) => p@ == text@ && p.wf(),
                None => !wf_path(text@),
            },
    {
        let n = text.as_str().unicode_len();
        if n == 0 {
            return None;
        }
        let mut i: usize = 0;
        while i < n
            invariant
                0 < n == text@.len(),
                0 <= i <= n,
                forall|j: int| 0 <= j < i ==> path_char(#[trigger] text@[j]),
                forall|j: int| #![trigger text@[j]] 0 <= j < i - 1 ==> !(text@[j] == '/'
                    && text@[j + 1] == '/'),
            decreases n - i,
        {
            let c = text.as_str().get_char(i);
            if c == '"' || c == '\\' || c < ' ' || c > '~' {
                return None;
            }
            if i > 0 && c == '/' && text.as_str().get_char(i - 1) == '/' {
                return None;
            }
            i += 1;
        }
        if text.as_str().get_char(n - 1) == '/' {
            return None;
        }
        Some(ResourcePath { text })
    }

    pub fn as_str(&self) -> (r: &str)
        ensures
            r@ == self@,
    {
        self.text.as_str()
    }

    pub fn equals(&self, other: &ResourcePath) -> (r: bool)
        ensures
            r == (self@ == other@),
    {
        self.text == other.text
    }

    /// Segment-wise prefix test: `prefix` owns `self` or a subtree of it.
    pub fn starts_with(&self, prefix: &ResourcePath) -> (r: bool)
        ensures
            r == path_starts_with(self@, prefix@),
    {
        let n = self.text.as_str().unicode_len();
        let m = prefix.text.as_str().unicode_len();
        if m > n {
            return false;
        }
        let mut i: usize = 0;
        while i < m
            invariant
                0 <= i <= m <= n,
                n == self@.len(),
                m == prefix@.len(),
                forall|j: int| 0 <= j < i ==> self@[j] == #[trigger] prefix@[j],
            decreases m - i,
        {
            if self.text.as_str().get_char(i) != prefix.text.as_str().get_char(i) {
                assert(self@.take(m as int)[i as int] != prefix@[i as int]);
                return false;
            }
            i += 1;
        }
        assert(self@.take(m as int) =~= prefix@);
        if n == m {
            true
        } else {
            self.text.as_str().get_char(m) == '/'
        }
    }

    /// The remainder of `self` under the strict prefix `prefix`.
    pub fn strip_prefix(&self, prefix: &ResourcePath) -> (r: ResourcePath)
        requires
            self.wf(),
            prefix.wf(),
            path_starts_with(self@, prefix@),
            self@ != prefix@,
        ensures
            r@ == strip_path_prefix(self@, prefix@),
            r.wf(),
            r@.len() < self@.len(),
    {
        proof {
            lemma_wf_path_ascii(self@);
            lemma_strip_path_prefix_wf(self@, prefix@);
        }
        let n = self.text.as_str().unicode_len();
        let m = prefix.text.as_str().unicode_len();
        let rest = self.text.as_str().substring_ascii(m + 1, n);
        ResourcePath { text: rest.to_owned() }
    }

    /// `self` extended by the relative path `rel`, the single leading
    /// separator of `rel` stripped first.
    pub fn join(&self, rel: &ResourcePath) -> (r: ResourcePath)
        requires
            self.wf(),
            rel.wf(),
        ensures
            r@ == join_paths(self@, rel@),
            r.wf(),
    {
        proof {
            lemma_wf_path_ascii(rel@);
            lemma_join_paths_wf(self@, rel@);
        }
        let mut text = self.text.clone();
        text.append("/");
        let rn = rel.text.as_str().unicode_len();
        if rel.text.as_str().get_char(0) == '/' {
            let rest = rel.text.as_str().substring_ascii(1, rn);
            text.append(rest);
        } else {
            text.append(rel.text.as_str());
        }
        proof {
            reveal_strlit("/");
            assert(text@ =~= join_paths(self@, rel@));
        }
        ResourcePath { text }
    }
}

/// A normalized path is ASCII, so character indexing and byte indexing
/// agree on it.
pub proof fn lemma_wf_path_ascii(s: Seq<char>)
    requires
        wf_path(s),
    ensures
        vstd::utf8::is_ascii_chars(s),
{
    assert forall|i: int| 0 <= i < s.len() implies '\0' <= #[trigger] s[i] <= '\u{7f}' by {
        assert(path_char(s[i]));
    }
}

/// Stripping a strict segment-wise prefix keeps a path normalized and
/// makes it strictly shorter.  This is the measure on which recursive
/// dispatch descends.
pub proof fn lemma_strip_path_prefix_wf(p: Seq<char>, e: Seq<char>)
    requires
        wf_path(p),
        wf_path(e),
        path_starts_with(p, e),
        p != e,
    ensures
        wf_path(strip_path_prefix(p, e)),
        strip_path_prefix(p, e).len() < p.len(),
        strip_path_prefix(p, e).len() == p.len() - e.len() - 1,
{
    let m = e.len() as int;
    let r = strip_path_prefix(p, e);
    assert(p.len() != e.len()) by {
        if p.len() == e.len() {
            assert(p =~= e);
        }
    }
    assert(p[m] == '/');
    // The remainder is non-empty: a trailing separator is excluded.
    assert(p.len() > m + 1) by {
        if p.len() == m + 1 {
            assert(p[p.len() - 1] == '/');
        }
    }
    // The remainder does not begin with a separator: no empty segment.
    assert(p[m + 1] != '/');
    assert(r.len() == p.len() - m - 1);
    assert(r[r.len() - 1] == p[p.len() - 1]);
    assert(forall|i: int| 0 <= i < r.len() ==> #[trigger] r[i] == p[i + m + 1]);
}

/// Joining two normalized paths yields a normalized path.
pub proof fn lemma_join_paths_wf(root: Seq<char>, rel: Seq<char>)
    requires
        wf_path(root),
        wf_path(rel),
    ensures
        wf_path(join_paths(root, rel)),
{
    let stripped = strip_leading_separator(rel);
    let j = join_paths(root, rel);
    let n = root.len() as int;
    assert(stripped.len() > 0) by {
        if rel.len() > 0 && rel[0] == '/' {
            // A lone separator would be a trailing separator in `rel`.
            assert(rel.len() > 1) by {
                if rel.len() == 1 {
                    assert(rel[rel.len() - 1] == '/');
                }
            }
            assert(rel[1] != '/');
        }
    }
    assert(stripped[0] != '/') by {
        if rel[0] == '/' {
            assert(rel[1] != '/');
            assert(stripped[0] == rel[1]);
        }
    }
    assert(j.len() == n + 1 + stripped.len());
    assert(j[n] == '/');
    assert(forall|i: int| 0 <= i < n ==> #[trigger] j[i] == root[i]);
    assert(forall|i: int| n + 1 <= i < j.len() ==> #[trigger] j[i] == stripped[i - n - 1]);
    assert(j[j.len() - 1] != '/');
    assert forall|i: int| 0 <= i < j.len() implies path_char(#[trigger] j[i]) by {
        if i < n {
            assert(path_char(root[i]));
        } else if i > n {
            if rel.len() > 0 && rel[0] == '/' {
                assert(stripped[i - n - 1] == rel[i - n]);
            }
            assert(path_char(stripped[i - n - 1]));
        }
    }
    assert forall|i: int| #![trigger j[i]] 0 <= i < j.len() - 1 implies !(j[i] == '/' && j[i + 1]
        == '/') by {
        if i == n - 1 {
            assert(j[i] == root[n - 1]);
        } else if i == n {
            assert(j[i + 1] == stripped[0]);
        } else if i > n {
            if rel.len() > 0 && rel[0] == '/' {
                assert(stripped[i - n - 1] == rel[i - n]);
                assert(stripped[i - n] == rel[i - n + 1]);
            }
        }
    }
}

impl Clone for ResourcePath {
    fn clone(&self) -> (r: Self)
        ensures
            r@ == self@,
    {
        ResourcePath { text: self.text.clone() }
    }
}

} // verus!
