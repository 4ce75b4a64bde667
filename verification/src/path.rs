//! The path model of the engine.
//!
//! Filesystem-like descriptors (read, write, FFI, run-by-path) store an
//! absolute, normalized path as its sequence of segments: no `.`, no `..`,
//! and no empty segment. Containment is segment-wise prefix, which is what
//! the host path model's `starts_with` means on normalized absolute paths.

use vstd::prelude::*;

use crate::strings::{spec_split, split_char, str_copy, str_eq};

verus! {

/// An absolute path, as the sequence of its segments below the root.
/// The root itself is the empty sequence.
#[derive(Debug, PartialEq, Eq)]
pub struct PathRepr {
    pub segments: Vec<String>,
}

impl View for PathRepr {
    type V = Seq<Seq<char>>;

    open spec fn view(&self) -> Seq<Seq<char>> {
        self.segments.deep_view()
    }
}

/// Whether the path `desc` lies under (or is) the path `anc`.
pub open spec fn path_contains(anc: Seq<Seq<char>>, desc: Seq<Seq<char>>) -> bool {
    anc.len() <= desc.len() && desc.subrange(0, anc.len() as int) == anc
}

/// Whether a segment is skipped by normalization: empty or `.`.
pub open spec fn is_cur_segment(seg: Seq<char>) -> bool {
    seg.len() == 0 || seg == "."@
}

/// Whether a segment pops its parent during normalization: `..`.
pub open spec fn is_parent_segment(seg: Seq<char>) -> bool {
    seg == ".."@
}

/// A normalized segment sequence: nothing a normalization pass would touch.
pub open spec fn is_normalized(segs: Seq<Seq<char>>) -> bool {
    forall|i: int| 0 <= i < segs.len() ==> !is_cur_segment(#[trigger] segs[i])
        && !is_parent_segment(segs[i])
}

/// The normalization of a segment sequence: empty and `.` segments vanish,
/// and `..` removes the segment before it (or nothing, at the root).
pub open spec fn normalize_model(segs: Seq<Seq<char>>) -> Seq<Seq<char>>
    decreases segs.len(),
{
    if segs.len() == 0 {
        Seq::empty()
    } else {
        let rest = normalize_model(segs.drop_last());
        let last = segs.last();
        if is_cur_segment(last) {
            rest
        } else if is_parent_segment(last) {
            if rest.len() > 0 {
                rest.drop_last()
            } else {
                rest
            }
        } else {
            rest.push(last)
        }
    }
}

/// Normalization always yields a normalized sequence.
pub proof fn lemma_normalize_model_normalized(segs: Seq<Seq<char>>)
    ensures
        is_normalized(normalize_model(segs)),
    decreases segs.len(),
{
    if segs.len() > 0 {
        lemma_normalize_model_normalized(segs.drop_last());
        let rest = normalize_model(segs.drop_last());
        let last = segs.last();
        if is_cur_segment(last) {
        } else if is_parent_segment(last) {
            if rest.len() > 0 {
                assert forall|i: int| 0 <= i < rest.drop_last().len() implies !is_cur_segment(
                    #[trigger] rest.drop_last()[i],
                ) && !is_parent_segment(rest.drop_last()[i]) by {
                    assert(rest.drop_last()[i] == rest[i]);
                }
            }
        } else {
            assert forall|i: int| 0 <= i < rest.push(last).len() implies !is_cur_segment(
                #[trigger] rest.push(last)[i],
            ) && !is_parent_segment(rest.push(last)[i]) by {
                if i < rest.len() {
                    assert(rest.push(last)[i] == rest[i]);
                }
            }
        }
    }
}

/// Normalizes a sequence of path segments: removes empty and `.` segments
/// and lets each `..` swallow the segment before it.
pub fn normalize_path(segments: Vec<String>) -> (r: Vec<String>)
    ensures
        r.deep_view() == normalize_model(segments.deep_view()),
{
    let mut out: Vec<String> = Vec::new();
    let mut i: usize = 0;
    let n = segments.len();
    while i < n
        invariant
            n == segments@.len(),
            i <= n,
            out.deep_view() =~= normalize_model(segments.deep_view().subrange(0, i as int)),
        decreases n - i,
    {
        let ghost prev = segments.deep_view().subrange(0, i as int);
        let ghost out_pre = out.deep_view();
        proof {
            assert(segments.deep_view().subrange(0, i + 1 as int).drop_last() =~= prev);
            assert(segments.deep_view().subrange(0, i + 1 as int).last() == segments@[
                i as int
            ].deep_view());
        }
        let seg = &segments[i];
        if seg.as_str().is_empty() || str_eq(seg.as_str(), ".") {
            proof {
                assert(is_cur_segment(seg@));
            }
        } else if str_eq(seg.as_str(), "..") {
            if out.len() > 0 {
                out.pop();
                proof {
                    assert(out.deep_view() =~= out_pre.drop_last());
                }
            }
            proof {
                assert(out_pre.len() == 0 ==> out.deep_view() =~= out_pre);
            }
        } else {
            let copy = str_copy(seg.as_str());
            out.push(copy);
            proof {
                assert(out.deep_view() =~= out_pre.push(seg@));
            }
        }
        i += 1;
    }
    proof {
        assert(segments.deep_view().subrange(0, n as int) =~= segments.deep_view());
    }
    out
}

impl PathRepr {
    /// The path with the given, already normalized segments.
    pub fn new(segments: Vec<String>) -> (r: PathRepr)
        ensures
            r@ == segments.deep_view(),
    {
        PathRepr { segments }
    }

    /// Builds a path from slash-separated text, normalizing it: empty and
    /// `.` segments vanish and `..` removes the segment before it.
    pub fn parse(text: &str) -> (r: PathRepr)
        ensures
            r@ == normalize_model(spec_split(text@, '/')),
    {
        let raw = split_char(text, '/');
        PathRepr { segments: normalize_path(raw) }
    }

    /// An exact copy of this path.
    pub fn duplicate(&self) -> (r: PathRepr)
        ensures
            r@ == self@,
    {
        let mut segments: Vec<String> = Vec::new();
        let mut i: usize = 0;
        let n = self.segments.len();
        while i < n
            invariant
                n == self.segments@.len(),
                i <= n,
                segments.deep_view() =~= self@.subrange(0, i as int),
            decreases n - i,
        {
            let ghost pre = segments.deep_view();
            let copy = str_copy(self.segments[i].as_str());
            segments.push(copy);
            proof {
                assert(segments.deep_view() =~= pre.push(self@[i as int]));
                assert(self@.subrange(0, i + 1 as int) =~= self@.subrange(0, i as int).push(
                    self@[i as int],
                ));
            }
            i += 1;
        }
        proof {
            assert(self@.subrange(0, n as int) =~= self@);
        }
        PathRepr { segments }
    }

    /// Whether this path lies under (or is) `anc`.
    pub fn starts_with(&self, anc: &PathRepr) -> (r: bool)
        ensures
            r == path_contains(anc@, self@),
    {
        let a_len = anc.segments.len();
        let s_len = self.segments.len();
        if a_len > s_len {
            return false;
        }
        let mut i: usize = 0;
        while i < a_len
            invariant
                a_len == anc@.len(),
                s_len == self@.len(),
                a_len <= s_len,
                i <= a_len,
                forall|j: int| 0 <= j < i ==> self@[j] == anc@[j],
            decreases a_len - i,
        {
            if !str_eq(self.segments[i].as_str(), anc.segments[i].as_str()) {
                proof {
                    if path_contains(anc@, self@) {
                        assert(self@.subrange(0, anc@.len() as int)[i as int] == anc@[i as int]);
                    }
                }
                return false;
            }
            i += 1;
        }
        proof {
            assert(self@.subrange(0, anc@.len() as int) =~= anc@);
        }
        true
    }

    /// Whether two paths are the same, segment for segment.
    pub fn same_as(&self, other: &PathRepr) -> (r: bool)
        ensures
            r == (self@ == other@),
    {
        let forward = self.starts_with(other);
        let backward = other.starts_with(self);
        proof {
            if forward && backward {
                assert(self@ =~= other@);
            }
            if self@ == other@ {
                assert(self@.subrange(0, other@.len() as int) =~= other@);
                assert(other@.subrange(0, self@.len() as int) =~= self@);
            }
        }
        forward && backward
    }

    /// The number of segments.
    pub fn depth(&self) -> (r: usize)
        ensures
            r == self@.len(),
    {
        self.segments.len()
    }

    /// The last segment, if the path is not the root.
    pub fn file_name(&self) -> (r: Option<&String>)
        ensures
            match r {
                Some(name) => self@.len() > 0 && name@ == self@.last(),
                None => self@.len() == 0,
            },
    {
        let n = self.segments.len();
        if n == 0 {
            None
        } else {
            Some(&self.segments[n - 1])
        }
    }

    /// The slash-separated text of this path, starting at the root.
    pub fn display_text(&self) -> (r: String)
        ensures
            r@ == path_display_model(self@),
    {
        let n = self.segments.len();
        if n == 0 {
            proof {
                reveal_strlit("/");
            }
            return str_copy("/");
        }
        let mut out = String::new();
        let mut i: usize = 0;
        while i < n
            invariant
                n == self@.len(),
                n > 0,
                i <= n,
                out@ =~= path_join_model(self@.subrange(0, i as int)),
            decreases n - i,
        {
            proof {
                reveal_strlit("/");
                assert(self@.subrange(0, i + 1 as int).drop_last() =~= self@.subrange(0, i as int));
            }
            out.append("/");
            out.append(self.segments[i].as_str());
            i += 1;
        }
        proof {
            assert(self@.subrange(0, n as int) =~= self@);
        }
        out
    }
}

/// The slash-separated text of a segment sequence (each segment preceded
/// by a slash).
pub open spec fn path_join_model(segs: Seq<Seq<char>>) -> Seq<char>
    decreases segs.len(),
{
    if segs.len() == 0 {
        Seq::empty()
    } else {
        path_join_model(segs.drop_last()) + "/"@ + segs.last()
    }
}

/// The display text of a path: `/` for the root, else its joined segments.
pub open spec fn path_display_model(segs: Seq<Seq<char>>) -> Seq<char> {
    if segs.len() == 0 {
        "/"@
    } else {
        path_join_model(segs)
    }
}

/// What resolving path text against a working directory yields: absolute
/// text stands alone; relative text is appended to the directory; either
/// way the result is normalized.
pub open spec fn spec_resolve_from(text: Seq<char>, cwd: Seq<Seq<char>>) -> Seq<Seq<char>> {
    if text.len() > 0 && text[0] == '/' {
        normalize_model(spec_split(text, '/'))
    } else {
        normalize_model(cwd + spec_split(text, '/'))
    }
}

/// Resolves path text against a working directory: absolute text stands
/// alone, relative text goes below the directory, and the result is
/// normalized.
pub fn resolve_from_known_cwd(text: &str, cwd: &PathRepr) -> (r: PathRepr)
    ensures
        r@ == spec_resolve_from(text@, cwd@),
{
    let pieces = split_char(text, '/');
    if text.unicode_len() > 0 && text.get_char(0) == '/' {
        PathRepr { segments: normalize_path(pieces) }
    } else {
        let mut joined = cwd.duplicate().segments;
        let mut extra = pieces;
        let ghost joined_pre = joined.deep_view();
        let ghost extra_pre = extra.deep_view();
        joined.append(&mut extra);
        proof {
            assert(joined.deep_view() =~= joined_pre + extra_pre);
        }
        PathRepr { segments: normalize_path(joined) }
    }
}

/// Containment is reflexive and transitive along descendants: anything
/// under a descendant is under the ancestor.
pub proof fn lemma_path_contains_trans(a: Seq<Seq<char>>, b: Seq<Seq<char>>, c: Seq<Seq<char>>)
    requires
        path_contains(a, b),
        path_contains(b, c),
    ensures
        path_contains(a, c),
{
    assert(c.subrange(0, a.len() as int) =~= b.subrange(0, b.len() as int).subrange(
        0,
        a.len() as int,
    ));
    assert(b.subrange(0, b.len() as int) =~= b);
    assert(b.subrange(0, a.len() as int) == a);
}

} // verus!
