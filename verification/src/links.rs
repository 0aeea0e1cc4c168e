//! Rewriting the repository-relative links of an `ARCHITECTURE.md` to GitHub
//! blob URLs, and rendering such a document to HTML.

use pulldown_cmark::{html, CowStr, Event, Options, Parser, Tag};
use vstd::prelude::*;
use crate::text::{
    chars_of, has_prefix, has_prefix_at, lemma_trimmed_idempotent, push_char, push_range,
    string_of_range, trim_bounds, trimmed,
};

verus! {

/// GitHub web UI base of the specifications repository.
pub const SPECS_REPO_WEB: &'static str = "https://github.com/pelorus-marine/specifications";

/// GitHub web UI base of the ECDIS repository.
pub const ECDIS_REPO_WEB: &'static str = "https://github.com/pelorus-marine/ecdis";

/// GitHub web UI base of the platform repository.
pub const PLATFORM_REPO_WEB: &'static str = "https://github.com/pelorus-marine/platform";

/// The repository whose `ARCHITECTURE.md` is being rendered.
#[derive(Clone, Copy, Debug, PartialEq, Eq, Structural)]
pub enum ArchitectureGithubRepo {
    Specifications,
    Ecdis,
    Platform,
}

impl ArchitectureGithubRepo {
    /// The repository's GitHub web UI base.
    pub open spec fn web_base_spec(self) -> Seq<char> {
        match self {
            ArchitectureGithubRepo::Specifications => SPECS_REPO_WEB@,
            ArchitectureGithubRepo::Ecdis => ECDIS_REPO_WEB@,
            ArchitectureGithubRepo::Platform => PLATFORM_REPO_WEB@,
        }
    }

    /// The repository's GitHub web UI base.
    pub fn web_base(self) -> (base: &'static str)
        ensures
            base@ == self.web_base_spec(),
    {
        match self {
            ArchitectureGithubRepo::Specifications => SPECS_REPO_WEB,
            ArchitectureGithubRepo::Ecdis => ECDIS_REPO_WEB,
            ArchitectureGithubRepo::Platform => PLATFORM_REPO_WEB,
        }
    }
}

// ---------------------------------------------------------------------------
// Specification
// ---------------------------------------------------------------------------

/// `i` is the position of the first `c` in `s`.
pub open spec fn is_first_index(s: Seq<char>, c: char, i: int) -> bool {
    &&& 0 <= i < s.len()
    &&& s[i] == c
    &&& forall|j: int| 0 <= j < i ==> s[j] != c
}

/// `dest` split at its first `#`: the part before it, and the fragment after
/// it when there is one.
pub open spec fn split_anchor_spec(dest: Seq<char>) -> (Seq<char>, Option<Seq<char>>) {
    if exists|i: int| is_first_index(dest, '#', i) {
        let i = choose|i: int| is_first_index(dest, '#', i);
        (dest.take(i), Some(dest.skip(i + 1)))
    } else {
        (dest, None)
    }
}

/// Whether a link destination is left as it is: empty once trimmed, or
/// absolute (a scheme that leaves the repository, or protocol-relative).
pub open spec fn skips_rewrite(dest: Seq<char>) -> bool {
    let d = trimmed(dest);
    ||| d.len() == 0
    ||| has_prefix(d, "http://"@)
    ||| has_prefix(d, "https://"@)
    ||| has_prefix(d, "mailto:"@)
    ||| has_prefix(d, "ftp:"@)
    ||| has_prefix(d, "data:"@)
    ||| has_prefix(d, "javascript:"@)
    ||| has_prefix(d, "//"@)
}

/// `s` without one leading `./`.
pub open spec fn strip_dot_slash(s: Seq<char>) -> Seq<char> {
    if has_prefix(s, seq!['.', '/']) {
        s.skip(2)
    } else {
        s
    }
}

/// `s` without its leading slashes.
pub open spec fn trim_leading_slashes(s: Seq<char>) -> Seq<char>
    decreases s.len(),
{
    if s.len() > 0 && s[0] == '/' {
        trim_leading_slashes(s.drop_first())
    } else {
        s
    }
}

/// `s` without its trailing slashes.
pub open spec fn trim_trailing_slashes(s: Seq<char>) -> Seq<char>
    decreases s.len(),
{
    if s.len() > 0 && s.last() == '/' {
        trim_trailing_slashes(s.drop_last())
    } else {
        s
    }
}

/// The pieces of `s` between slashes, as `str::split('/')` gives them
/// (empty pieces included; an empty `s` gives one empty piece).
pub open spec fn split_on_slash(s: Seq<char>) -> Seq<Seq<char>>
    decreases s.len(),
{
    if s.len() == 0 {
        seq![Seq::<char>::empty()]
    } else {
        let p = split_on_slash(s.drop_last());
        if s.last() == '/' {
            p.push(Seq::<char>::empty())
        } else {
            p.update(p.len() - 1, p.last().push(s.last()))
        }
    }
}

/// One step of path resolution: empty and `.` segments are dropped, `..`
/// removes the segment before it (if any), anything else is appended.
pub open spec fn resolve_step(stack: Seq<Seq<char>>, seg: Seq<char>) -> Seq<Seq<char>> {
    if seg.len() == 0 || seg == seq!['.'] {
        stack
    } else if seg == seq!['.', '.'] {
        if stack.len() > 0 {
            stack.drop_last()
        } else {
            stack
        }
    } else {
        stack.push(seg)
    }
}

/// The segments left after resolving `segs` from left to right.
pub open spec fn resolve_segments(segs: Seq<Seq<char>>) -> Seq<Seq<char>>
    decreases segs.len(),
{
    if segs.len() == 0 {
        Seq::empty()
    } else {
        resolve_step(resolve_segments(segs.drop_last()), segs.last())
    }
}

/// `segs` joined with `/`.
pub open spec fn join_with_slash(segs: Seq<Seq<char>>) -> Seq<char>
    decreases segs.len(),
{
    if segs.len() == 0 {
        Seq::empty()
    } else if segs.len() == 1 {
        segs[0]
    } else {
        join_with_slash(segs.drop_last()) + seq!['/'] + segs.last()
    }
}

/// A repository-relative path made relative to the repository root, where
/// `ARCHITECTURE.md` lives: trimmed, without a leading `./` or leading
/// slashes, with `.`, `..` and empty segments resolved.
pub open spec fn normalized_repo_path(path: Seq<char>) -> Seq<char> {
    join_with_slash(
        resolve_segments(split_on_slash(trim_leading_slashes(strip_dot_slash(trimmed(path))))),
    )
}

/// The file a rewritten link points at: the normalized path, or
/// `ARCHITECTURE.md` itself when nothing is left of the path.
pub open spec fn blob_target(normalized: Seq<char>) -> Seq<char> {
    if normalized.len() == 0 {
        "ARCHITECTURE.md"@
    } else {
        normalized
    }
}

/// Where a Markdown link destination points once rewritten against a GitHub
/// repository's web base and a git ref.
pub open spec fn rewritten_link(dest: Seq<char>, base: Seq<char>, github_ref: Seq<char>) -> Seq<
    char,
> {
    let d = trimmed(dest);
    if skips_rewrite(d) {
        d
    } else {
        let (path, fragment) = split_anchor_spec(d);
        let tail = match fragment {
            Some(f) => seq!['#'] + f,
            None => Seq::<char>::empty(),
        };
        trim_trailing_slashes(base) + "/blob/"@ + github_ref + seq!['/'] + blob_target(
            normalized_repo_path(path),
        ) + tail
    }
}

// ---------------------------------------------------------------------------
// Laws
// ---------------------------------------------------------------------------

/// Empty, absolute and protocol-relative destinations are not rewritten: the
/// destination comes back trimmed and otherwise as it was.
pub proof fn law_skipped_destinations_kept(dest: Seq<char>, base: Seq<char>, github_ref: Seq<char>)
    requires
        skips_rewrite(dest),
    ensures
        rewritten_link(dest, base, github_ref) == trimmed(dest),
{
    lemma_trimmed_idempotent(dest);
}

/// Every other destination becomes a URL under the repository's
/// `/blob/<ref>/`, and keeps its `#fragment` at the end.
pub proof fn law_relative_destinations_become_blob_urls(
    dest: Seq<char>,
    base: Seq<char>,
    github_ref: Seq<char>,
)
    requires
        !skips_rewrite(dest),
    ensures
        has_prefix(
            rewritten_link(dest, base, github_ref),
            trim_trailing_slashes(base) + "/blob/"@ + github_ref + seq!['/'],
        ),
        split_anchor_spec(trimmed(dest)).1 matches Some(f) ==> rewritten_link(
            dest,
            base,
            github_ref,
        ).skip(rewritten_link(dest, base, github_ref).len() - f.len() - 1) == seq!['#'] + f,
{
    lemma_trimmed_idempotent(dest);
    let out = rewritten_link(dest, base, github_ref);
    let p = trim_trailing_slashes(base) + "/blob/"@ + github_ref + seq!['/'];
    let d = trimmed(dest);
    let (path, fragment) = split_anchor_spec(d);
    let tail = match fragment {
        Some(f) => seq!['#'] + f,
        None => Seq::<char>::empty(),
    };
    let body = p + blob_target(normalized_repo_path(path));
    assert(out == body + tail);
    assert(out.take(p.len() as int) =~= p);
    if let Some(f) = fragment {
        assert(out.skip(out.len() - f.len() - 1) =~= seq!['#'] + f);
    }
}

/// Whether `c` is an ASCII letter.
pub open spec fn is_ascii_letter(c: char) -> bool {
    ('a' <= c <= 'z') || ('A' <= c <= 'Z')
}

/// Each kept prefix either starts with `/` or holds a `:` before it ends,
/// so a destination that starts with a letter and holds no `:` starts with
/// none of them.
proof fn lemma_letter_without_colon_not_kept(d: Seq<char>)
    requires
        d.len() > 0,
        is_ascii_letter(d[0]),
        forall|i: int| 0 <= i < d.len() ==> #[trigger] d[i] != ':',
    ensures
        !has_prefix(d, "http://"@),
        !has_prefix(d, "https://"@),
        !has_prefix(d, "mailto:"@),
        !has_prefix(d, "ftp:"@),
        !has_prefix(d, "data:"@),
        !has_prefix(d, "javascript:"@),
        !has_prefix(d, "//"@),
{
    reveal_strlit("http://");
    reveal_strlit("https://");
    reveal_strlit("mailto:");
    reveal_strlit("ftp:");
    reveal_strlit("data:");
    reveal_strlit("javascript:");
    reveal_strlit("//");
    if has_prefix(d, "http://"@) {
        assert(d.take(7)[4] == d[4]);
    }
    if has_prefix(d, "https://"@) {
        assert(d.take(8)[5] == d[5]);
    }
    if has_prefix(d, "mailto:"@) {
        assert(d.take(7)[6] == d[6]);
    }
    if has_prefix(d, "ftp:"@) {
        assert(d.take(4)[3] == d[3]);
    }
    if has_prefix(d, "data:"@) {
        assert(d.take(5)[4] == d[4]);
    }
    if has_prefix(d, "javascript:"@) {
        assert(d.take(11)[10] == d[10]);
    }
    if has_prefix(d, "//"@) {
        assert(d.take(2)[0] == d[0]);
    }
}

/// The destinations left alone are exactly those that, once trimmed, are
/// empty or begin with `http://`, `https://`, `mailto:`, `ftp:`, `data:`,
/// `javascript:` or `//`; those come back trimmed.
pub proof fn law_kept_destinations_are_the_listed_schemes(
    dest: Seq<char>,
    base: Seq<char>,
    github_ref: Seq<char>,
)
    ensures
        skips_rewrite(dest) <==> {
            let d = trimmed(dest);
            ||| d.len() == 0
            ||| has_prefix(d, seq!['h', 't', 't', 'p', ':', '/', '/'])
            ||| has_prefix(d, seq!['h', 't', 't', 'p', 's', ':', '/', '/'])
            ||| has_prefix(d, seq!['m', 'a', 'i', 'l', 't', 'o', ':'])
            ||| has_prefix(d, seq!['f', 't', 'p', ':'])
            ||| has_prefix(d, seq!['d', 'a', 't', 'a', ':'])
            ||| has_prefix(d, seq!['j', 'a', 'v', 'a', 's', 'c', 'r', 'i', 'p', 't', ':'])
            ||| has_prefix(d, seq!['/', '/'])
        },
        skips_rewrite(dest) ==> rewritten_link(dest, base, github_ref) == trimmed(dest),
{
    reveal_strlit("http://");
    reveal_strlit("https://");
    reveal_strlit("mailto:");
    reveal_strlit("ftp:");
    reveal_strlit("data:");
    reveal_strlit("javascript:");
    reveal_strlit("//");
    let d = trimmed(dest);
    assert("http://"@ =~= seq!['h', 't', 't', 'p', ':', '/', '/']);
    assert("https://"@ =~= seq!['h', 't', 't', 'p', 's', ':', '/', '/']);
    assert("mailto:"@ =~= seq!['m', 'a', 'i', 'l', 't', 'o', ':']);
    assert("ftp:"@ =~= seq!['f', 't', 'p', ':']);
    assert("data:"@ =~= seq!['d', 'a', 't', 'a', ':']);
    assert("javascript:"@ =~= seq!['j', 'a', 'v', 'a', 's', 'c', 'r', 'i', 'p', 't', ':']);
    assert("//"@ =~= seq!['/', '/']);
    if skips_rewrite(dest) {
        law_skipped_destinations_kept(dest, base, github_ref);
    }
}

/// A destination that, once trimmed, starts with a letter and holds no `:`
/// (a relative path such as `data/schema.json` or `docs/a.md#x`) is always
/// rewritten, to a URL under `<base>/blob/<ref>/`.
pub proof fn law_relative_paths_are_rewritten(
    dest: Seq<char>,
    base: Seq<char>,
    github_ref: Seq<char>,
)
    requires
        trimmed(dest).len() > 0,
        is_ascii_letter(trimmed(dest)[0]),
        forall|i: int| 0 <= i < trimmed(dest).len() ==> #[trigger] trimmed(dest)[i] != ':',
    ensures
        !skips_rewrite(dest),
        has_prefix(
            rewritten_link(dest, base, github_ref),
            trim_trailing_slashes(base) + seq!['/', 'b', 'l', 'o', 'b', '/'] + github_ref + seq![
                '/',
            ],
        ),
{
    lemma_trimmed_idempotent(dest);
    lemma_letter_without_colon_not_kept(trimmed(dest));
    law_relative_destinations_become_blob_urls(dest, base, github_ref);
    reveal_strlit("/blob/");
    assert("/blob/"@ =~= seq!['/', 'b', 'l', 'o', 'b', '/']);
}

/// The segments left by path resolution are never empty, `.` or `..`: a
/// normalized path climbs nowhere above the repository root.
pub proof fn law_resolved_segments_are_plain(segs: Seq<Seq<char>>)
    ensures
        forall|i: int|
            0 <= i < resolve_segments(segs).len() ==> {
                let seg = #[trigger] resolve_segments(segs)[i];
                &&& seg.len() > 0
                &&& seg != seq!['.']
                &&& seg != seq!['.', '.']
            },
    decreases segs.len(),
{
    if segs.len() > 0 {
        law_resolved_segments_are_plain(segs.drop_last());
        let st = resolve_segments(segs.drop_last());
        let r = resolve_segments(segs);
        assert forall|i: int| 0 <= i < r.len() implies ({
            let seg = #[trigger] r[i];
            &&& seg.len() > 0
            &&& seg != seq!['.']
            &&& seg != seq!['.', '.']
        }) by {
            if i < st.len() {
                assert(r[i] == st[i]);
            }
        }
    }
}

// ---------------------------------------------------------------------------
// Implementation
// ---------------------------------------------------------------------------

/// Position of the first `#` in `v[lo..hi]`, if any.
fn anchor_index(v: &Vec<char>, lo: usize, hi: usize) -> (r: Option<usize>)
    requires
        lo <= hi <= v@.len(),
    ensures
        match r {
            Some(i) => lo <= i < hi && is_first_index(
                v@.subrange(lo as int, hi as int),
                '#',
                i - lo,
            ),
            None => forall|j: int| lo <= j < hi ==> v@[j] != '#',
        },
{
    let mut i = lo;
    while i < hi
        invariant
            lo <= i <= hi <= v@.len(),
            forall|j: int| lo <= j < i ==> v@[j] != '#',
        decreases hi - i,
    {
        if v[i] == '#' {
            return Some(i);
        }
        i = i + 1;
    }
    None
}

/// How `split_anchor_spec` reads on a subrange split at position `i`.
proof fn lemma_split_anchor_found(v: Seq<char>, lo: int, hi: int, i: int)
    requires
        0 <= lo <= i < hi <= v.len(),
        is_first_index(v.subrange(lo, hi), '#', i - lo),
    ensures
        split_anchor_spec(v.subrange(lo, hi)) == (v.subrange(lo, i), Some(v.subrange(i + 1, hi))),
{
    let s = v.subrange(lo, hi);
    let k = choose|k: int| is_first_index(s, '#', k);
    if k < i - lo {
        assert(s[k] == '#');
    } else if k > i - lo {
        assert(s[i - lo] == '#');
    }
    assert(s.take(i - lo) =~= v.subrange(lo, i));
    assert(s.skip(i - lo + 1) =~= v.subrange(i + 1, hi));
}

/// How `split_anchor_spec` reads on a subrange without `#`.
proof fn lemma_split_anchor_absent(v: Seq<char>, lo: int, hi: int)
    requires
        0 <= lo <= hi <= v.len(),
        forall|j: int| lo <= j < hi ==> v[j] != '#',
    ensures
        split_anchor_spec(v.subrange(lo, hi)) == (v.subrange(lo, hi), None::<Seq<char>>),
{
    let s = v.subrange(lo, hi);
    assert forall|k: int| !is_first_index(s, '#', k) by {
        if 0 <= k < s.len() {
            assert(s[k] == v[lo + k]);
        }
    }
}

/// Splits a link destination at its first `#`.
pub fn split_anchor(dest: &str) -> (r: (&str, Option<&str>))
    ensures
        r.0@ == split_anchor_spec(dest@).0,
        match (r.1, split_anchor_spec(dest@).1) {
            (Some(f), Some(g)) => f@ == g,
            (None, None) => true,
            _ => false,
        },
{
    let v = chars_of(dest);
    let n = v.len();
    assert(v@.subrange(0, n as int) =~= dest@);
    match anchor_index(&v, 0, n) {
        Some(i) => {
            proof {
                lemma_split_anchor_found(v@, 0, n as int, i as int);
            }
            (dest.substring_char(0, i), Some(dest.substring_char(i + 1, n)))
        },
        None => {
            proof {
                lemma_split_anchor_absent(v@, 0, n as int);
            }
            (dest, None)
        },
    }
}

/// Whether `v[lo..hi]` is left alone by link rewriting.
fn skip_rewrite_range(v: &Vec<char>, lo: usize, hi: usize) -> (res: bool)
    requires
        lo <= hi <= v@.len(),
    ensures
        res == skips_rewrite(v@.subrange(lo as int, hi as int)),
{
    let (a, b) = trim_bounds(v, lo, hi);
    a == b || has_prefix_at(v, a, b, &chars_of("http://")) || has_prefix_at(
        v,
        a,
        b,
        &chars_of("https://"),
    ) || has_prefix_at(v, a, b, &chars_of("mailto:")) || has_prefix_at(
        v,
        a,
        b,
        &chars_of("ftp:"),
    ) || has_prefix_at(v, a, b, &chars_of("data:")) || has_prefix_at(
        v,
        a,
        b,
        &chars_of("javascript:"),
    ) || has_prefix_at(v, a, b, &chars_of("//"))
}

/// Whether a link destination is left alone by link rewriting: empty once
/// trimmed, absolute, or protocol-relative.
pub fn skip_rewrite_dest(dest: &str) -> (res: bool)
    ensures
        res == skips_rewrite(dest@),
{
    let v = chars_of(dest);
    assert(v@.subrange(0, v@.len() as int) =~= dest@);
    skip_rewrite_range(&v, 0, v.len())
}

/// The segments that a stack of ranges into `v` stands for.
pub open spec fn stack_view(v: Seq<char>, stack: Seq<(usize, usize)>) -> Seq<Seq<char>> {
    stack.map_values(|r: (usize, usize)| v.subrange(r.0 as int, r.1 as int))
}

/// Every range of `stack` lies within `0..n`.
pub open spec fn ranges_within(stack: Seq<(usize, usize)>, n: nat) -> bool {
    forall|j: int| 0 <= j < stack.len() ==> (#[trigger] stack[j]).0 <= stack[j].1 <= n
}

/// Applies one resolution step for the segment `v[a..e]`.
fn apply_segment(v: &Vec<char>, stack: &mut Vec<(usize, usize)>, a: usize, e: usize)
    requires
        a <= e <= v@.len(),
        ranges_within(old(stack)@, v@.len()),
    ensures
        ranges_within(final(stack)@, v@.len()),
        stack_view(v@, final(stack)@) == resolve_step(
            stack_view(v@, old(stack)@),
            v@.subrange(a as int, e as int),
        ),
{
    let ghost seg = v@.subrange(a as int, e as int);
    let ghost before = stack_view(v@, stack@);
    if e == a {
        return;
    }
    if e - a == 1 && v[a] == '.' {
        assert(seg =~= seq!['.']);
        return;
    }
    if e - a == 2 && v[a] == '.' && v[a + 1] == '.' {
        assert(seg =~= seq!['.', '.']);
        if stack.len() > 0 {
            stack.pop();
            assert(stack_view(v@, stack@) =~= before.drop_last());
        }
        return;
    }
    assert(seg != seq!['.']) by {
        if seg == seq!['.'] {
            assert(seg.len() == 1 && seg[0] == v@[a as int]);
        }
    }
    assert(seg != seq!['.', '.']) by {
        if seg == seq!['.', '.'] {
            assert(seg.len() == 2 && seg[0] == v@[a as int] && seg[1] == v@[a + 1]);
        }
    }
    stack.push((a, e));
    assert(stack_view(v@, stack@) =~= before.push(seg));
}

/// `v[lo..hi]` made relative to the repository root (see
/// [`normalized_repo_path`]).
fn normalize_range(v: &Vec<char>, lo: usize, hi: usize) -> (out: String)
    requires
        lo <= hi <= v@.len(),
    ensures
        out@ == normalized_repo_path(v@.subrange(lo as int, hi as int)),
{
    let (a0, b) = trim_bounds(v, lo, hi);
    let ghost t = v@.subrange(a0 as int, b as int);
    let mut a = a0;
    if b - a0 >= 2 && v[a0] == '.' && v[a0 + 1] == '/' {
        assert(t.take(2) =~= seq!['.', '/']);
        assert(t.skip(2) =~= v@.subrange(a0 + 2, b as int));
        a = a0 + 2;
    } else {
        assert(!has_prefix(t, seq!['.', '/'])) by {
            if has_prefix(t, seq!['.', '/']) {
                assert(t.take(2)[0] == v@[a0 as int] && t.take(2)[1] == v@[a0 + 1]);
            }
        }
    }
    assert(strip_dot_slash(t) == v@.subrange(a as int, b as int));
    let ghost stripped = v@.subrange(a as int, b as int);
    let mut c = a;
    while c < b && v[c] == '/'
        invariant
            a <= c <= b <= v@.len(),
            trim_leading_slashes(stripped) == trim_leading_slashes(
                v@.subrange(c as int, b as int),
            ),
        decreases b - c,
    {
        assert(v@.subrange(c as int, b as int).drop_first() =~= v@.subrange(c + 1, b as int));
        c = c + 1;
    }
    assert(trim_leading_slashes(v@.subrange(c as int, b as int)) == v@.subrange(
        c as int,
        b as int,
    ));
    let mut stack: Vec<(usize, usize)> = Vec::new();
    let ghost mut done: Seq<Seq<char>> = Seq::empty();
    let mut seg_start = c;
    let mut k = c;
    assert(v@.subrange(c as int, c as int) =~= Seq::<char>::empty());
    assert(split_on_slash(v@.subrange(c as int, c as int)) =~= done.push(
        v@.subrange(c as int, c as int),
    ));
    assert(stack_view(v@, stack@) =~= resolve_segments(done));
    while k < b
        invariant
            c <= seg_start <= k <= b <= v@.len(),
            split_on_slash(v@.subrange(c as int, k as int)) == done.push(
                v@.subrange(seg_start as int, k as int),
            ),
            stack_view(v@, stack@) == resolve_segments(done),
            ranges_within(stack@, v@.len()),
        decreases b - k,
    {
        let ghost prev = v@.subrange(c as int, k as int);
        assert(v@.subrange(c as int, k + 1).drop_last() =~= prev);
        assert(v@.subrange(c as int, k + 1).last() == v@[k as int]);
        if v[k] == '/' {
            apply_segment(v, &mut stack, seg_start, k);
            proof {
                let seg = v@.subrange(seg_start as int, k as int);
                assert(done.push(seg).drop_last() =~= done);
                done = done.push(seg);
                assert(v@.subrange(k + 1, k + 1) =~= Seq::<char>::empty());
            }
            seg_start = k + 1;
        } else {
            proof {
                let p = done.push(v@.subrange(seg_start as int, k as int));
                assert(v@.subrange(seg_start as int, k as int).push(v@[k as int]) =~= v@.subrange(
                    seg_start as int,
                    k + 1,
                ));
                assert(p.update(p.len() - 1, p.last().push(v@[k as int])) =~= done.push(
                    v@.subrange(seg_start as int, k + 1),
                ));
            }
        }
        k = k + 1;
    }
    apply_segment(v, &mut stack, seg_start, b);
    proof {
        let segs = done.push(v@.subrange(seg_start as int, b as int));
        assert(segs.drop_last() =~= done);
        assert(v@.subrange(c as int, b as int) == trim_leading_slashes(stripped));
    }
    let ghost resolved = stack_view(v@, stack@);
    let mut out = String::new();
    let mut i: usize = 0;
    while i < stack.len()
        invariant
            i <= stack@.len(),
            ranges_within(stack@, v@.len()),
            resolved == stack_view(v@, stack@),
            out@ == join_with_slash(resolved.take(i as int)),
        decreases stack@.len() - i,
    {
        let (s, e) = stack[i];
        proof {
            assert(resolved.take(i + 1).drop_last() =~= resolved.take(i as int));
            assert(resolved.take(i + 1).last() == v@.subrange(s as int, e as int));
        }
        if i > 0 {
            push_char(&mut out, '/');
        }
        push_range(&mut out, v, s, e);
        proof {
            if i == 0 {
                assert(out@ =~= resolved.take(1)[0]);
            }
        }
        i = i + 1;
    }
    assert(resolved.take(stack@.len() as int) =~= resolved);
    out
}

/// Makes a repository-relative path relative to the repository root, where
/// `ARCHITECTURE.md` lives: `./`, `../` and repository-root paths (`/LICENSE`)
/// are resolved.
pub fn normalize_repo_relative_path(path_part: &str) -> (out: String)
    ensures
        out@ == normalized_repo_path(path_part@),
{
    let v = chars_of(path_part);
    assert(v@.subrange(0, v@.len() as int) =~= path_part@);
    normalize_range(&v, 0, v.len())
}

/// End of `v` once its trailing slashes are left out.
fn trailing_slashes_start(v: &Vec<char>) -> (e: usize)
    ensures
        e <= v@.len(),
        v@.subrange(0, e as int) == trim_trailing_slashes(v@),
{
    let mut e = v.len();
    assert(v@.subrange(0, e as int) =~= v@);
    while e > 0 && v[e - 1] == '/'
        invariant
            e <= v@.len(),
            trim_trailing_slashes(v@) == trim_trailing_slashes(v@.subrange(0, e as int)),
        decreases e,
    {
        assert(v@.subrange(0, e as int).drop_last() =~= v@.subrange(0, e - 1));
        e = e - 1;
    }
    e
}

/// Rewrites a Markdown link destination into a GitHub blob URL of the
/// repository at `github_repo_web_base`, on `github_ref`.
///
/// Destinations that are empty, absolute or protocol-relative come back
/// trimmed and otherwise unchanged; `#fragment` alone points into
/// `ARCHITECTURE.md`.
pub fn rewrite_markdown_link_dest(dest: &str, github_repo_web_base: &str, github_ref: &str) -> (out:
    String)
    ensures
        out@ == rewritten_link(dest@, github_repo_web_base@, github_ref@),
{
    let v = chars_of(dest);
    let n = v.len();
    let (lo, hi) = trim_bounds(&v, 0, n);
    assert(v@.subrange(0, n as int) =~= dest@);
    let ghost d = v@.subrange(lo as int, hi as int);
    if skip_rewrite_range(&v, lo, hi) {
        return string_of_range(&v, lo, hi);
    }
    let b = chars_of(github_repo_web_base);
    let bend = trailing_slashes_start(&b);
    let mut out = string_of_range(&b, 0, bend);
    out.append("/blob/");
    out.append(github_ref);
    push_char(&mut out, '/');
    let (path_end, fragment) = match anchor_index(&v, lo, hi) {
        Some(i) => {
            proof {
                lemma_split_anchor_found(v@, lo as int, hi as int, i as int);
            }
            (i, Some(i + 1))
        },
        None => {
            proof {
                lemma_split_anchor_absent(v@, lo as int, hi as int);
            }
            (hi, None)
        },
    };
    let normalized = normalize_range(&v, lo, path_end);
    if normalized.as_str().is_empty() {
        out.append("ARCHITECTURE.md");
    } else {
        out.append(normalized.as_str());
    }
    match fragment {
        Some(f) => {
            push_char(&mut out, '#');
            push_range(&mut out, &v, f, hi);
        },
        None => {},
    }
    proof {
        let tail = match split_anchor_spec(d).1 {
            Some(g) => seq!['#'] + g,
            None => Seq::<char>::empty(),
        };
        assert(out@ =~= trim_trailing_slashes(github_repo_web_base@) + "/blob/"@ + github_ref@
            + seq!['/'] + blob_target(normalized_repo_path(split_anchor_spec(d).0)) + tail);
    }
    out
}

// ---------------------------------------------------------------------------
// Rendering
// ---------------------------------------------------------------------------

/// pulldown-cmark's `Options::ENABLE_TABLES` bit.
pub const ENABLE_TABLES: u32 = 1 << 1;

/// pulldown-cmark's `Options::ENABLE_STRIKETHROUGH` bit.
pub const ENABLE_STRIKETHROUGH: u32 = 1 << 3;

/// pulldown-cmark's `Options::ENABLE_TASKLISTS` bit.
pub const ENABLE_TASKLISTS: u32 = 1 << 4;

/// pulldown-cmark's `Options::ENABLE_SMART_PUNCTUATION` bit.
pub const ENABLE_SMART_PUNCTUATION: u32 = 1 << 5;

/// The Markdown extensions that architecture documents are parsed with:
/// tables, strikethrough, task lists and smart punctuation.
pub const ARCHITECTURE_MARKDOWN_OPTIONS: u32 = ENABLE_TABLES | ENABLE_STRIKETHROUGH
    | ENABLE_TASKLISTS | ENABLE_SMART_PUNCTUATION;

/// For the events that pulldown-cmark's parser emits on `md` with the option
/// bits `options`, in order: the destination of each event that starts a
/// link or an image, and `None` for every other event.
pub uninterp spec fn cmark_event_destinations(md: Seq<char>, options: u32) -> Seq<Option<Seq<char>>>;

/// The HTML that pulldown-cmark's `html::push_html` writes for the events of
/// `md` parsed with the option bits `options`, where the `i`-th event, when it
/// starts a link or an image, has its destination replaced by `dests[i]`.
pub uninterp spec fn cmark_html(md: Seq<char>, options: u32, dests: Seq<Seq<char>>) -> Seq<char>;

/// The view of an optional `String`.
pub open spec fn optional_view(o: Option<String>) -> Option<Seq<char>> {
    match o {
        Some(s) => Some(s@),
        None => None,
    }
}

/// The views of a sequence of `String`s.
pub open spec fn string_views(v: Seq<String>) -> Seq<Seq<char>> {
    v.map_values(|s: String| s@)
}

/// Parses `md` with pulldown-cmark (`Parser::new_ext`, options taken from the
/// bits `options`) and lists, per event, the destination of link and image
/// start events (`None` for the others). The contract names the list
/// (`cmark_event_destinations`); it does not describe Markdown parsing.
#[verifier::external_body]
fn markdown_event_destinations(md: &str, options: u32) -> (r: Vec<Option<String>>)
    ensures
        r@.map_values(|o: Option<String>| optional_view(o)) == cmark_event_destinations(
            md@,
            options,
        ),
{
    Parser::new_ext(md, Options::from_bits_truncate(options)).map(|event| match event {
        Event::Start(Tag::Link { dest_url, .. }) => Some(dest_url.into_string()),
        Event::Start(Tag::Image { dest_url, .. }) => Some(dest_url.into_string()),
        _ => None,
    }).collect()
}

/// Parses `md` with pulldown-cmark, gives the `i`-th event, when it starts a
/// link or an image, the destination `dests[i]`, and writes the events out
/// with `html::push_html`. The contract names the HTML (`cmark_html`); it
/// does not describe Markdown rendering.
#[verifier::external_body]
fn markdown_html_with_destinations(md: &str, options: u32, dests: &Vec<String>) -> (html: String)
    requires
        dests@.len() == cmark_event_destinations(md@, options).len(),
    ensures
        html@ == cmark_html(md@, options, string_views(dests@)),
{
    let events = Parser::new_ext(md, Options::from_bits_truncate(options)).zip(dests.iter()).map(
        |(event, dest)| match event {
            Event::Start(Tag::Link { link_type, title, id, .. }) => Event::Start(
                Tag::Link { link_type, dest_url: CowStr::from(dest.clone()), title, id },
            ),
            Event::Start(Tag::Image { link_type, title, id, .. }) => Event::Start(
                Tag::Image { link_type, dest_url: CowStr::from(dest.clone()), title, id },
            ),
            other => other,
        },
    );
    let mut html_out = String::new();
    html::push_html(&mut html_out, events);
    html_out
}

/// The destination each event of a parsed document gets once its links are
/// rewritten: the rewritten destination for link and image start events, and
/// an empty one (never used) for the other events.
pub open spec fn rewritten_event_destinations(
    dests: Seq<Option<Seq<char>>>,
    base: Seq<char>,
    github_ref: Seq<char>,
) -> Seq<Seq<char>> {
    dests.map_values(
        |o: Option<Seq<char>>|
            match o {
                Some(d) => rewritten_link(d, base, github_ref),
                None => Seq::<char>::empty(),
            },
    )
}

/// Rewrites, event by event, the destinations of a parsed document's link and
/// image start events (see [`rewrite_markdown_link_dest`]).
pub fn rewrite_event_destinations(dests: &Vec<Option<String>>, github_repo_web_base: &str, github_ref: &str) -> (r: Vec<String>)
    ensures
        string_views(r@) == rewritten_event_destinations(
            dests@.map_values(|o: Option<String>| optional_view(o)),
            github_repo_web_base@,
            github_ref@,
        ),
{
    let ghost src = dests@.map_values(|o: Option<String>| optional_view(o));
    let ghost want = rewritten_event_destinations(src, github_repo_web_base@, github_ref@);
    let mut r: Vec<String> = Vec::new();
    let mut i: usize = 0;
    while i < dests.len()
        invariant
            i <= dests@.len(),
            src == dests@.map_values(|o: Option<String>| optional_view(o)),
            want == rewritten_event_destinations(src, github_repo_web_base@, github_ref@),
            r@.len() == i,
            forall|j: int| 0 <= j < i ==> #[trigger] r@[j]@ == want[j],
        decreases dests@.len() - i,
    {
        let d = match &dests[i] {
            Some(d) => rewrite_markdown_link_dest(d.as_str(), github_repo_web_base, github_ref),
            None => String::new(),
        };
        assert(src[i as int] == optional_view(dests@[i as int]));
        r.push(d);
        i = i + 1;
    }
    assert(string_views(r@) =~= want);
    r
}

/// Renders an architecture document to HTML, rewriting its repository-relative
/// link and image destinations to GitHub blob URLs of `repo` on `github_ref`.
pub fn architecture_markdown_to_html(md: &str, repo: ArchitectureGithubRepo, github_ref: &str) -> (html: String)
    ensures
        html@ == cmark_html(
            md@,
            ARCHITECTURE_MARKDOWN_OPTIONS,
            rewritten_event_destinations(
                cmark_event_destinations(md@, ARCHITECTURE_MARKDOWN_OPTIONS),
                repo.web_base_spec(),
                github_ref@,
            ),
        ),
{
    let events = markdown_event_destinations(md, ARCHITECTURE_MARKDOWN_OPTIONS);
    let dests = rewrite_event_destinations(&events, repo.web_base(), github_ref);
    assert(dests@.len() == string_views(dests@).len());
    markdown_html_with_destinations(md, ARCHITECTURE_MARKDOWN_OPTIONS, &dests)
}

} // verus!
