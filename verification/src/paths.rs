//! Virtual filesystem paths as the explorer shows them: normalization of
//! user-typed paths, joining, parent and entry names, and DOM ids derived
//! from paths.

use vstd::prelude::*;
use vstd::string::*;
use crate::model::strings_view;
use crate::strings::{str_eq, trim, trimmed};

verus! {

/// `/` and `\` both separate path segments.
pub open spec fn is_separator(c: char) -> bool {
    c == '/' || c == '\\'
}

/// The pieces of `s` between separators, as splitting on `/` after
/// turning `\` into `/` yields them.
pub open spec fn path_segments(s: Seq<char>) -> Seq<Seq<char>>
    decreases s.len(),
{
    if s.len() == 0 {
        seq![Seq::<char>::empty()]
    } else {
        let prev = path_segments(s.drop_last());
        if is_separator(s.last()) {
            prev.push(Seq::<char>::empty())
        } else {
            prev.update(prev.len() - 1, prev.last().push(s.last()))
        }
    }
}

/// The components after reading one more segment: empty and `.` segments
/// change nothing, `..` drops the last component, and any other segment
/// is appended.
pub open spec fn step_component(comps: Seq<Seq<char>>, seg: Seq<char>) -> Seq<Seq<char>> {
    if seg.len() == 0 || seg == "."@ {
        comps
    } else if seg == ".."@ {
        if comps.len() > 0 {
            comps.drop_last()
        } else {
            comps
        }
    } else {
        comps.push(seg)
    }
}

/// The components that a sequence of segments resolves to.
pub open spec fn resolve_segments(segs: Seq<Seq<char>>) -> Seq<Seq<char>>
    decreases segs.len(),
{
    if segs.len() == 0 {
        Seq::empty()
    } else {
        step_component(resolve_segments(segs.drop_last()), segs.last())
    }
}

/// The components of a typed path.
pub open spec fn path_components(path: Seq<char>) -> Seq<Seq<char>> {
    resolve_segments(path_segments(trimmed(path)))
}

/// `/c1/c2/...`, or `/` for no components.
pub open spec fn render_components(comps: Seq<Seq<char>>) -> Seq<char>
    decreases comps.len(),
{
    if comps.len() == 0 {
        Seq::empty()
    } else {
        render_components(comps.drop_last()) + "/"@ + comps.last()
    }
}

pub open spec fn render_path(comps: Seq<Seq<char>>) -> Seq<char> {
    if comps.len() == 0 {
        "/"@
    } else {
        render_components(comps)
    }
}

/// The normal form of a typed path.
pub open spec fn normalized_path(path: Seq<char>) -> Seq<char> {
    render_path(path_components(path))
}

pub proof fn lemma_path_segments_nonempty(s: Seq<char>)
    ensures
        path_segments(s).len() >= 1,
    decreases s.len(),
{
    if s.len() > 0 {
        lemma_path_segments_nonempty(s.drop_last());
    }
}

fn apply_segment(comps: &mut Vec<String>, seg: &str)
    ensures
        strings_view(final(comps)@) == step_component(strings_view(old(comps)@), seg@),
{
    proof {
        reveal_strlit(".");
        reveal_strlit("..");
    }
    if seg.unicode_len() == 0 || str_eq(seg, ".") {
        return;
    }
    if str_eq(seg, "..") {
        if comps.len() > 0 {
            comps.pop();
            assert(strings_view(comps@) =~= strings_view(old(comps)@).drop_last());
        }
        return;
    }
    comps.push(String::from_str(seg));
    assert(strings_view(comps@) =~= strings_view(old(comps)@).push(seg@));
}

/// The components of a typed path, in order.
pub fn components(path: &str) -> (r: Vec<String>)
    ensures
        strings_view(r@) == path_components(path@),
{
    let t = trim(path);
    let ghost s = t@;
    let n = t.unicode_len();
    let mut comps: Vec<String> = Vec::new();
    let mut cur = String::new();
    let mut i: usize = 0;
    proof {
        assert(s.take(0) =~= Seq::<char>::empty());
        assert(strings_view(comps@) =~= Seq::<Seq<char>>::empty());
        assert(path_segments(s.take(0)).drop_last() =~= Seq::<Seq<char>>::empty());
    }
    while i < n
        invariant
            s == t@,
            n == s.len(),
            i <= n,
            strings_view(comps@) == resolve_segments(path_segments(s.take(i as int)).drop_last()),
            cur@ == path_segments(s.take(i as int)).last(),
        decreases n - i,
    {
        let c = t.get_char(i);
        let ghost prev = path_segments(s.take(i as int));
        proof {
            lemma_path_segments_nonempty(s.take(i as int));
            assert(s.take(i + 1).drop_last() =~= s.take(i as int));
            assert(s.take(i + 1).last() == c);
        }
        if c == '/' || c == '\\' {
            apply_segment(&mut comps, cur.as_str());
            cur = String::new();
            proof {
                let next = path_segments(s.take(i + 1));
                assert(next == prev.push(Seq::<char>::empty()));
                assert(next.drop_last() =~= prev);
                assert(prev == prev.drop_last().push(prev.last()));
                assert(resolve_segments(prev) == step_component(
                    resolve_segments(prev.drop_last()),
                    prev.last(),
                ));
            }
        } else {
            cur.push(c);
            proof {
                let next = path_segments(s.take(i + 1));
                assert(next.drop_last() =~= prev.drop_last());
            }
        }
        i = i + 1;
    }
    apply_segment(&mut comps, cur.as_str());
    proof {
        let segs = path_segments(s);
        lemma_path_segments_nonempty(s);
        assert(s.take(n as int) =~= s);
        assert(resolve_segments(segs) == step_component(resolve_segments(segs.drop_last()), segs.last()));
    }
    comps
}

fn render(comps: &Vec<String>, count: usize) -> (r: String)
    requires
        count <= comps@.len(),
    ensures
        r@ == render_path(strings_view(comps@).take(count as int)),
{
    if count == 0 {
        return String::from_str("/");
    }
    let ghost cs = strings_view(comps@);
    let mut out = String::new();
    let mut i: usize = 0;
    assert(cs.take(0) =~= Seq::<Seq<char>>::empty());
    while i < count
        invariant
            cs == strings_view(comps@),
            count <= cs.len(),
            i <= count,
            out@ == render_components(cs.take(i as int)),
        decreases count - i,
    {
        out.push('/');
        out.append(comps[i].as_str());
        proof {
            reveal_strlit("/");
            assert(cs.take(i + 1).drop_last() =~= cs.take(i as int));
            assert(out@ =~= render_components(cs.take(i as int)) + "/"@ + cs[i as int]);
        }
        i = i + 1;
    }
    out
}

/// The normal form of a typed path: always absolute, without empty, `.`
/// or `..` components, `/` as the separator.
pub fn normalize_path(path: &str) -> (r: String)
    ensures
        r@ == normalized_path(path@),
{
    let comps = components(path);
    let r = render(&comps, comps.len());
    assert(strings_view(comps@).take(comps@.len() as int) =~= strings_view(comps@));
    r
}

/// The parent directory of a path (the root is its own parent).
pub fn parent_path(path: &str) -> (r: String)
    ensures
        r@ == render_path(
            if path_components(path@).len() > 0 {
                path_components(path@).drop_last()
            } else {
                path_components(path@)
            },
        ),
{
    let comps = components(path);
    let n = comps.len();
    if n == 0 {
        render(&comps, 0)
    } else {
        let r = render(&comps, n - 1);
        assert(strings_view(comps@).take(n - 1) =~= strings_view(comps@).drop_last());
        r
    }
}

/// The last component of a path, or `/` for the root.
pub fn entry_name(path: &str) -> (r: String)
    ensures
        r@ == (if path_components(path@).len() > 0 {
            path_components(path@).last()
        } else {
            "/"@
        }),
{
    let comps = components(path);
    let n = comps.len();
    if n == 0 {
        String::from_str("/")
    } else {
        assert(strings_view(comps@)[n - 1] == comps@[n - 1]@);
        comps[n - 1].clone()
    }
}

/// `s` without leading `c`s.
pub open spec fn strip_start(s: Seq<char>, c: char) -> Seq<char>
    decreases s.len(),
{
    if s.len() > 0 && s[0] == c {
        strip_start(s.drop_first(), c)
    } else {
        s
    }
}

/// `s` without trailing `c`s.
pub open spec fn strip_end(s: Seq<char>, c: char) -> Seq<char>
    decreases s.len(),
{
    if s.len() > 0 && s.last() == c {
        strip_end(s.drop_last(), c)
    } else {
        s
    }
}

proof fn lemma_strip_start_at(s: Seq<char>, c: char, a: int)
    requires
        0 <= a <= s.len(),
        forall|k: int| 0 <= k < a ==> #[trigger] s[k] == c,
        a < s.len() ==> s[a] != c,
    ensures
        strip_start(s, c) == s.subrange(a, s.len() as int),
    decreases a,
{
    if a == 0 {
        assert(s.subrange(0, s.len() as int) =~= s);
    } else {
        let t = s.drop_first();
        assert forall|k: int| 0 <= k < a - 1 implies #[trigger] t[k] == c by {
            assert(t[k] == s[k + 1]);
        }
        if a - 1 < t.len() {
            assert(t[a - 1] == s[a]);
        }
        lemma_strip_start_at(t, c, a - 1);
        assert(t.subrange(a - 1, t.len() as int) =~= s.subrange(a, s.len() as int));
    }
}

proof fn lemma_strip_end_at(s: Seq<char>, c: char, b: int)
    requires
        0 <= b <= s.len(),
        forall|k: int| b <= k < s.len() ==> #[trigger] s[k] == c,
        b > 0 ==> s[b - 1] != c,
    ensures
        strip_end(s, c) == s.subrange(0, b),
    decreases s.len() - b,
{
    if b == s.len() {
        assert(s.subrange(0, b) =~= s);
    } else {
        let t = s.drop_last();
        assert forall|k: int| b <= k < t.len() implies #[trigger] t[k] == c by {
            assert(t[k] == s[k]);
        }
        if b > 0 {
            assert(t[b - 1] == s[b - 1]);
        }
        assert(s.last() == s[s.len() - 1]);
        lemma_strip_end_at(t, c, b);
        assert(t.subrange(0, b) =~= s.subrange(0, b));
    }
}

/// `s` without leading and trailing `c`s, as `str::trim_matches(c)`.
fn strip_char(s: &str, c: char) -> (r: &str)
    ensures
        r@ == strip_end(strip_start(s@, c), c),
{
    let n = s.unicode_len();
    let mut a: usize = 0;
    while a < n && s.get_char(a) == c
        invariant
            n == s@.len(),
            a <= n,
            forall|k: int| 0 <= k < a ==> #[trigger] s@[k] == c,
        decreases n - a,
    {
        a = a + 1;
    }
    proof {
        lemma_strip_start_at(s@, c, a as int);
    }
    let mut b: usize = n;
    while b > a && s.get_char(b - 1) == c
        invariant
            n == s@.len(),
            a <= b <= n,
            forall|k: int| b <= k < n ==> #[trigger] s@[k] == c,
        decreases b,
    {
        b = b - 1;
    }
    let r = s.substring_char(a, b);
    proof {
        let t = s@.subrange(a as int, n as int);
        assert forall|k: int| b - a <= k < t.len() implies #[trigger] t[k] == c by {
            assert(t[k] == s@[k + a]);
        }
        if b > a {
            assert(t[b - a - 1] == s@[b - 1]);
        }
        lemma_strip_end_at(t, c, (b - a) as int);
        assert(t.subrange(0, (b - a) as int) =~= s@.subrange(a as int, b as int));
    }
    r
}

/// The name typed for a new entry: trimmed, without surrounding slashes.
pub open spec fn entry_text(name: Seq<char>) -> Seq<char> {
    strip_end(strip_start(trimmed(name), '/'), '/')
}

/// `name` inside directory `base`.
pub open spec fn joined_path(base: Seq<char>, name: Seq<char>) -> Seq<char> {
    let b = normalized_path(base);
    let n = entry_text(name);
    if n.len() == 0 {
        b
    } else if b == "/"@ {
        "/"@ + n
    } else {
        b + "/"@ + n
    }
}

/// The path of entry `name` inside directory `base`.
pub fn join_path(base: &str, name: &str) -> (r: String)
    ensures
        r@ == joined_path(base@, name@),
{
    let b = normalize_path(base);
    let n = strip_char(trim(name), '/');
    if n.unicode_len() == 0 {
        return b;
    }
    if str_eq(b.as_str(), "/") {
        String::from_str("/").concat(n)
    } else {
        b.concat("/").concat(n)
    }
}

/// A character as it may appear in a DOM id: ASCII letters and digits
/// lowercased, anything else turned into `-`.
pub open spec fn dom_char(c: char) -> char {
    if 'A' <= c && c <= 'Z' {
        ((c as u32) + 32) as char
    } else if ('a' <= c && c <= 'z') || ('0' <= c && c <= '9') {
        c
    } else {
        '-'
    }
}

pub open spec fn dom_id(prefix: Seq<char>, s: Seq<char>) -> Seq<char> {
    prefix + s.map_values(|c: char| dom_char(c))
}

fn dom_char_of(c: char) -> (r: char)
    ensures
        r == dom_char(c),
{
    if 'A' <= c && c <= 'Z' {
        let b: u8 = (c as u32 + 32) as u8;
        b as char
    } else if ('a' <= c && c <= 'z') || ('0' <= c && c <= '9') {
        c
    } else {
        '-'
    }
}

/// `prefix` followed by `s` with each character made DOM-safe.
pub fn dom_safe_id(prefix: &str, s: &str) -> (r: String)
    ensures
        r@ == dom_id(prefix@, s@),
{
    let mut out = String::from_str(prefix);
    let n = s.unicode_len();
    let mut i: usize = 0;
    while i < n
        invariant
            n == s@.len(),
            i <= n,
            out@ == prefix@ + s@.take(i as int).map_values(|c: char| dom_char(c)),
        decreases n - i,
    {
        let c = s.get_char(i);
        out.push(dom_char_of(c));
        assert(s@.take(i + 1).map_values(|c: char| dom_char(c)) =~= s@.take(i as int).map_values(
            |c: char| dom_char(c),
        ).push(dom_char(c)));
        i = i + 1;
    }
    assert(s@.take(n as int) =~= s@);
    out
}

/// DOM id of an explorer row.
pub fn explorer_row_dom_id(path: &str) -> (r: String)
    ensures
        r@ == dom_id("explorer-row-"@, path@),
{
    dom_safe_id("explorer-row-", path)
}

} // verus!
