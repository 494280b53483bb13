//! The Notepad workspace: documents keyed by slug, the tab order, the
//! active document, and the rules that keep them consistent.

use vstd::prelude::*;
use vstd::string::*;
use crate::model::{duplicate_strings, strings_view};
use crate::strings::{decimal, lemma_decimal_injective, push_decimal, str_eq, trim, trimmed};
use crate::paths::{dom_id, dom_safe_id};

verus! {

// ---------------------------------------------------------------------
// Ordered documents
// ---------------------------------------------------------------------

/// Byte order of strings, which for UTF-8 text is the lexicographic order
/// of their characters' code points.
pub open spec fn text_lt(a: Seq<char>, b: Seq<char>) -> bool
    decreases a.len(),
{
    if a.len() == 0 {
        b.len() > 0
    } else if b.len() == 0 {
        false
    } else if a[0] != b[0] {
        a[0] < b[0]
    } else {
        text_lt(a.drop_first(), b.drop_first())
    }
}

pub proof fn lemma_text_lt_irreflexive(a: Seq<char>)
    ensures
        !text_lt(a, a),
    decreases a.len(),
{
    if a.len() > 0 {
        lemma_text_lt_irreflexive(a.drop_first());
    }
}

pub proof fn lemma_text_lt_total(a: Seq<char>, b: Seq<char>)
    ensures
        a == b || text_lt(a, b) || text_lt(b, a),
        !(text_lt(a, b) && text_lt(b, a)),
    decreases a.len(),
{
    if a.len() > 0 && b.len() > 0 {
        lemma_text_lt_total(a.drop_first(), b.drop_first());
        if a[0] == b[0] && a.drop_first() == b.drop_first() {
            assert(a =~= seq![a[0]] + a.drop_first());
            assert(b =~= seq![b[0]] + b.drop_first());
        }
    } else if a.len() == 0 && b.len() == 0 {
        assert(a =~= b);
    }
}

pub proof fn lemma_text_lt_transitive(a: Seq<char>, b: Seq<char>, c: Seq<char>)
    requires
        text_lt(a, b),
        text_lt(b, c),
    ensures
        text_lt(a, c),
    decreases a.len(),
{
    if a.len() > 0 && b.len() > 0 && c.len() > 0 {
        if a[0] == b[0] && b[0] == c[0] {
            lemma_text_lt_transitive(a.drop_first(), b.drop_first(), c.drop_first());
        }
    }
}

/// Documents as (slug, text) pairs ordered strictly by slug.
pub open spec fn docs_sorted(d: Seq<(Seq<char>, Seq<char>)>) -> bool {
    forall|i: int, j: int| 0 <= i < j < d.len() ==> text_lt((#[trigger] d[i]).0, (#[trigger] d[j]).0)
}

pub open spec fn docs_has(d: Seq<(Seq<char>, Seq<char>)>, k: Seq<char>) -> bool {
    exists|i: int| 0 <= i < d.len() && (#[trigger] d[i]).0 == k
}

/// The text stored under `k`.
pub open spec fn docs_get(d: Seq<(Seq<char>, Seq<char>)>, k: Seq<char>) -> Seq<char> {
    d[choose|i: int| 0 <= i < d.len() && (#[trigger] d[i]).0 == k].1
}

/// The documents as a map from slug to text.
pub open spec fn docs_map(d: Seq<(Seq<char>, Seq<char>)>) -> Map<Seq<char>, Seq<char>> {
    Map::new(|k: Seq<char>| docs_has(d, k), |k: Seq<char>| docs_get(d, k))
}

/// The slugs in order.
pub open spec fn docs_keys(d: Seq<(Seq<char>, Seq<char>)>) -> Seq<Seq<char>> {
    d.map_values(|e: (Seq<char>, Seq<char>)| e.0)
}

pub open spec fn pairs_view(v: Seq<(String, String)>) -> Seq<(Seq<char>, Seq<char>)> {
    v.map_values(|e: (String, String)| (e.0@, e.1@))
}

proof fn lemma_docs_get_at(d: Seq<(Seq<char>, Seq<char>)>, i: int)
    requires
        docs_sorted(d),
        0 <= i < d.len(),
    ensures
        docs_has(d, d[i].0),
        docs_get(d, d[i].0) == d[i].1,
{
    let k = choose|j: int| 0 <= j < d.len() && (#[trigger] d[j]).0 == d[i].0;
    if k != i {
        if k < i {
            lemma_text_lt_irreflexive(d[i].0);
        } else {
            lemma_text_lt_irreflexive(d[i].0);
        }
    }
}

/// Position of `key` among sorted documents: the first slug not below it.
fn lower_bound(docs: &Vec<(String, String)>, key: &str) -> (r: usize)
    requires
        docs_sorted(pairs_view(docs@)),
    ensures
        r <= docs@.len(),
        forall|j: int| 0 <= j < r ==> text_lt((#[trigger] pairs_view(docs@)[j]).0, key@),
        r < docs@.len() ==> !text_lt(pairs_view(docs@)[r as int].0, key@),
{
    let ghost d = pairs_view(docs@);
    let mut i: usize = 0;
    while i < docs.len()
        invariant
            d == pairs_view(docs@),
            docs_sorted(d),
            i <= docs@.len(),
            forall|j: int| 0 <= j < i ==> text_lt((#[trigger] d[j]).0, key@),
        decreases docs@.len() - i,
    {
        assert(d[i as int].0 == docs@[i as int].0@);
        if !text_less(docs[i].0.as_str(), key) {
            return i;
        }
        i = i + 1;
    }
    i
}

/// Whether `a` comes before `b` in byte order.
pub fn text_less(a: &str, b: &str) -> (r: bool)
    ensures
        r == text_lt(a@, b@),
{
    let n = a.unicode_len();
    let m = b.unicode_len();
    let mut i: usize = 0;
    assert(a@.skip(0) =~= a@);
    assert(b@.skip(0) =~= b@);
    while i < n && i < m
        invariant
            n == a@.len(),
            m == b@.len(),
            i <= n,
            i <= m,
            text_lt(a@, b@) == text_lt(a@.skip(i as int), b@.skip(i as int)),
        decreases n - i,
    {
        let x = a.get_char(i);
        let y = b.get_char(i);
        proof {
            assert(a@.skip(i as int)[0] == x);
            assert(b@.skip(i as int)[0] == y);
            assert(a@.skip(i as int).drop_first() =~= a@.skip(i + 1));
            assert(b@.skip(i as int).drop_first() =~= b@.skip(i + 1));
        }
        if x != y {
            return x < y;
        }
        i = i + 1;
    }
    m > i
}

/// Looks up the document stored under `key`.
pub fn docs_lookup(docs: &Vec<(String, String)>, key: &str) -> (r: Option<usize>)
    requires
        docs_sorted(pairs_view(docs@)),
    ensures
        match r {
            Some(i) => i < docs@.len() && pairs_view(docs@)[i as int].0 == key@ && docs_has(pairs_view(docs@), key@)
                && docs_get(pairs_view(docs@), key@) == pairs_view(docs@)[i as int].1,
            None => !docs_has(pairs_view(docs@), key@),
        },
{
    let ghost d = pairs_view(docs@);
    let i = lower_bound(docs, key);
    if i < docs.len() && str_eq(docs[i].0.as_str(), key) {
        proof {
            lemma_docs_get_at(d, i as int);
        }
        return Some(i);
    }
    proof {
        if docs_has(d, key@) {
            let k = choose|k: int| 0 <= k < d.len() && (#[trigger] d[k]).0 == key@;
            lemma_text_lt_irreflexive(key@);
            if k >= i {
                assert(i < d.len());
                if k > i {
                    assert(text_lt(d[i as int].0, d[k].0));
                    lemma_text_lt_total(d[i as int].0, key@);
                } else {
                    assert(d[i as int].0 == docs@[i as int].0@);
                }
            }
        }
    }
    None
}

/// Stores `text` under `key`, replacing an earlier text and keeping the
/// slugs ordered.
pub fn docs_insert(docs: &mut Vec<(String, String)>, key: String, text: String)
    requires
        docs_sorted(pairs_view(old(docs)@)),
    ensures
        docs_sorted(pairs_view(final(docs)@)),
        docs_map(pairs_view(final(docs)@)) == docs_map(pairs_view(old(docs)@)).insert(key@, text@),
{
    let ghost d = pairs_view(docs@);
    let i = lower_bound(docs, key.as_str());
    let ghost e = (key@, text@);
    if i < docs.len() && str_eq(docs[i].0.as_str(), key.as_str()) {
        docs.set(i, (key, text));
        proof {
            let d2 = pairs_view(docs@);
            assert(d2 =~= d.update(i as int, e));
            assert(docs_sorted(d2)) by {
                assert forall|a: int, b: int| 0 <= a < b < d2.len() implies text_lt((#[trigger] d2[a]).0, (#[trigger] d2[b]).0) by {
                    assert(d2[a].0 == d[a].0 && d2[b].0 == d[b].0);
                }
            }
            lemma_docs_map_update(d, d2, i as int);
        }
    } else {
        docs.insert(i, (key, text));
        proof {
            let d2 = pairs_view(docs@);
            assert(d2 =~= d.insert(i as int, e));
            if i < d.len() {
                lemma_text_lt_total(d[i as int].0, e.0);
                assert(text_lt(e.0, d[i as int].0));
            }
            assert(docs_sorted(d2)) by {
                assert forall|a: int, b: int| 0 <= a < b < d2.len() implies text_lt((#[trigger] d2[a]).0, (#[trigger] d2[b]).0) by {
                    if b < i {
                        assert(d2[a] == d[a] && d2[b] == d[b]);
                    } else if b == i {
                        assert(d2[a] == d[a]);
                    } else if a == i {
                        assert(d2[b] == d[b - 1]);
                        if b - 1 > i {
                            lemma_text_lt_transitive(e.0, d[i as int].0, d[b - 1].0);
                        }
                    } else if a < i {
                        assert(d2[a] == d[a] && d2[b] == d[b - 1]);
                    } else {
                        assert(d2[a] == d[a - 1] && d2[b] == d[b - 1]);
                    }
                }
            }
            lemma_docs_map_insert(d, d2, i as int);
        }
    }
}

proof fn lemma_docs_map_update(d: Seq<(Seq<char>, Seq<char>)>, d2: Seq<(Seq<char>, Seq<char>)>, i: int)
    requires
        docs_sorted(d),
        docs_sorted(d2),
        0 <= i < d.len(),
        d2.len() == d.len(),
        d2[i].0 == d[i].0,
        forall|j: int| 0 <= j < d.len() && j != i ==> d2[j] == d[j],
    ensures
        docs_map(d2) == docs_map(d).insert(d2[i].0, d2[i].1),
{
    let k0 = d2[i].0;
    assert forall|k: Seq<char>| #[trigger] docs_map(d2).contains_key(k) == docs_map(d).insert(k0, d2[i].1).contains_key(k) by {
        if docs_has(d2, k) {
            let j = choose|j: int| 0 <= j < d2.len() && (#[trigger] d2[j]).0 == k;
            if j != i {
                assert(d[j] == d2[j]);
            }
        }
        if docs_has(d, k) {
            let j = choose|j: int| 0 <= j < d.len() && (#[trigger] d[j]).0 == k;
            if j != i {
                assert(d[j] == d2[j]);
            } else {
                assert(d2[i].0 == k);
            }
        }
        if k == k0 {
            assert(d2[i].0 == k);
        }
    }
    assert forall|k: Seq<char>| #[trigger] docs_map(d2).contains_key(k) implies docs_map(d2)[k] == docs_map(d).insert(k0, d2[i].1)[k] by {
        let j = choose|j: int| 0 <= j < d2.len() && (#[trigger] d2[j]).0 == k;
        lemma_docs_get_at(d2, j);
        if j != i {
            assert(d[j] == d2[j]);
            lemma_docs_get_at(d, j);
            if k == k0 {
                lemma_text_lt_irreflexive(k);
            }
        } else {
            assert(k == k0);
        }
    }
    assert(docs_map(d2) =~= docs_map(d).insert(k0, d2[i].1));
}

proof fn lemma_docs_map_insert(d: Seq<(Seq<char>, Seq<char>)>, d2: Seq<(Seq<char>, Seq<char>)>, i: int)
    requires
        docs_sorted(d),
        docs_sorted(d2),
        0 <= i <= d.len(),
        d2.len() == d.len() + 1,
        forall|j: int| 0 <= j < i ==> d2[j] == d[j],
        forall|j: int| i < j < d2.len() ==> d2[j] == d[j - 1],
    ensures
        docs_map(d2) == docs_map(d).insert(d2[i].0, d2[i].1),
{
    let k0 = d2[i].0;
    assert forall|k: Seq<char>| #[trigger] docs_map(d2).contains_key(k) == docs_map(d).insert(k0, d2[i].1).contains_key(k) by {
        if docs_has(d2, k) && k != k0 {
            let j = choose|j: int| 0 <= j < d2.len() && (#[trigger] d2[j]).0 == k;
            if j < i {
                assert(d[j] == d2[j]);
            } else if j > i {
                assert(d[j - 1] == d2[j]);
            }
        }
        if docs_has(d, k) {
            let j = choose|j: int| 0 <= j < d.len() && (#[trigger] d[j]).0 == k;
            if j < i {
                assert(d2[j] == d[j]);
            } else {
                assert(d2[j + 1] == d[j]);
            }
        }
        if k == k0 {
            assert(d2[i].0 == k);
        }
    }
    assert forall|k: Seq<char>| #[trigger] docs_map(d2).contains_key(k) implies docs_map(d2)[k] == docs_map(d).insert(k0, d2[i].1)[k] by {
        let j = choose|j: int| 0 <= j < d2.len() && (#[trigger] d2[j]).0 == k;
        lemma_docs_get_at(d2, j);
        if j == i {
            assert(k == k0);
        } else {
            if k == k0 {
                lemma_text_lt_irreflexive(k);
            }
            if j < i {
                assert(d[j] == d2[j]);
                lemma_docs_get_at(d, j);
            } else {
                assert(d[j - 1] == d2[j]);
                lemma_docs_get_at(d, j - 1);
            }
        }
    }
    assert(docs_map(d2) =~= docs_map(d).insert(k0, d2[i].1));
}

// ---------------------------------------------------------------------
// Slugs and sample notes
// ---------------------------------------------------------------------

pub const NOTEPAD_STATE_SCHEMA_VERSION: u32 = 1;

/// A requested slug, trimmed; an empty one means `welcome`.
pub open spec fn slug_of(slug: Seq<char>) -> Seq<char> {
    if trimmed(slug).len() == 0 {
        "welcome"@
    } else {
        trimmed(slug)
    }
}

pub fn normalized_slug(slug: &str) -> (r: String)
    ensures
        r@ == slug_of(slug@),
{
    let t = trim(slug);
    if t.unicode_len() == 0 {
        String::from_str("welcome")
    } else {
        String::from_str(t)
    }
}

/// The text a new document starts with.
pub open spec fn sample_text(slug: Seq<char>) -> Seq<char> {
    if slug == "about"@ {
        "Justin Short Personal Workstation\n===============================\n\nThis debranded desktop shell is the primary interface for the site.\nIt is built with Leptos + Rust/WASM and organized around a reusable\nwindow manager runtime.\n\nGoals:\n- playful interaction\n- durable architecture\n- low-friction publishing\n"@
    } else if slug == "terminal-cheatsheet"@ {
        "Terminal Commands\n----------------\nhelp\nopen projects\nopen notes <slug>\nsearch <query>\ntheme <name>\ndial\n"@
    } else {
        "Welcome ("@ + slug + ")\n-----------------\nThis Notepad workspace now persists documents, wrap settings, and open tabs\ninto a versioned IndexedDB app-state namespace (`app.notepad`).\n\nYou can edit this text and it will hydrate on the next boot.\n"@
    }
}

pub fn sample_note(slug: &str) -> (r: String)
    ensures
        r@ == sample_text(slug@),
{
    if str_eq(slug, "about") {
        String::from_str("Justin Short Personal Workstation\n===============================\n\nThis debranded desktop shell is the primary interface for the site.\nIt is built with Leptos + Rust/WASM and organized around a reusable\nwindow manager runtime.\n\nGoals:\n- playful interaction\n- durable architecture\n- low-friction publishing\n")
    } else if str_eq(slug, "terminal-cheatsheet") {
        String::from_str("Terminal Commands\n----------------\nhelp\nopen projects\nopen notes <slug>\nsearch <query>\ntheme <name>\ndial\n")
    } else {
        String::from_str("Welcome (").concat(slug).concat(")\n-----------------\nThis Notepad workspace now persists documents, wrap settings, and open tabs\ninto a versioned IndexedDB app-state namespace (`app.notepad`).\n\nYou can edit this text and it will hydrate on the next boot.\n")
    }
}

/// DOM id of a document tab.
pub fn tab_dom_id(slug: &str) -> (r: String)
    ensures
        r@ == dom_id("notepad-tab-"@, slug@),
{
    dom_safe_id("notepad-tab-", slug)
}

// ---------------------------------------------------------------------
// Workspace
// ---------------------------------------------------------------------

/// The Notepad workspace: open documents keyed by slug (ordered by slug),
/// the tab order, the active document and the wrap setting.
pub struct NotepadWorkspaceState {
    pub wrap_lines: bool,
    pub active_slug: String,
    pub open_order: Vec<String>,
    pub documents: Vec<(String, String)>,
}

pub struct WorkspaceView {
    pub wrap_lines: bool,
    pub active_slug: Seq<char>,
    pub open_order: Seq<Seq<char>>,
    pub documents: Seq<(Seq<char>, Seq<char>)>,
}

impl View for NotepadWorkspaceState {
    type V = WorkspaceView;

    open spec fn view(&self) -> WorkspaceView {
        WorkspaceView {
            wrap_lines: self.wrap_lines,
            active_slug: self.active_slug@,
            open_order: strings_view(self.open_order@),
            documents: pairs_view(self.documents@),
        }
    }
}

/// The workspace with its documents taken as a map from slug to text.
pub struct WorkspaceModel {
    pub wrap_lines: bool,
    pub active_slug: Seq<char>,
    pub open_order: Seq<Seq<char>>,
    pub documents: Map<Seq<char>, Seq<char>>,
}

pub open spec fn model_of(w: WorkspaceView) -> WorkspaceModel {
    WorkspaceModel {
        wrap_lines: w.wrap_lines,
        active_slug: w.active_slug,
        open_order: w.open_order,
        documents: docs_map(w.documents),
    }
}

/// The slugs of `open` that name a document, in order.
pub open spec fn present_slugs(open: Seq<Seq<char>>, d: Map<Seq<char>, Seq<char>>) -> Seq<Seq<char>>
    decreases open.len(),
{
    if open.len() == 0 {
        Seq::empty()
    } else {
        let r = present_slugs(open.drop_last(), d);
        if d.contains_key(open.last()) {
            r.push(open.last())
        } else {
            r
        }
    }
}

/// The slugs of `keys` that `open` lacks, in order.
pub open spec fn missing_slugs(keys: Seq<Seq<char>>, open: Seq<Seq<char>>) -> Seq<Seq<char>>
    decreases keys.len(),
{
    if keys.len() == 0 {
        Seq::empty()
    } else {
        let r = missing_slugs(keys.drop_last(), open);
        if open.contains(keys.last()) {
            r
        } else {
            r.push(keys.last())
        }
    }
}

/// The tabs that survive normalization before unlisted documents are
/// added: the listed slugs that name documents, or `welcome` when none do.
pub open spec fn base_tabs(w: WorkspaceModel) -> Seq<Seq<char>> {
    if present_slugs(w.open_order, w.documents).len() == 0 {
        seq!["welcome"@]
    } else {
        present_slugs(w.open_order, w.documents)
    }
}

/// The documents after normalization: a `welcome` document is created
/// when no listed tab names a document and it does not exist yet.
pub open spec fn normalized_docs(w: WorkspaceModel) -> Map<Seq<char>, Seq<char>> {
    if present_slugs(w.open_order, w.documents).len() == 0 && !w.documents.contains_key("welcome"@) {
        w.documents.insert("welcome"@, sample_text("welcome"@))
    } else {
        w.documents
    }
}

/// What normalization gives: every tab names a document, every document
/// has a tab (unlisted ones appended in slug order), and the active slug
/// names a document (else the first tab).
pub open spec fn normalized_from(w: WorkspaceModel, r: WorkspaceView) -> bool {
    &&& docs_sorted(r.documents)
    &&& docs_map(r.documents) == normalized_docs(w)
    &&& r.active_slug == (if normalized_docs(w).contains_key(w.active_slug) {
        w.active_slug
    } else {
        base_tabs(w)[0]
    })
    &&& r.open_order == base_tabs(w) + missing_slugs(docs_keys(r.documents), base_tabs(w))
    &&& r.wrap_lines == w.wrap_lines
}

fn contains_text(v: &Vec<String>, t: &str) -> (b: bool)
    ensures
        b == strings_view(v@).contains(t@),
{
    let mut i: usize = 0;
    while i < v.len()
        invariant
            i <= v@.len(),
            forall|k: int| 0 <= k < i ==> v@[k]@ != t@,
        decreases v@.len() - i,
    {
        if str_eq(v[i].as_str(), t) {
            assert(strings_view(v@)[i as int] == t@);
            return true;
        }
        i = i + 1;
    }
    proof {
        if strings_view(v@).contains(t@) {
            let k = choose|k: int| 0 <= k < strings_view(v@).len() && strings_view(v@)[k] == t@;
            assert(v@[k]@ == t@);
        }
    }
    false
}

impl NotepadWorkspaceState {
    /// Keeps tabs, documents and the active slug consistent.
    pub fn normalize(&mut self)
        requires
            docs_sorted(old(self)@.documents),
        ensures
            normalized_from(model_of(old(self)@), final(self)@),
    {
        let ghost w0 = self@;
        let ghost w = model_of(w0);
        let mut kept: Vec<String> = Vec::new();
        let mut i: usize = 0;
        assert(w.open_order.take(0) =~= Seq::<Seq<char>>::empty());
        while i < self.open_order.len()
            invariant
                w0 == old(self)@,
                w == model_of(w0),
                self@ == w0,
                docs_sorted(w0.documents),
                i <= w.open_order.len(),
                strings_view(kept@) == present_slugs(w.open_order.take(i as int), w.documents),
            decreases w.open_order.len() - i,
        {
            let slug = &self.open_order[i];
            let ghost before = kept@;
            proof {
                assert(w.open_order.take(i + 1).drop_last() =~= w.open_order.take(i as int));
                assert(w.open_order.take(i + 1).last() == slug@);
            }
            if docs_lookup(&self.documents, slug.as_str()).is_some() {
                kept.push(slug.clone());
                assert(strings_view(kept@) =~= strings_view(before).push(slug@));
            }
            i = i + 1;
        }
        assert(w.open_order.take(i as int) =~= w.open_order);
        if kept.len() == 0 {
            if docs_lookup(&self.documents, "welcome").is_none() {
                docs_insert(&mut self.documents, String::from_str("welcome"), sample_note("welcome"));
            }
            kept.push(String::from_str("welcome"));
            assert(strings_view(kept@) =~= seq!["welcome"@]);
        }
        proof {
            if !(present_slugs(w.open_order, w.documents).len() == 0 && !w.documents.contains_key("welcome"@)) {
                assert(docs_map(pairs_view(self.documents@)) =~= w.documents);
            }
        }
        let ghost base = strings_view(kept@);
        assert(base == base_tabs(w));
        assert(docs_map(pairs_view(self.documents@)) == normalized_docs(w));
        if docs_lookup(&self.documents, self.active_slug.as_str()).is_none() {
            self.active_slug = kept[0].clone();
        }
        let ghost d = pairs_view(self.documents@);
        let mut order: Vec<String> = duplicate_strings(&kept);
        assert(base + missing_slugs(Seq::<Seq<char>>::empty(), base) =~= base);
        let mut k: usize = 0;
        assert(docs_keys(d).take(0) =~= Seq::<Seq<char>>::empty());
        while k < self.documents.len()
            invariant
                d == pairs_view(self.documents@),
                base == strings_view(kept@),
                k <= d.len(),
                strings_view(order@) == base + missing_slugs(docs_keys(d).take(k as int), base),
            decreases d.len() - k,
        {
            let key = &self.documents[k].0;
            let ghost before = order@;
            proof {
                assert(docs_keys(d).take(k + 1).drop_last() =~= docs_keys(d).take(k as int));
                assert(docs_keys(d).take(k + 1).last() == key@);
            }
            if !contains_text(&kept, key.as_str()) {
                order.push(key.clone());
                assert(strings_view(order@) =~= strings_view(before).push(key@));
            }
            k = k + 1;
        }
        assert(docs_keys(d).take(k as int) =~= docs_keys(d));
        self.open_order = order;
    }
}

/// The workspace that the notes deep link for `slug` opens when nothing
/// is stored: that one document, shown and active, with wrapped lines.
pub open spec fn fresh_workspace(slug: Seq<char>) -> WorkspaceView {
    WorkspaceView {
        wrap_lines: true,
        active_slug: slug_of(slug),
        open_order: seq![slug_of(slug)],
        documents: seq![(slug_of(slug), sample_text(slug_of(slug)))],
    }
}

/// The workspace after asking for document `slug`: created from its
/// sample text when missing, given a tab when it has none, and made
/// active.
pub open spec fn with_document(w: WorkspaceModel, slug: Seq<char>) -> WorkspaceModel {
    let s = slug_of(slug);
    WorkspaceModel {
        documents: if w.documents.contains_key(s) {
            w.documents
        } else {
            w.documents.insert(s, sample_text(s))
        },
        open_order: if w.open_order.contains(s) {
            w.open_order
        } else {
            w.open_order.push(s)
        },
        active_slug: s,
        ..w
    }
}

/// The tab `delta` steps from the active one, cyclically (from the first
/// tab when the active slug has none).
pub open spec fn tab_after(open: Seq<Seq<char>>, active: Seq<char>, delta: int) -> int {
    let current = if open.contains(active) {
        first_tab_index(open, active)
    } else {
        0
    };
    (current + delta) % (open.len() as int)
}

/// The first tab showing `active`.
pub open spec fn first_tab_index(open: Seq<Seq<char>>, active: Seq<char>) -> int {
    choose|i: int| 0 <= i < open.len() && open[i] == active && forall|j: int| 0 <= j < i ==> open[j] != active
}

proof fn lemma_neg_mod(a: int, n: int)
    requires
        n > 0,
        a > 0,
    ensures
        (-a) % n == (if a % n == 0 {
            0
        } else {
            n - a % n
        }),
{
    let r = a % n;
    let t = a / n;
    vstd::arithmetic::div_mod::lemma_fundamental_div_mod(a, n);
    if r == 0 {
        vstd::arithmetic::div_mod::lemma_mod_multiples_vanish(-t, 0, n);
        assert(n * (-t) + 0 == -a) by (nonlinear_arith)
            requires
                a == n * t + r,
                r == 0,
        ;
    } else {
        vstd::arithmetic::div_mod::lemma_mod_multiples_vanish(-t - 1, n - r, n);
        assert(n * (-t - 1) + (n - r) == -a) by (nonlinear_arith)
            requires
                a == n * t + r,
        ;
        vstd::arithmetic::div_mod::lemma_small_mod((n - r) as nat, n as nat);
    }
}

impl NotepadWorkspaceState {
    /// A workspace holding the sample document for `slug`.
    pub fn new(slug: &str) -> (r: Self)
        ensures
            r@ == fresh_workspace(slug@),
            docs_sorted(r@.documents),
    {
        let s = normalized_slug(slug);
        let text = sample_note(s.as_str());
        let mut documents: Vec<(String, String)> = Vec::new();
        documents.push((s.clone(), text));
        let mut open_order: Vec<String> = Vec::new();
        open_order.push(s.clone());
        let r = NotepadWorkspaceState { wrap_lines: true, active_slug: s, open_order, documents };
        assert(r@.open_order =~= seq![slug_of(slug@)]);
        assert(r@.documents =~= seq![(slug_of(slug@), sample_text(slug_of(slug@)))]);
        r
    }

    /// Opens document `slug` (creating it from its sample text) and makes
    /// it active.
    pub fn ensure_document(&mut self, slug: &str)
        requires
            docs_sorted(old(self)@.documents),
        ensures
            normalized_from(with_document(model_of(old(self)@), slug@), final(self)@),
    {
        let ghost w = model_of(self@);
        let s = normalized_slug(slug);
        if docs_lookup(&self.documents, s.as_str()).is_none() {
            let text = sample_note(s.as_str());
            docs_insert(&mut self.documents, s.clone(), text);
        }
        proof {
            if docs_has(old(self)@.documents, s@) {
                assert(docs_map(pairs_view(self.documents@)) =~= w.documents);
            }
        }
        if !contains_text(&self.open_order, s.as_str()) {
            self.open_order.push(s.clone());
            assert(strings_view(self.open_order@) =~= w.open_order.push(s@));
        }
        self.active_slug = s;
        assert(model_of(self@) == with_document(w, slug@));
        self.normalize();
    }

    /// The text of the active document (empty when it has none).
    pub fn active_text(&self) -> (r: String)
        requires
            docs_sorted(self@.documents),
        ensures
            r@ == (if docs_map(self@.documents).contains_key(self@.active_slug) {
                docs_map(self@.documents)[self@.active_slug]
            } else {
                Seq::<char>::empty()
            }),
    {
        match docs_lookup(&self.documents, self.active_slug.as_str()) {
            Some(i) => self.documents[i].1.clone(),
            None => String::new(),
        }
    }

    /// Replaces the text of the active document.
    pub fn set_active_text(&mut self, text: String)
        requires
            docs_sorted(old(self)@.documents),
        ensures
            normalized_from(
                WorkspaceModel {
                    documents: docs_map(old(self)@.documents).insert(old(self)@.active_slug, text@),
                    ..model_of(old(self)@)
                },
                final(self)@,
            ),
    {
        let key = self.active_slug.clone();
        docs_insert(&mut self.documents, key, text);
        self.normalize();
    }

    /// Makes tab `idx` active, when there is such a tab.
    pub fn select_index(&mut self, idx: usize)
        requires
            docs_sorted(old(self)@.documents),
        ensures
            normalized_from(
                WorkspaceModel {
                    active_slug: if idx < old(self)@.open_order.len() {
                        old(self)@.open_order[idx as int]
                    } else {
                        old(self)@.active_slug
                    },
                    ..model_of(old(self)@)
                },
                final(self)@,
            ),
    {
        if idx < self.open_order.len() {
            self.active_slug = self.open_order[idx].clone();
        }
        self.normalize();
    }
}

/// The name of the `k`-th scratch document: `scratch`, then `scratch-2`,
/// `scratch-3`, and so on.
pub open spec fn scratch_slug(k: nat) -> Seq<char> {
    if k <= 1 {
        "scratch"@
    } else {
        "scratch-"@ + decimal(k)
    }
}

proof fn lemma_scratch_slug_injective(a: nat, b: nat)
    requires
        1 <= a,
        1 <= b,
        scratch_slug(a) == scratch_slug(b),
    ensures
        a == b,
{
    reveal_strlit("scratch");
    reveal_strlit("scratch-");
    if a > 1 && b > 1 {
        let pa = "scratch-"@ + decimal(a);
        let pb = "scratch-"@ + decimal(b);
        assert(pa.subrange(8, pa.len() as int) =~= decimal(a));
        assert(pb.subrange(8, pb.len() as int) =~= decimal(b));
        lemma_decimal_injective(a, b);
    } else if a > 1 {
        assert(scratch_slug(a)[7] == '-');
        assert(scratch_slug(a).len() > 7);
    } else if b > 1 {
        assert(scratch_slug(b)[7] == '-');
        assert(scratch_slug(b).len() > 7);
    }
}

/// Sorted documents hold at most as many scratch documents as entries.
proof fn lemma_scratch_bound(d: Seq<(Seq<char>, Seq<char>)>, m: nat)
    requires
        forall|k: nat| 1 <= k <= m ==> #[trigger] docs_has(d, scratch_slug(k)),
    ensures
        m <= d.len(),
{
    let xs = vstd::set_lib::set_int_range(1, m as int + 1);
    vstd::set_lib::lemma_int_range(1, m as int + 1);
    let f = |k: int| scratch_slug(k as nat);
    assert(vstd::relations::injective_on(f, xs)) by {
        assert forall|a: int, b: int| xs.contains(a) && xs.contains(b) && #[trigger] f(a) == #[trigger] f(b) implies a == b by {
            lemma_scratch_slug_injective(a as nat, b as nat);
        }
    }
    let ys = xs.map(f);
    vstd::set_lib::lemma_map_size(xs, ys, f);
    let keys = docs_keys(d);
    keys.lemma_cardinality_of_set();
    assert(ys.subset_of(keys.to_set())) by {
        assert forall|y: Seq<char>| ys.contains(y) implies keys.to_set().contains(y) by {
            let k = choose|k: int| xs.contains(k) && f(k) == y;
            assert(docs_has(d, scratch_slug(k as nat)));
            let i = choose|i: int| 0 <= i < d.len() && (#[trigger] d[i]).0 == scratch_slug(k as nat);
            assert(keys[i] == y);
        }
    }
    vstd::set_lib::lemma_len_subset(ys, keys.to_set());
}

fn scratch_name(k: usize) -> (r: String)
    requires
        k >= 1,
    ensures
        r@ == scratch_slug(k as nat),
{
    if k == 1 {
        String::from_str("scratch")
    } else {
        let mut s = String::from_str("scratch-");
        push_decimal(&mut s, k as u64);
        s
    }
}

/// The first scratch document name not yet taken.
pub open spec fn first_free_scratch(docs: Map<Seq<char>, Seq<char>>, k: nat) -> bool {
    &&& k >= 1
    &&& !docs.contains_key(scratch_slug(k))
    &&& forall|j: nat| 1 <= j < k ==> docs.contains_key(#[trigger] scratch_slug(j))
}

impl NotepadWorkspaceState {
    /// Cycles the active document `delta` tabs along, after normalizing.
    pub fn move_active_by(&mut self, delta: isize)
        requires
            docs_sorted(old(self)@.documents),
        ensures
            exists|w1: WorkspaceView|
                normalized_from(model_of(old(self)@), w1) && w1.open_order.len() > 0 && normalized_from(
                    WorkspaceModel {
                        active_slug: w1.open_order[tab_after(w1.open_order, w1.active_slug, delta as int)],
                        ..model_of(w1)
                    },
                    final(self)@,
                ),
    {
        self.normalize();
        let ghost w1 = self@;
        proof {
            let m = model_of(old(self)@);
            assert(base_tabs(m).len() >= 1);
            assert(w1.open_order.len() >= base_tabs(m).len());
        }
        let n = self.open_order.len();
        let mut current: usize = 0;
        let mut i: usize = 0;
        let mut found = false;
        while i < n
            invariant
                w1 == self@,
                n == w1.open_order.len(),
                i <= n,
                !found ==> forall|j: int| 0 <= j < i ==> w1.open_order[j] != w1.active_slug,
                !found ==> current == 0,
                found ==> current < n && w1.open_order[current as int] == w1.active_slug && forall|j: int|
                    0 <= j < current ==> w1.open_order[j] != w1.active_slug,
            decreases n - i,
        {
            if !found && str_eq(self.open_order[i].as_str(), self.active_slug.as_str()) {
                current = i;
                found = true;
            }
            i = i + 1;
        }
        proof {
            let open = w1.open_order;
            if open.contains(w1.active_slug) {
                let k = first_tab_index(open, w1.active_slug);
                if !found {
                    let t = choose|t: int| 0 <= t < open.len() && open[t] == w1.active_slug;
                    assert(false);
                }
                assert(k == current) by {
                    if k < current {
                        assert(open[k] != w1.active_slug);
                    } else if k > current {
                        assert(open[current as int] == w1.active_slug);
                    }
                }
            } else {
                if found {
                    assert(open[current as int] == w1.active_slug);
                    assert(open.contains(w1.active_slug));
                }
                assert(!found);
                assert(current == 0);
            }
            assert((if open.contains(w1.active_slug) {
                first_tab_index(open, w1.active_slug)
            } else {
                0
            }) == current as int);
        }
        let sum: i128 = current as i128 + delta as i128;
        let next: usize = if sum >= 0 {
            ((sum as u128) % (n as u128)) as usize
        } else {
            let r = ((-sum) as u128) % (n as u128);
            if r == 0 {
                0
            } else {
                (n as u128 - r) as usize
            }
        };
        proof {
            if sum < 0 {
                lemma_neg_mod(-sum as int, n as int);
            }
            let open = w1.open_order;
            let cur_spec = if open.contains(w1.active_slug) {
                first_tab_index(open, w1.active_slug)
            } else {
                0
            };
            assert(cur_spec == current as int);
            assert(next as int == (current as int + delta as int) % (n as int));
            assert(next as int == tab_after(w1.open_order, w1.active_slug, delta as int));
        }
        self.select_index(next);
    }

    /// Adds an empty scratch document under the first free scratch name
    /// and makes it active.
    pub fn add_scratch(&mut self)
        requires
            docs_sorted(old(self)@.documents),
            old(self)@.documents.len() < usize::MAX,
        ensures
            exists|k: nat|
                first_free_scratch(docs_map(old(self)@.documents), k) && normalized_from(
                    WorkspaceModel {
                        documents: docs_map(old(self)@.documents).insert(scratch_slug(k), Seq::empty()),
                        open_order: old(self)@.open_order.push(scratch_slug(k)),
                        active_slug: scratch_slug(k),
                        ..model_of(old(self)@)
                    },
                    final(self)@,
                ),
    {
        let ghost w = self@;
        let ghost d = w.documents;
        let n = self.documents.len();
        let mut index: usize = 1;
        let mut slug = scratch_name(1);
        while docs_lookup(&self.documents, slug.as_str()).is_some()
            invariant
                self@ == w,
                d == w.documents,
                docs_sorted(d),
                n == d.len(),
                n < usize::MAX,
                1 <= index <= n + 1,
                slug@ == scratch_slug(index as nat),
                forall|j: nat| 1 <= j < index ==> #[trigger] docs_has(d, scratch_slug(j)),
            decreases n + 1 - index,
        {
            proof {
                assert forall|j: nat| 1 <= j <= index implies #[trigger] docs_has(d, scratch_slug(j)) by {}
                lemma_scratch_bound(d, index as nat);
            }
            index = index + 1;
            slug = scratch_name(index);
        }
        let ghost k = index as nat;
        docs_insert(&mut self.documents, slug.clone(), String::new());
        self.open_order.push(slug.clone());
        self.active_slug = slug;
        proof {
            assert(first_free_scratch(docs_map(d), k)) by {
                assert forall|j: nat| 1 <= j < k implies docs_map(d).contains_key(#[trigger] scratch_slug(j)) by {
                    assert(docs_has(d, scratch_slug(j)));
                }
            }
            assert(strings_view(self.open_order@) =~= w.open_order.push(scratch_slug(k)));
        }
        self.normalize();
    }
}

// ---------------------------------------------------------------------
// Laws
// ---------------------------------------------------------------------

proof fn lemma_present_slugs(open: Seq<Seq<char>>, d: Map<Seq<char>, Seq<char>>)
    ensures
        forall|i: int| 0 <= i < present_slugs(open, d).len() ==> d.contains_key(#[trigger] present_slugs(open, d)[i]),
    decreases open.len(),
{
    if open.len() > 0 {
        lemma_present_slugs(open.drop_last(), d);
        let r = present_slugs(open.drop_last(), d);
        let p = present_slugs(open, d);
        assert forall|i: int| 0 <= i < p.len() implies d.contains_key(#[trigger] p[i]) by {
            if i < r.len() {
                assert(p[i] == r[i]);
            }
        }
    }
}

proof fn lemma_missing_slugs(keys: Seq<Seq<char>>, base: Seq<Seq<char>>)
    ensures
        forall|i: int| 0 <= i < missing_slugs(keys, base).len() ==> keys.contains(#[trigger] missing_slugs(keys, base)[i]),
        forall|i: int| 0 <= i < keys.len() && !base.contains(#[trigger] keys[i]) ==> missing_slugs(keys, base).contains(keys[i]),
    decreases keys.len(),
{
    if keys.len() > 0 {
        let prev = keys.drop_last();
        lemma_missing_slugs(prev, base);
        let r = missing_slugs(prev, base);
        let m = missing_slugs(keys, base);
        assert forall|i: int| 0 <= i < m.len() implies keys.contains(#[trigger] m[i]) by {
            if i < r.len() {
                assert(m[i] == r[i]);
                let j = choose|j: int| 0 <= j < prev.len() && prev[j] == r[i];
                assert(keys[j] == prev[j]);
            } else {
                assert(keys[keys.len() - 1] == keys.last());
            }
        }
        assert forall|i: int| 0 <= i < keys.len() && !base.contains(#[trigger] keys[i]) implies m.contains(keys[i]) by {
            if i < keys.len() - 1 {
                assert(prev[i] == keys[i]);
                let j = choose|j: int| 0 <= j < r.len() && r[j] == keys[i];
                assert(m[j] == r[j]);
            } else {
                assert(keys[i] == keys.last());
                assert(m[m.len() - 1] == keys[i]);
            }
        }
    }
}

/// A normalized workspace is consistent: it has a tab, every tab names a
/// document, every document has a tab, and the active slug names a
/// document.
pub proof fn law_normalized_workspace_is_consistent(w: WorkspaceModel, r: WorkspaceView)
    requires
        normalized_from(w, r),
    ensures
        r.open_order.len() >= 1,
        forall|i: int| 0 <= i < r.open_order.len() ==> docs_map(r.documents).contains_key(#[trigger] r.open_order[i]),
        forall|k: Seq<char>| #[trigger] docs_map(r.documents).contains_key(k) ==> r.open_order.contains(k),
        docs_map(r.documents).contains_key(r.active_slug),
{
    let m = docs_map(r.documents);
    let base = base_tabs(w);
    let keys = docs_keys(r.documents);
    lemma_present_slugs(w.open_order, w.documents);
    lemma_missing_slugs(keys, base);
    reveal_strlit("welcome");
    assert forall|i: int| 0 <= i < base.len() implies m.contains_key(#[trigger] base[i]) by {
        if present_slugs(w.open_order, w.documents).len() == 0 {
            assert(base[i] == "welcome"@);
        } else {
            assert(w.documents.contains_key(base[i]));
        }
    }
    let miss = missing_slugs(keys, base);
    assert forall|i: int| 0 <= i < r.open_order.len() implies m.contains_key(#[trigger] r.open_order[i]) by {
        if i < base.len() {
            assert(r.open_order[i] == base[i]);
        } else {
            assert(r.open_order[i] == miss[i - base.len()]);
            let j = choose|j: int| 0 <= j < keys.len() && keys[j] == miss[i - base.len()];
            lemma_docs_get_at(r.documents, j);
        }
    }
    assert forall|k: Seq<char>| #[trigger] m.contains_key(k) implies r.open_order.contains(k) by {
        let j = choose|j: int| 0 <= j < r.documents.len() && (#[trigger] r.documents[j]).0 == k;
        assert(keys[j] == k);
        if base.contains(k) {
            let t = choose|t: int| 0 <= t < base.len() && base[t] == k;
            assert(r.open_order[t] == k);
        } else {
            let t = choose|t: int| 0 <= t < miss.len() && miss[t] == k;
            assert(r.open_order[base.len() + t] == k);
        }
    }
    assert(m.contains_key(base[0]));
}

// ---------------------------------------------------------------------
// Status line
// ---------------------------------------------------------------------

/// The number of lines `str::lines` yields: one per line break, plus one
/// for a last line without a break; none for empty text.
pub open spec fn line_count_spec(text: Seq<char>) -> nat {
    text.filter(|c: char| c == '\n').len() + (if text.len() > 0 && text.last() != '\n' {
        1nat
    } else {
        0nat
    })
}

/// The number of lines of a text, as the status bar shows it.
pub fn text_line_count(text: &str) -> (r: usize)
    ensures
        r == line_count_spec(text@),
{
    let n = text.unicode_len();
    let mut breaks: usize = 0;
    let mut i: usize = 0;
    assert(text@.take(0).filter(|c: char| c == '\n') =~= Seq::<char>::empty());
    while i < n
        invariant
            n == text@.len(),
            i <= n,
            breaks <= i,
            i > 0 && text@[i - 1] != '\n' ==> breaks < i,
            breaks == text@.take(i as int).filter(|c: char| c == '\n').len(),
        decreases n - i,
    {
        let c = text.get_char(i);
        proof {
            text@.take(i as int).lemma_filter_push(c, |c: char| c == '\n');
            assert(text@.take(i as int).push(c) =~= text@.take(i + 1));
        }
        if c == '\n' {
            breaks = breaks + 1;
        }
        i = i + 1;
    }
    assert(text@.take(n as int) =~= text@);
    if n > 0 && text.get_char(n - 1) != '\n' {
        breaks + 1
    } else {
        breaks
    }
}

/// The number of characters of a text, as the status bar shows it.
pub fn text_char_count(text: &str) -> (r: usize)
    ensures
        r == text@.len(),
{
    text.unicode_len()
}

/// The document title: the active slug with a `.txt` extension.
pub fn document_title(active_slug: &str) -> (r: String)
    ensures
        r@ == active_slug@ + ".txt"@,
{
    String::from_str(active_slug).concat(".txt")
}

/// The document header: how many documents are open and whether the
/// stored workspace has been loaded.
pub fn document_meta(open_count: usize, hydrated: bool) -> (r: String)
    ensures
        r@ == decimal(open_count as nat) + " open doc(s) | "@ + (if hydrated {
            "hydrated"@
        } else {
            "hydrating"@
        }),
{
    let mut s = String::new();
    push_decimal(&mut s, open_count as u64);
    let s = s.concat(" open doc(s) | ");
    if hydrated {
        s.concat("hydrated")
    } else {
        s.concat("hydrating")
    }
}

/// The caption of the line-wrap toggle.
pub fn wrap_toggle_label(wrap_lines: bool) -> (r: &'static str)
    ensures
        r@ == (if wrap_lines {
            "Wrap: On"@
        } else {
            "Wrap: Off"@
        }),
{
    if wrap_lines {
        "Wrap: On"
    } else {
        "Wrap: Off"
    }
}

} // verus!
