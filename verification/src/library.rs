//! The library screen: which materials it lists, in what order, and what each tile says.

use vstd::prelude::*;

use crate::data::MAP_COUNT;
use crate::state::model::{AppModel, AppState};
use crate::state::settings::CreateModel;
use crate::state::settings::CreateStage;
use crate::state::{lib_models, LibMaterial, LibMaterialModel};
use crate::text;
use crate::widgets::Pip;

verus! {

/// How many materials the recent view lists.
pub const RECENT_COUNT: usize = 5;

// ── Order ────────────────────────────────────────────────────────────────

/// The lexicographic order is irreflexive.
proof fn lemma_precedes_irreflexive(a: Seq<char>)
    ensures
        !text::precedes(a, a),
    decreases a.len(),
{
    if a.len() > 0 {
        lemma_precedes_irreflexive(a.drop_first());
    }
}

/// The lexicographic order is transitive.
proof fn lemma_precedes_transitive(a: Seq<char>, b: Seq<char>, c: Seq<char>)
    requires
        text::precedes(a, b),
        text::precedes(b, c),
    ensures
        text::precedes(a, c),
    decreases a.len(),
{
    if a.len() > 0 && b.len() > 0 && c.len() > 0 && a[0] == b[0] && b[0] == c[0] {
        lemma_precedes_transitive(a.drop_first(), b.drop_first(), c.drop_first());
    }
}

/// Two different strings are ordered one way or the other.
proof fn lemma_precedes_total(a: Seq<char>, b: Seq<char>)
    ensures
        a != b ==> text::precedes(a, b) || text::precedes(b, a),
    decreases a.len(),
{
    if a.len() > 0 && b.len() > 0 && a[0] == b[0] {
        lemma_precedes_total(a.drop_first(), b.drop_first());
        if a.drop_first() == b.drop_first() {
            assert(a =~= seq![a[0]] + a.drop_first());
            assert(b =~= seq![b[0]] + b.drop_first());
        }
    } else if a.len() == 0 && b.len() == 0 {
        assert(a =~= b);
    }
}

/// Whether entry `i` is listed before entry `j`: by slug, by falling coverage, or as the library
/// has them; equal entries stay in the library's order.
pub open spec fn listed_before(library: Seq<LibMaterialModel>, sort: usize, i: int, j: int) -> bool {
    let a = library[i];
    let b = library[j];
    if sort == 1 {
        text::precedes(a.slug, b.slug) || (a.slug == b.slug && i < j)
    } else if sort == 2 {
        a.coverage > b.coverage || (a.coverage == b.coverage && i < j)
    } else {
        i < j
    }
}

/// Being listed before is transitive.
proof fn lemma_listed_transitive(library: Seq<LibMaterialModel>, sort: usize, i: int, j: int, k: int)
    requires
        listed_before(library, sort, i, j),
        listed_before(library, sort, j, k),
    ensures
        listed_before(library, sort, i, k),
{
    if sort == 1 {
        let a = library[i].slug;
        let b = library[j].slug;
        let c = library[k].slug;
        if text::precedes(a, b) && text::precedes(b, c) {
            lemma_precedes_transitive(a, b, c);
        }
    }
}

/// Of two entries one is listed before the other.
proof fn lemma_listed_total(library: Seq<LibMaterialModel>, sort: usize, i: int, j: int)
    ensures
        i != j ==> listed_before(library, sort, i, j) || listed_before(library, sort, j, i),
{
    if sort == 1 {
        lemma_precedes_total(library[i].slug, library[j].slug);
    }
}

// ── Filter ───────────────────────────────────────────────────────────────

/// Whether an entry passes the class, the search and the navigation. `search` and `slug` are in
/// small letters.
pub open spec fn passes(
    m: LibMaterialModel,
    class: Seq<char>,
    search: Seq<char>,
    slug: Seq<char>,
    nav: Seq<char>,
) -> bool {
    &&& class == "All"@ || m.class == class
    &&& search.len() == 0 || text::occurs(slug, search)
    &&& nav == "All materials"@ || nav == "Recent"@ || m.project == nav
}

/// The positions below `n` of the entries that pass, in order. `slugs` are the slugs in small
/// letters.
pub open spec fn passing(
    library: Seq<LibMaterialModel>,
    slugs: Seq<Seq<char>>,
    class: Seq<char>,
    search: Seq<char>,
    nav: Seq<char>,
    n: int,
) -> Seq<int>
    decreases n,
{
    if n <= 0 {
        Seq::empty()
    } else {
        let before = passing(library, slugs, class, search, nav, n - 1);
        if passes(library[n - 1], class, search, slugs[n - 1], nav) {
            before.push(n - 1)
        } else {
            before
        }
    }
}

/// The entries that are listed, in the library's order: those that pass, and of those only the
/// first few in the recent view.
pub open spec fn candidates(
    library: Seq<LibMaterialModel>,
    slugs: Seq<Seq<char>>,
    class: Seq<char>,
    search: Seq<char>,
    nav: Seq<char>,
) -> Seq<int> {
    let all = passing(library, slugs, class, search, nav, library.len() as int);
    if nav == "Recent"@ && all.len() > RECENT_COUNT {
        all.take(RECENT_COUNT as int)
    } else {
        all
    }
}

/// Whether a list holds the same positions as another, each once, in the order of a sort.
pub open spec fn sorted_listing(
    list: Seq<int>,
    of: Seq<int>,
    library: Seq<LibMaterialModel>,
    sort: usize,
) -> bool {
    &&& list.len() == of.len()
    &&& forall|x: int| #[trigger] list.contains(x) <==> of.contains(x)
    &&& forall|i: int, j: int|
        0 <= i < j < list.len() ==> listed_before(library, sort, #[trigger] list[i], #[trigger] list[j])
}

/// The positions that a list of indices holds.
pub open spec fn positions(list: Seq<usize>) -> Seq<int> {
    Seq::new(list.len(), |i: int| list[i] as int)
}

/// The passing positions rise.
proof fn lemma_passing_rises(
    library: Seq<LibMaterialModel>,
    slugs: Seq<Seq<char>>,
    class: Seq<char>,
    search: Seq<char>,
    nav: Seq<char>,
    n: int,
)
    ensures
        forall|i: int|
            0 <= i < passing(library, slugs, class, search, nav, n).len() ==> 0
                <= #[trigger] passing(library, slugs, class, search, nav, n)[i] < n,
        forall|i: int, j: int|
            0 <= i < j < passing(library, slugs, class, search, nav, n).len()
                ==> #[trigger] passing(library, slugs, class, search, nav, n)[i]
                < #[trigger] passing(library, slugs, class, search, nav, n)[j],
        passing(library, slugs, class, search, nav, n).len() <= n || n < 0,
    decreases n,
{
    if n > 0 {
        lemma_passing_rises(library, slugs, class, search, nav, n - 1);
    }
}

/// Puts `x` into a sorted list of indices.
fn insert_sorted(list: &mut Vec<usize>, x: usize, library: &Vec<LibMaterial>, sort: usize)
    requires
        x < library@.len(),
        forall|i: int| 0 <= i < old(list)@.len() ==> #[trigger] old(list)@[i] < library@.len(),
        forall|i: int| 0 <= i < old(list)@.len() ==> #[trigger] old(list)@[i] != x,
        forall|i: int, j: int|
            0 <= i < j < old(list)@.len() ==> listed_before(
                lib_models(library@),
                sort,
                #[trigger] old(list)@[i] as int,
                #[trigger] old(list)@[j] as int,
            ),
    ensures
        final(list)@.len() == old(list)@.len() + 1,
        forall|y: usize| #[trigger]
            final(list)@.contains(y) <==> (old(list)@.contains(y) || y == x),
        forall|i: int, j: int|
            0 <= i < j < final(list)@.len() ==> listed_before(
                lib_models(library@),
                sort,
                #[trigger] final(list)@[i] as int,
                #[trigger] final(list)@[j] as int,
            ),
{
    let ghost l = lib_models(library@);
    let ghost before = list@;
    let mut p: usize = list.len();
    while p > 0 && comes_first(library, sort, x, list[p - 1])
        invariant
            p <= list@.len(),
            list@ == before,
            l == lib_models(library@),
            x < library@.len(),
            forall|i: int| 0 <= i < before.len() ==> #[trigger] before[i] < library@.len(),
            forall|i: int|
                p <= i < before.len() ==> listed_before(l, sort, x as int, #[trigger] before[i] as int),
        decreases p,
    {
        p -= 1;
    }
    proof {
        if p > 0 {
            lemma_listed_total(l, sort, x as int, before[p - 1] as int);
        }
        assert forall|i: int| 0 <= i < p implies listed_before(
            l,
            sort,
            #[trigger] before[i] as int,
            x as int,
        ) by {
            if i < p - 1 {
                lemma_listed_transitive(
                    l,
                    sort,
                    before[i] as int,
                    before[p - 1] as int,
                    x as int,
                );
            }
        }
    }
    list.insert(p, x);
    proof {
        let after = list@;
        assert(after =~= before.insert(p as int, x));
        assert forall|y: usize| #[trigger] after.contains(y) <==> (before.contains(y) || y == x) by {
            if before.contains(y) {
                let i = choose|i: int| 0 <= i < before.len() && before[i] == y;
                if i < p {
                    assert(after[i] == y);
                } else {
                    assert(after[i + 1] == y);
                }
            }
            assert(after[p as int] == x);
            if after.contains(y) && y != x {
                let i = choose|i: int| 0 <= i < after.len() && after[i] == y;
                if i < p {
                    assert(before[i] == y);
                } else {
                    assert(before[i - 1] == y);
                }
            }
        }
        assert forall|i: int, j: int| 0 <= i < j < after.len() implies listed_before(
            l,
            sort,
            #[trigger] after[i] as int,
            #[trigger] after[j] as int,
        ) by {
            if j < p {
                assert(after[i] == before[i] && after[j] == before[j]);
            } else if i > p {
                assert(after[i] == before[i - 1] && after[j] == before[j - 1]);
            } else if j == p {
                assert(after[i] == before[i]);
            } else if i == p {
                assert(after[j] == before[j - 1]);
            } else {
                assert(after[i] == before[i] && after[j] == before[j - 1]);
            }
        }
    }
}

/// Whether entry `i` is listed before entry `j`.
fn comes_first(library: &Vec<LibMaterial>, sort: usize, i: usize, j: usize) -> (r: bool)
    requires
        i < library@.len(),
        j < library@.len(),
    ensures
        r == listed_before(lib_models(library@), sort, i as int, j as int),
{
    proof {
        reveal(lib_models);
    }
    let a = &library[i];
    let b = &library[j];
    if sort == 1 {
        text::before(a.slug.as_str(), b.slug.as_str()) || (text::same(
            a.slug.as_str(),
            b.slug.as_str(),
        ) && i < j)
    } else if sort == 2 {
        a.coverage > b.coverage || (a.coverage == b.coverage && i < j)
    } else {
        i < j
    }
}

impl AppState {
    /// The positions of the listed entries, in the order of the chosen sort. `search` is the
    /// search text and `slugs` are the slugs, all in small letters.
    pub fn listing(&self, search: &str, slugs: &Vec<String>) -> (r: Vec<usize>)
        requires
            slugs@.len() == self@.library.len(),
        ensures
            sorted_listing(
                positions(r@),
                candidates(
                    self@.library,
                    text::strings(slugs@),
                    self@.lib_class,
                    search@,
                    self@.lib_nav,
                ),
                self@.library,
                self@.lib_sort,
            ),
            forall|i: int| 0 <= i < r@.len() ==> #[trigger] r@[i] < self@.library.len(),
    {
        let ghost l = self@.library;
        let ghost lower = text::strings(slugs@);
        let ghost all = passing(l, lower, self@.lib_class, search@, self@.lib_nav, l.len() as int);
        let ghost chosen = candidates(l, lower, self@.lib_class, search@, self@.lib_nav);
        proof {
            reveal(lib_models);
            lemma_passing_rises(
                l,
                lower,
                self@.lib_class,
                search@,
                self@.lib_nav,
                l.len() as int,
            );
        }
        let any_class = text::same(self.lib_class.as_str(), "All");
        let recent = text::same(self.lib_nav.as_str(), "Recent");
        let any_nav = recent || text::same(self.lib_nav.as_str(), "All materials");
        let mut base: Vec<usize> = Vec::new();
        let mut i: usize = 0;
        while i < self.library.len()
            invariant
                i <= self.library@.len(),
                l == self@.library,
                lower == text::strings(slugs@),
                l.len() == self.library@.len() == slugs@.len(),
                forall|k: int| 0 <= k < l.len() ==> #[trigger] l[k] == self.library@[k]@,
                any_class == (self@.lib_class == "All"@),
                any_nav == (self@.lib_nav == "All materials"@ || self@.lib_nav == "Recent"@),
                positions(base@) =~= passing(
                    l,
                    lower,
                    self@.lib_class,
                    search@,
                    self@.lib_nav,
                    i as int,
                ),
            decreases self.library@.len() - i,
        {
            let m = &self.library[i];
            let class_ok = any_class || text::same(m.class.as_str(), self.lib_class.as_str());
            let search_ok = search.is_empty() || text::contains(slugs[i].as_str(), search);
            let nav_ok = any_nav || text::same(m.project.as_str(), self.lib_nav.as_str());
            if class_ok && search_ok && nav_ok {
                base.push(i);
            }
            i += 1;
        }
        if recent && base.len() > RECENT_COUNT {
            base.truncate(RECENT_COUNT);
        }
        proof {
            assert(positions(base@) =~= chosen);
            assert forall|a: int| 0 <= a < base@.len() implies #[trigger] base@[a] < l.len() by {
                assert(positions(base@)[a] == all[a]);
            }
            assert forall|a: int, b: int| 0 <= a < b < base@.len() implies #[trigger] base@[a]
                < #[trigger] base@[b] by {
                assert(positions(base@)[a] == all[a]);
                assert(positions(base@)[b] == all[b]);
            }
        }
        let mut out: Vec<usize> = Vec::new();
        let mut k: usize = 0;
        while k < base.len()
            invariant
                k <= base@.len(),
                l == self@.library,
                l == lib_models(self.library@),
                l.len() == self.library@.len(),
                forall|a: int| 0 <= a < base@.len() ==> #[trigger] base@[a] < l.len(),
                forall|a: int, b: int|
                    0 <= a < b < base@.len() ==> #[trigger] base@[a] < #[trigger] base@[b],
                out@.len() == k,
                forall|y: usize| #[trigger] out@.contains(y) <==> base@.take(k as int).contains(y),
                forall|a: int| 0 <= a < out@.len() ==> #[trigger] out@[a] < l.len(),
                forall|a: int, b: int|
                    0 <= a < b < out@.len() ==> listed_before(
                        l,
                        self@.lib_sort,
                        #[trigger] out@[a] as int,
                        #[trigger] out@[b] as int,
                    ),
            decreases base@.len() - k,
        {
            let x: usize = base[k];
            let ghost before = out@;
            proof {
                assert forall|a: int| 0 <= a < before.len() implies #[trigger] before[a] != x by {
                    assert(before.contains(before[a]));
                    let b = choose|b: int| 0 <= b < k && base@.take(k as int)[b] == before[a];
                    assert(base@[b] < base@[k as int]);
                }
            }
            insert_sorted(&mut out, x, &self.library, self.lib_sort);
            proof {
                let part = base@.take(k as int);
                let next = base@.take(k + 1);
                assert(next =~= part.push(x));
                assert forall|y: usize| #[trigger] out@.contains(y) <==> next.contains(y) by {
                    if part.contains(y) {
                        let b = choose|b: int| 0 <= b < part.len() && part[b] == y;
                        assert(next[b] == y);
                    }
                    assert(next[k as int] == x);
                    if next.contains(y) && y != x {
                        let b = choose|b: int| 0 <= b < next.len() && next[b] == y;
                        assert(part[b] == y);
                    }
                }
                assert forall|a: int| 0 <= a < out@.len() implies #[trigger] out@[a] < l.len() by {
                    assert(out@.contains(out@[a]));
                    if out@[a] != x {
                        assert(before.contains(out@[a]));
                        let b = choose|b: int| 0 <= b < before.len() && before[b] == out@[a];
                        assert(before[b] < l.len());
                    }
                }
            }
            k += 1;
        }
        proof {
            assert(base@.take(k as int) =~= base@);
            let list = positions(out@);
            assert forall|x: int| #[trigger] list.contains(x) <==> chosen.contains(x) by {
                if list.contains(x) {
                    let a = choose|a: int| 0 <= a < list.len() && list[a] == x;
                    assert(out@.contains(out@[a]));
                    let b = choose|b: int| 0 <= b < base@.len() && base@[b] == out@[a];
                    assert(positions(base@)[b] == x);
                }
                if chosen.contains(x) {
                    let b = choose|b: int| 0 <= b < chosen.len() && chosen[b] == x;
                    assert(positions(base@)[b] == x);
                    assert(base@.contains(base@[b]));
                    assert(out@.contains(base@[b]));
                    let a = choose|a: int| 0 <= a < out@.len() && out@[a] == base@[b];
                    assert(list[a] == x);
                }
            }
        }
        out
    }
}

/// The slugs of a library in small letters.
pub open spec fn lower_slugs(library: Seq<LibMaterialModel>) -> Seq<Seq<char>> {
    Seq::new(library.len(), |i: int| text::lowercased(library[i].slug))
}

/// The listed materials of the library, by position: filtered by class, search and navigation,
/// cut to the first few in the recent view, and in the order of the chosen sort. The search
/// does not mind letter case.
pub fn filtered(state: &AppState) -> (r: Vec<usize>)
    ensures
        sorted_listing(
            positions(r@),
            candidates(
                state@.library,
                lower_slugs(state@.library),
                state@.lib_class,
                text::lowercased(state@.lib_search),
                state@.lib_nav,
            ),
            state@.library,
            state@.lib_sort,
        ),
        forall|i: int| 0 <= i < r@.len() ==> #[trigger] r@[i] < state@.library.len(),
{
    proof {
        reveal(lib_models);
    }
    let search = text::to_lowercase(state.lib_search.as_str());
    let mut slugs: Vec<String> = Vec::new();
    let mut i: usize = 0;
    while i < state.library.len()
        invariant
            i <= state.library@.len(),
            state@.library.len() == state.library@.len(),
            forall|k: int|
                0 <= k < state.library@.len() ==> #[trigger] state@.library[k]
                    == state.library@[k]@,
            slugs@.len() == i,
            forall|k: int|
                0 <= k < i ==> #[trigger] slugs@[k]@ == text::lowercased(state@.library[k].slug),
        decreases state.library@.len() - i,
    {
        slugs.push(text::to_lowercase(state.library[i].slug.as_str()));
        i += 1;
    }
    proof {
        assert(text::strings(slugs@) =~= lower_slugs(state@.library));
    }
    state.listing(search.as_str(), &slugs)
}

// ── Sidebar and tiles ────────────────────────────────────────────────────

/// How many of the first `n` entries belong to a project.
pub open spec fn project_count(library: Seq<LibMaterialModel>, name: Seq<char>, n: int) -> nat
    decreases n,
{
    if n <= 0 {
        0
    } else {
        project_count(library, name, n - 1) + if library[n - 1].project == name {
            1nat
        } else {
            0nat
        }
    }
}

/// How many materials belong to a project.
pub fn count_in_project(state: &AppState, name: &str) -> (r: usize)
    ensures
        r == project_count(state@.library, name@, state@.library.len() as int),
{
    proof {
        reveal(lib_models);
    }
    let mut n: usize = 0;
    let mut i: usize = 0;
    while i < state.library.len()
        invariant
            i <= state.library@.len(),
            n <= i,
            state@.library.len() == state.library@.len(),
            forall|k: int|
                0 <= k < state.library@.len() ==> #[trigger] state@.library[k]
                    == state.library@[k]@,
            n == project_count(state@.library, name@, i as int),
        decreases state.library@.len() - i,
    {
        if text::same(state.library[i].project.as_str(), name) {
            n += 1;
        }
        i += 1;
    }
    n
}

/// How many materials the recent view has.
pub fn recent_count(state: &AppState) -> (r: usize)
    ensures
        r == if state@.library.len() < RECENT_COUNT {
            state@.library.len()
        } else {
            RECENT_COUNT as nat
        },
{
    proof {
        reveal(lib_models);
    }
    if state.library.len() < RECENT_COUNT {
        state.library.len()
    } else {
        RECENT_COUNT
    }
}

/// Lists a project, and makes it the one that new materials are filed under.
pub fn select_project(state: &mut AppState, name: &str)
    ensures
        final(state)@ == (AppModel { lib_nav: name@, project_name: name@, ..old(state)@ }),
{
    state.lib_nav = name.to_owned();
    state.project_name = name.to_owned();
}

/// Opens the new-material wizard at its first choice.
pub fn open_wizard(state: &mut AppState)
    ensures
        final(state)@ == (AppModel {
            create: CreateModel { stage: CreateStage::Choice, ..old(state)@.create },
            modals: old(state)@.modals.with_create(true),
            ..old(state)@
        }),
{
    state.create.stage = CreateStage::Choice;
    state.modals.set_create(true);
}

/// Opens the new-project modal with an empty name.
pub fn open_new_project(state: &mut AppState)
    ensures
        final(state)@ == (AppModel {
            new_project_name: Seq::empty(),
            modals: old(state)@.modals.with_new_project(true),
            ..old(state)@
        }),
{
    state.new_project_name = String::new();
    state.modals.set_new_project(true);
}

/// The pip at position `i` of a material's coverage row.
pub open spec fn pip_at(m: LibMaterialModel, i: int) -> Pip {
    if m.stale_index == Some(i as usize) {
        Pip::Stale
    } else if i < m.coverage {
        Pip::Present
    } else {
        Pip::Missing
    }
}

/// The coverage row of a material: one pip for each map.
pub fn coverage_row(m: &LibMaterial) -> (r: [Pip; 8])
    ensures
        forall|i: int| 0 <= i < MAP_COUNT ==> #[trigger] r@[i] == pip_at(m@, i),
{
    let mut out = [Pip::Missing; 8];
    let mut i: usize = 0;
    while i < MAP_COUNT
        invariant
            i <= MAP_COUNT,
            forall|k: int| 0 <= k < i ==> #[trigger] out@[k] == pip_at(m@, k),
        decreases MAP_COUNT - i,
    {
        let stale = match m.stale_index {
            Some(s) => s == i,
            None => false,
        };
        out[i] = if stale {
            Pip::Stale
        } else if i < m.coverage as usize {
            Pip::Present
        } else {
            Pip::Missing
        };
        i += 1;
    }
    out
}

/// What a tile says about a material's coverage.
pub open spec fn coverage_text(coverage: u8) -> Seq<char> {
    if coverage == 8 {
        "Complete"@
    } else if coverage == 0 {
        "Albedo only"@
    } else {
        text::decimal(coverage as nat) + " / 8 maps"@
    }
}

/// What a tile says about a material's coverage.
pub fn coverage_label(coverage: u8) -> (r: String)
    ensures
        r@ == coverage_text(coverage),
{
    if coverage == 8 {
        "Complete".to_owned()
    } else if coverage == 0 {
        "Albedo only".to_owned()
    } else {
        let n = text::number(coverage as u128);
        text::cat(n.as_str(), " / 8 maps")
    }
}

/// The label of a sort choice; a choice out of range shows the last.
pub fn sort_label(sort: usize) -> (r: &'static str)
    ensures
        r@ == (if sort == 0 {
            "Sort: Recent"@
        } else if sort == 1 {
            "Sort: Name"@
        } else {
            "Sort: Coverage"@
        }),
{
    match sort {
        0 => "Sort: Recent",
        1 => "Sort: Name",
        _ => "Sort: Coverage",
    }
}

/// Asks for the library scan, once per session. Says whether it is to be asked for now.
pub fn first_visit(state: &mut AppState) -> (r: bool)
    ensures
        r == !old(state)@.loading.library_scanned,
        final(state)@ == (AppModel {
            loading: old(state)@.loading.with_scanned(true),
            ..old(state)@
        }),
{
    let first = !state.loading.library_scanned;
    state.loading.set_scanned(true);
    first
}

// ── Elision ──────────────────────────────────────────────────────────────

/// The longest proper beginning of a text that fits with `…` behind it; just `…` where none
/// does. `fits[k]` says whether the first `k` characters do.
pub open spec fn elided(text: Seq<char>, fits: Seq<bool>, k: int) -> Seq<char>
    decreases k,
{
    if k <= 0 {
        "…"@
    } else if k - 1 < fits.len() && fits[k - 1] {
        text.take(k - 1) + "…"@
    } else {
        elided(text, fits, k - 1)
    }
}

/// A text cut to what fits. `whole_fits` says whether it fits as it is, and `fits[k]` whether
/// its first `k` characters do with `…` behind them.
pub fn truncate_to_width(label: &str, whole_fits: bool, fits: &Vec<bool>) -> (r: String)
    ensures
        whole_fits ==> r@ == label@,
        !whole_fits ==> r@ == elided(label@, fits@, label@.len() as int),
{
    if whole_fits {
        return label.to_owned();
    }
    let cs = text::chars(label);
    let mut k: usize = cs.len();
    while k > 0
        invariant
            k <= cs@.len(),
            cs@ == label@,
            !whole_fits,
            elided(label@, fits@, k as int) == elided(label@, fits@, label@.len() as int),
        decreases k,
    {
        if k - 1 < fits.len() && fits[k - 1] {
            let head = text::slice_text(&cs, 0, k - 1);
            proof {
                assert(cs@.subrange(0, k - 1) =~= label@.take(k - 1));
            }
            return text::cat(head.as_str(), "…");
        }
        k -= 1;
    }
    "…".to_owned()
}

} // verus!
