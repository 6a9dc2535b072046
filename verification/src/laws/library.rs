//! The library: names and identities.

use std::sync::Arc;

use vstd::prelude::*;

use crate::data::MapId;
use crate::modals::{slug_body, slug_char, slug_of, strip_back, strip_front};
use crate::pixels::Pixels;
use crate::render::EffectModel;
use crate::state::identity::{
    has_slug, lemma_slug_position, lemma_taken_bounded, numbered,
};
use crate::state::model::AppModel;
use crate::state::{LibMaterialModel, MapStatus};
use crate::text::trimmed;

verus! {

// ── Slugs ────────────────────────────────────────────────────────────────

/// Whether a text is made of small ASCII letters, digits and single underscores.
pub open spec fn slug_text(s: Seq<char>) -> bool {
    &&& forall|i: int| 0 <= i < s.len() ==> slug_char(#[trigger] s[i]) || s[i] == '_'
    &&& forall|i: int| 0 <= i < s.len() - 1 ==> !(#[trigger] s[i] == '_' && s[i + 1] == '_')
}

proof fn lemma_slug_body(s: Seq<char>)
    ensures
        slug_text(slug_body(s)),
    decreases s.len(),
{
    if s.len() > 0 {
        lemma_slug_body(s.drop_last());
    }
}

proof fn lemma_strip_front(s: Seq<char>)
    requires
        slug_text(s),
    ensures
        slug_text(strip_front(s)),
        strip_front(s).len() > 0 ==> strip_front(s)[0] != '_',
    decreases s.len(),
{
    if s.len() > 0 && s[0] == '_' {
        let rest = s.drop_first();
        assert forall|i: int| 0 <= i < rest.len() implies slug_char(#[trigger] rest[i]) || rest[i]
            == '_' by {
            assert(rest[i] == s[i + 1]);
        }
        assert forall|i: int| 0 <= i < rest.len() - 1 implies !(#[trigger] rest[i] == '_' && rest[i
            + 1] == '_') by {
            assert(rest[i] == s[i + 1]);
        }
        lemma_strip_front(rest);
    }
}

proof fn lemma_strip_back(s: Seq<char>)
    requires
        slug_text(s),
        s.len() > 0 ==> s[0] != '_',
    ensures
        slug_text(strip_back(s)),
        strip_back(s).len() > 0 ==> strip_back(s)[0] != '_' && strip_back(s).last() != '_',
    decreases s.len(),
{
    if s.len() > 0 && s.last() == '_' {
        lemma_strip_back(s.drop_last());
    }
}

/// A slug is made of small ASCII letters, digits and single underscores, with none of these in
/// front or behind: it is safe as a file name.
pub proof fn lemma_slug_is_safe(lower: Seq<char>)
    ensures
        slug_text(slug_of(lower)),
        slug_of(lower).len() > 0 ==> slug_of(lower)[0] != '_' && slug_of(lower).last() != '_',
{
    lemma_slug_body(lower);
    lemma_strip_front(slug_body(lower));
    lemma_strip_back(strip_front(slug_body(lower)));
}

proof fn lemma_slug_body_of_slug(s: Seq<char>)
    requires
        slug_text(s),
    ensures
        slug_body(s) == s,
    decreases s.len(),
{
    if s.len() > 0 {
        let before = s.drop_last();
        lemma_slug_body_of_slug(before);
        assert(slug_char(s.last()) || s.last() == '_');
        if before.len() > 0 {
            let k = s.len() - 2;
            assert(!(s[k] == '_' && s[k + 1] == '_'));
        }
        assert(before.push(s.last()) =~= s);
    }
}

/// The slug of a slug is that slug.
pub proof fn lemma_slug_of_slug(lower: Seq<char>)
    ensures
        slug_of(slug_of(lower)) == slug_of(lower),
{
    lemma_slug_is_safe(lower);
    lemma_slug_body_of_slug(slug_of(lower));
}

// ── Identities ───────────────────────────────────────────────────────────

/// Whether no two entries of a library have the same slug.
pub open spec fn distinct(library: Seq<LibMaterialModel>) -> bool {
    forall|i: int, j: int|
        0 <= i < j < library.len() ==> #[trigger] library[i].slug != #[trigger] library[j].slug
}

/// There is always a number that makes a name free.
pub proof fn lemma_some_number_is_free(m: AppModel, base: Seq<char>, allow_current: bool, n: nat)
    requires
        n >= 2,
        forall|k: nat| 2 <= k < n ==> m.taken(#[trigger] numbered(base, k), allow_current),
    ensures
        exists|k: nat| m.least_free(base, allow_current, k),
    decreases m.library.len() + 3 - n,
{
    lemma_taken_bounded(m, base, allow_current, n);
    if m.taken(numbered(base, n), allow_current) {
        assert(forall|k: nat|
            2 <= k < n + 1 ==> m.taken(#[trigger] numbered(base, k), allow_current));
        lemma_taken_bounded(m, base, allow_current, n + 1);
        lemma_some_number_is_free(m, base, allow_current, n + 1);
    } else {
        assert(m.least_free(base, allow_current, n));
    }
}

/// A slug that is handed out never belongs to another material.
pub proof fn lemma_unique_slug_is_free(m: AppModel, desired: Seq<char>, allow_current: bool)
    ensures
        !m.taken(m.unique_slug(desired, allow_current), allow_current),
        !allow_current ==> !has_slug(m.library, m.unique_slug(desired, allow_current)),
{
    let base = trimmed(desired);
    if m.taken(base, allow_current) {
        lemma_some_number_is_free(m, base, allow_current, 2);
    }
}

/// A new material gets an entry of its own, at the front: no other entry is touched, and no two
/// entries share a slug.
pub proof fn lemma_new_material_is_new(s: AppModel, name: Seq<char>, seed: u32)
    requires
        !s.needs_discard_confirm(),
        distinct(s.library),
    ensures
        ({
            let now = s.new_material_from_create(name, seed);
            &&& now.library.len() == s.library.len() + 1
            &&& now.library[0].slug == now.material_name
            &&& now.library.drop_first() == s.library
            &&& !has_slug(s.library, now.material_name)
            &&& distinct(now.library)
        }),
{
    let begun = s.consent_used().begin_material_session();
    lemma_unique_slug_is_free(begun, name, false);
    let slug = begun.unique_slug(name, false);
    let now = s.new_material_from_create(name, seed);
    assert(begun.library == s.library);
    assert(now.library.drop_first() =~= s.library);
    assert forall|i: int, j: int|
        0 <= i < j < now.library.len() implies #[trigger] now.library[i].slug
        != #[trigger] now.library[j].slug by {
        assert(now.library[j] == s.library[j - 1]);
        if i > 0 {
            assert(now.library[i] == s.library[i - 1]);
        }
    }
}

/// A rename is refused where the name is empty, unchanged or another material's, and then changes
/// nothing but the toasts. No two entries share a slug after it.
pub proof fn lemma_rename_keeps_identities(s: AppModel, slug: Seq<char>)
    requires
        distinct(s.library),
    ensures
        !s.can_rename(slug) ==> s.rename_material(slug) == (AppModel {
            toasts: s.rename_material(slug).toasts,
            ..s
        }),
        s.can_rename(slug) ==> s.rename_material(slug).material_name == slug,
        s.rename_material(slug).library.len() == s.library.len(),
        distinct(s.rename_material(slug).library),
{
    let now = s.rename_material(slug);
    lemma_slug_position(s.library, s.material_name);
    if s.can_rename(slug) {
        assert forall|i: int, j: int|
            0 <= i < j < now.library.len() implies #[trigger] now.library[i].slug
            != #[trigger] now.library[j].slug by {
            assert(s.library[i].slug != s.library[j].slug);
            assert(s.library[i].slug != slug);
            assert(s.library[j].slug != slug);
        }
    }
}

/// Renaming a material moves its document to where a save of the renamed material goes, so that
/// there is never a second copy under the old name.
pub proof fn lemma_rename_moves_document(s: AppModel, slug: Seq<char>)
    requires
        s.can_rename(slug),
    ensures
        s.rename_material(slug).effects.len() > s.effects.len(),
        s.rename_material(slug).effects[s.effects.len() as int]
            == (EffectModel::MoveDocument {
            from: s.document_path(),
            to: s.rename_material(slug).document_path(),
        }),
{
}

/// An import never takes over another material: the open material keeps its name, or gets one
/// that no entry has. A save after it overwrites no other document.
pub proof fn lemma_import_takes_no_identity(
    s: AppModel,
    rgba: Arc<Vec<u8>>,
    name: Seq<char>,
    maps: Seq<(MapId, Arc<Vec<u8>>)>,
)
    ensures
        ({
            let now = s.import_albedo(rgba, name);
            now.material_name == s.material_name || !has_slug(s.library, now.material_name)
        }),
        ({
            let now = s.install_imported_folder(name, maps);
            now.material_name == s.material_name || !has_slug(s.library, now.material_name)
        }),
        distinct(s.library) ==> distinct(s.install_imported_folder(name, maps).library),
{
    let reset = s.snapshot().reset_maps_and_stores();
    let named = reset.adopt_name(name, name);
    lemma_unique_slug_is_free(reset, name, true);
    lemma_install_maps_keeps_identity(named, maps);
    let px = Pixels::Raw(rgba);
    let measured = AppModel {
        seam_cache_seed: None,
        ..s.snapshot().install_pixels(MapId::Albedo, px).push_version(
            MapId::Albedo,
            s.seed,
            Some(px),
            None,
        ).with_status(MapId::Albedo, MapStatus::Ready)
    };
    assert(measured.library == s.library && measured.material_name == s.material_name);
    lemma_unique_slug_is_free(measured, name, true);
    let now = s.install_imported_folder(name, maps);
    let installed = named.install_maps(maps);
    assert(installed.library == s.library);
    if distinct(s.library) && !has_slug(s.library, installed.material_name) {
        assert forall|i: int, j: int|
            0 <= i < j < now.library.len() implies #[trigger] now.library[i].slug
            != #[trigger] now.library[j].slug by {
            assert(now.library[j] == s.library[j - 1]);
            if i > 0 {
                assert(now.library[i] == s.library[i - 1]);
            }
        }
    }
}

proof fn lemma_install_maps_keeps_identity(s: AppModel, maps: Seq<(MapId, Arc<Vec<u8>>)>)
    ensures
        s.install_maps(maps).library == s.library,
        s.install_maps(maps).material_name == s.material_name,
    decreases maps.len(),
{
    if maps.len() > 0 {
        lemma_install_maps_keeps_identity(s, maps.drop_last());
    }
}

} // verus!
