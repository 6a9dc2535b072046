//! The decisions of single worker tasks: errors, saves, previews, derivations, and collecting a
//! material from a folder.

use std::sync::Arc;

use vstd::prelude::*;

use crate::data::{MapId, MAP_COUNT};
use crate::pixels::{is_square, square_of, Pixels, TEX_SIZE};
use crate::render::{ImportedFolder, IoResult, SaveJob};
use crate::text;
use crate::text::strings;

verus! {

// ── Errors ───────────────────────────────────────────────────────────────

/// The messages, with `": "` between them.
pub open spec fn chained(messages: Seq<Seq<char>>) -> Seq<char>
    decreases messages.len(),
{
    if messages.len() == 0 {
        Seq::empty()
    } else if messages.len() == 1 {
        messages[0]
    } else {
        chained(messages.drop_last()) + ": "@ + messages.last()
    }
}

/// An error with its full chain of causes in one line: its own message, then that of each
/// cause in turn.
pub fn error_chain(messages: &Vec<String>) -> (r: String)
    ensures
        r@ == chained(strings(messages@)),
{
    let ghost all = strings(messages@);
    let mut out = String::new();
    let mut i: usize = 0;
    proof {
        assert(all.take(0) =~= Seq::<Seq<char>>::empty());
        assert(out@ =~= chained(all.take(0)));
    }
    while i < messages.len()
        invariant
            i <= messages@.len(),
            all == strings(messages@),
            out@ == chained(all.take(i as int)),
        decreases messages@.len() - i,
    {
        proof {
            assert(all.take(i + 1).drop_last() =~= all.take(i as int));
            assert(all.take(i + 1).last() == messages@[i as int]@);
        }
        let ghost before = out@;
        if i > 0 {
            out.append(": ");
        }
        out.append(messages[i].as_str());
        proof {
            if i == 0 {
                assert(before =~= Seq::<char>::empty());
                assert(out@ =~= messages@[0]@);
            }
        }
        i += 1;
    }
    proof {
        assert(all.take(i as int) =~= all);
    }
    out
}

// ── Saves ────────────────────────────────────────────────────────────────

/// The first error of a list of results, if there is one.
pub open spec fn first_error(results: Seq<Result<(), String>>) -> Option<Seq<char>>
    decreases results.len(),
{
    if results.len() == 0 {
        None
    } else {
        match results[0] {
            Err(e) => Some(e@),
            Ok(_) => first_error(results.drop_first()),
        }
    }
}

/// What a save does once every map was encoded, or failed to be.
pub enum SaveStep {
    /// Write the document.
    Write,
    /// Write nothing and report this error.
    Fail(String),
}

/// Decides a save by the outcome of each map's encoding. One map that cannot be encoded fails
/// the whole save, and nothing is written: a document that silently misses a map would pass for
/// a good backup.
pub fn save_step(maps: &Vec<Result<(), String>>) -> (r: SaveStep)
    ensures
        first_error(maps@) is None <==> r is Write,
        first_error(maps@) is Some ==> r is Fail && r->Fail_0@ == first_error(maps@)->0,
{
    let mut i: usize = 0;
    proof {
        assert(maps@.skip(0) =~= maps@);
    }
    while i < maps.len()
        invariant
            i <= maps@.len(),
            first_error(maps@.skip(i as int)) == first_error(maps@),
        decreases maps@.len() - i,
    {
        proof {
            assert(maps@.skip(i as int)[0] == maps@[i as int]);
            assert(maps@.skip(i as int).drop_first() =~= maps@.skip(i + 1));
        }
        if let Err(e) = &maps[i] {
            return SaveStep::Fail(e.clone());
        }
        i += 1;
    }
    SaveStep::Write
}

impl SaveJob {
    /// What a save reports: where to, how it ended, and whether success is worth a toast.
    pub fn report(&self, path: String, result: Result<(), String>) -> (r: IoResult)
        ensures
            r == (IoResult::DocSaved { path, result, announce: self@.announce }),
    {
        IoResult::DocSaved { path, result, announce: self.announce }
    }
}

/// Whether a preview has to be made for an untouched master: documents that have none get one
/// with the next save, so that later opens are fast.
pub fn needs_preview(preview: &Vec<u8>) -> (r: bool)
    ensures
        r == (preview@.len() == 0),
{
    preview.len() == 0
}

// ── Previews and derivations ─────────────────────────────────────────────

/// The library preview of a document: its stored working-size preview, else its albedo where
/// that is a square of its declared side, else the procedural render of the seed.
pub open spec fn preview_pixels(
    preview: Option<Arc<Vec<u8>>>,
    albedo: Option<(Arc<Vec<u8>>, usize)>,
    seed: u32,
) -> Pixels {
    match preview {
        Some(px) => Pixels::Raw(px),
        None => match albedo {
            Some((rgba, side)) => if side >= 4 && square_of(rgba@.len(), side as nat) {
                working_copy(rgba, side)
            } else {
                Pixels::Procedural { seed }
            },
            None => Pixels::Procedural { seed },
        },
    }
}

/// The working copy of a square.
pub open spec fn working_copy(rgba: Arc<Vec<u8>>, side: usize) -> Pixels {
    if side == TEX_SIZE {
        Pixels::Raw(rgba)
    } else {
        Pixels::Reduced { full: rgba, side }
    }
}

/// The working copy of a square.
pub fn to_working(rgba: Arc<Vec<u8>>, side: usize) -> (r: Pixels)
    ensures
        r == working_copy(rgba, side),
{
    if side == TEX_SIZE {
        Pixels::Raw(rgba)
    } else {
        Pixels::Reduced { full: rgba, side }
    }
}

/// The library preview of a document. `preview` and `albedo` are what could be decoded of it.
pub fn doc_preview(
    preview: Option<Arc<Vec<u8>>>,
    albedo: Option<(Arc<Vec<u8>>, usize)>,
    seed: u32,
) -> (r: Pixels)
    ensures
        r == preview_pixels(preview, albedo, seed),
{
    if let Some(px) = preview {
        return Pixels::Raw(px);
    }
    if let Some((rgba, side)) = albedo {
        if side >= 4 && is_square(rgba.len(), side) {
            return to_working(rgba, side);
        }
    }
    Pixels::Procedural { seed }
}

// ── Folders of loose maps ────────────────────────────────────────────────

/// The file name endings of images, in small letters.
pub open spec fn is_image_ending(ending: Seq<char>) -> bool {
    ending == "png"@ || ending == "jpg"@ || ending == "jpeg"@ || ending == "webp"@ || ending
        == "tga"@ || ending == "bmp"@
}

/// Whether an ending, in small letters, is that of an image.
pub fn image_ending(ending: &str) -> (r: bool)
    ensures
        r == is_image_ending(ending@),
{
    text::same(ending, "png") || text::same(ending, "jpg") || text::same(ending, "jpeg")
        || text::same(ending, "webp") || text::same(ending, "tga") || text::same(ending, "bmp")
}

/// Whether a file name, in small letters, names a map.
pub open spec fn names_map(id: MapId, name: Seq<char>) -> bool {
    match id {
        MapId::Albedo => text::occurs(name, "albedo"@) || text::occurs(name, "basecolor"@)
            || text::occurs(name, "base_color"@) || text::occurs(name, "diffuse"@)
            || text::occurs(name, "color"@),
        MapId::Roughness => text::occurs(name, "roughness"@) || text::occurs(name, "rough"@),
        MapId::Metallic => text::occurs(name, "metallic"@) || text::occurs(name, "metalness"@)
            || text::occurs(name, "metal"@),
        MapId::Normal => text::occurs(name, "normal"@) || text::occurs(name, "nrm"@),
        MapId::Displacement => text::occurs(name, "displacement"@) || text::occurs(
            name,
            "height"@,
        ) || text::occurs(name, "disp"@),
        MapId::Ao => text::occurs(name, "ambientocclusion"@) || text::occurs(name, "occlusion"@)
            || text::occurs(name, "_ao"@) || text::occurs(name, "ao_"@),
        MapId::Emission => text::occurs(name, "emission"@) || text::occurs(name, "emissive"@),
        MapId::Transparency => text::occurs(name, "transparency"@) || text::occurs(
            name,
            "opacity"@,
        ) || text::occurs(name, "alpha"@),
    }
}

/// Whether a file name, in small letters, names a map.
pub fn name_matches(id: MapId, name: &str) -> (r: bool)
    ensures
        r == names_map(id, name@),
{
    match id {
        MapId::Albedo => text::contains(name, "albedo") || text::contains(name, "basecolor")
            || text::contains(name, "base_color") || text::contains(name, "diffuse")
            || text::contains(name, "color"),
        MapId::Roughness => text::contains(name, "roughness") || text::contains(name, "rough"),
        MapId::Metallic => text::contains(name, "metallic") || text::contains(name, "metalness")
            || text::contains(name, "metal"),
        MapId::Normal => text::contains(name, "normal") || text::contains(name, "nrm"),
        MapId::Displacement => text::contains(name, "displacement") || text::contains(
            name,
            "height",
        ) || text::contains(name, "disp"),
        MapId::Ao => text::contains(name, "ambientocclusion") || text::contains(
            name,
            "occlusion",
        ) || text::contains(name, "_ao") || text::contains(name, "ao_"),
        MapId::Emission => text::contains(name, "emission") || text::contains(name, "emissive"),
        MapId::Transparency => text::contains(name, "transparency") || text::contains(
            name,
            "opacity",
        ) || text::contains(name, "alpha"),
    }
}

/// A file of a folder: its name without the ending, and its ending, as far as they can be read.
pub struct FolderFile {
    pub stem: Option<String>,
    pub ending: Option<String>,
}

/// A file name in small letters: the stem, where the file is an image and its stem can be read.
pub open spec fn image_name(f: FolderFile) -> Option<Seq<char>> {
    match (f.ending, f.stem) {
        (Some(e), Some(s)) => if is_image_ending(text::lowercased(e@)) {
            Some(text::lowercased(s@))
        } else {
            None
        },
        _ => None,
    }
}

/// The stem of an image in small letters, where it can be read.
pub fn image_stem(f: &FolderFile) -> (r: Option<String>)
    ensures
        image_name(*f) == (match r {
            Some(s) => Some(s@),
            None => None::<Seq<char>>,
        }),
{
    match (&f.ending, &f.stem) {
        (Some(e), Some(s)) => {
            let ending = text::to_lowercase(e.as_str());
            if image_ending(ending.as_str()) {
                Some(text::to_lowercase(s.as_str()))
            } else {
                None
            }
        },
        _ => None,
    }
}

/// Whether the file at a position is an image whose name names a map.
pub open spec fn hit(names: Seq<Option<Seq<char>>>, id: MapId, i: int) -> bool {
    0 <= i < names.len() && names[i] is Some && names_map(id, names[i]->0)
}

/// The position of the first image, from `from` on, whose name names a map.
pub open spec fn first_hit(names: Seq<Option<Seq<char>>>, id: MapId, from: int) -> Option<int>
    decreases names.len() - from,
{
    if from >= names.len() {
        None
    } else if hit(names, id, from) {
        Some(from)
    } else {
        first_hit(names, id, from + 1)
    }
}

/// What a list of optional names holds.
pub open spec fn optional_names(names: Seq<Option<String>>) -> Seq<Option<Seq<char>>> {
    Seq::new(
        names.len(),
        |i: int|
            match names[i] {
                Some(s) => Some(s@),
                None => None,
            },
    )
}

/// The image names of a folder's files.
pub open spec fn image_names(files: Seq<FolderFile>) -> Seq<Option<Seq<char>>> {
    Seq::new(files.len(), |i: int| image_name(files[i]))
}

/// The file of each map among the first `n`: the map's own first image.
pub open spec fn map_files(names: Seq<Option<Seq<char>>>, n: int) -> Seq<(MapId, int)>
    decreases n,
{
    if n <= 0 {
        Seq::empty()
    } else {
        let id = MapId::at(n - 1);
        match first_hit(names, id, 0) {
            Some(i) => map_files(names, n - 1).push((id, i)),
            None => map_files(names, n - 1),
        }
    }
}

/// The position of the first image whose name names a map.
fn find_map_file(names: &Vec<Option<String>>, id: MapId) -> (r: Option<usize>)
    ensures
        first_hit(optional_names(names@), id, 0) == (match r {
            Some(i) => Some(i as int),
            None => None::<int>,
        }),
{
    let ghost all = optional_names(names@);
    let mut i: usize = 0;
    while i < names.len()
        invariant
            i <= names@.len(),
            all == optional_names(names@),
            first_hit(all, id, i as int) == first_hit(all, id, 0),
        decreases names@.len() - i,
    {
        if let Some(name) = &names[i] {
            if name_matches(id, name.as_str()) {
                return Some(i);
            }
        }
        i += 1;
    }
    None
}

/// What a list of chosen files holds.
pub open spec fn chosen(files: Seq<(MapId, usize)>) -> Seq<(MapId, int)> {
    Seq::new(files.len(), |i: int| (files[i].0, files[i].1 as int))
}

/// For each map, in the material's order, the first image whose name names it. `names` are the
/// image names of the folder, in small letters.
pub fn match_map_files(names: &Vec<Option<String>>) -> (r: Vec<(MapId, usize)>)
    ensures
        chosen(r@) == map_files(optional_names(names@), MAP_COUNT as int),
{
    let mut out: Vec<(MapId, usize)> = Vec::new();
    let mut i: usize = 0;
    proof {
        assert(chosen(out@) =~= map_files(optional_names(names@), 0));
    }
    while i < MAP_COUNT
        invariant
            i <= MAP_COUNT,
            chosen(out@) == map_files(optional_names(names@), i as int),
        decreases MAP_COUNT - i,
    {
        let id = MapId::nth(i);
        let ghost before = out@;
        if let Some(k) = find_map_file(names, id) {
            out.push((id, k));
            proof {
                assert(chosen(out@) =~= chosen(before).push((id, k as int)));
            }
        }
        i += 1;
    }
    out
}

/// The files that a folder import decodes: for each map the first image whose name names it.
pub fn import_folder_maps(files: &Vec<FolderFile>) -> (r: Vec<(MapId, usize)>)
    ensures
        chosen(r@) == map_files(image_names(files@), MAP_COUNT as int),
{
    let mut names: Vec<Option<String>> = Vec::new();
    let mut i: usize = 0;
    while i < files.len()
        invariant
            i <= files@.len(),
            names@.len() == i,
            forall|j: int|
                0 <= j < i ==> #[trigger] optional_names(names@)[j] == image_name(files@[j]),
        decreases files@.len() - i,
    {
        let ghost before = names@;
        names.push(image_stem(&files[i]));
        proof {
            assert forall|j: int| 0 <= j < i + 1 implies #[trigger] optional_names(names@)[j]
                == image_name(files@[j]) by {
                if j < i {
                    assert(optional_names(before)[j] == image_name(files@[j]));
                }
            }
        }
        i += 1;
    }
    proof {
        assert(optional_names(names@) =~= image_names(files@));
    }
    match_map_files(&names)
}

/// Whether an albedo is among some maps.
pub open spec fn has_albedo(maps: Seq<(MapId, Arc<Vec<u8>>)>) -> bool {
    exists|i: int| 0 <= i < maps.len() && #[trigger] maps[i].0 == MapId::Albedo
}

/// The collected material: without an albedo there is none. `folder` is the folder's name,
/// where it can be read.
pub fn finish_import(folder: Option<String>, maps: Vec<(MapId, Arc<Vec<u8>>)>) -> (r: Result<
    ImportedFolder,
    String,
>)
    ensures
        has_albedo(maps@) ==> r is Ok && r->Ok_0.maps@ == maps@ && r->Ok_0.slug@ == (
        match folder {
            Some(name) => name@,
            None => "imported"@,
        }),
        !has_albedo(maps@) ==> r is Err && r->Err_0@ == "no albedo image found in the folder"@,
{
    let mut i: usize = 0;
    while i < maps.len()
        invariant
            i <= maps@.len(),
            forall|j: int| 0 <= j < i ==> #[trigger] maps@[j].0 != MapId::Albedo,
        decreases maps@.len() - i,
    {
        if maps[i].0 == MapId::Albedo {
            let slug = match folder {
                Some(name) => name,
                None => "imported".to_owned(),
            };
            return Ok(ImportedFolder { slug, maps });
        }
        i += 1;
    }
    Err("no albedo image found in the folder".to_owned())
}

/// The display name of an imported albedo: the file's name without its ending.
pub fn import_name(stem: Option<String>) -> (r: String)
    ensures
        r@ == (match stem {
            Some(s) => s@,
            None => "imported"@,
        }),
{
    match stem {
        Some(s) => s,
        None => "imported".to_owned(),
    }
}

} // verus!
