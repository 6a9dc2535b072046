//! Material documents and prompt packs as the workspace reads and fills them, and where they
//! stand on disk.

use vstd::prelude::*;

use crate::data::{lemma_position, MapId, MapTable, MAP_COUNT};
use crate::pixels::Pixels;
use crate::text;

verus! {

// ── Places on disk ───────────────────────────────────────────────────────

/// A folder of the library.
pub enum Folder {
    /// As configured: a leading `~/` stands for the home directory.
    Configured(String),
    /// Taken as it is.
    Exact(String),
}

/// The place that a [`Folder`] names.
pub enum FolderModel {
    Configured(Seq<char>),
    Exact(Seq<char>),
}

impl View for Folder {
    type V = FolderModel;

    open spec fn view(&self) -> FolderModel {
        match self {
            Folder::Configured(s) => FolderModel::Configured(s@),
            Folder::Exact(s) => FolderModel::Exact(s@),
        }
    }
}

/// Where a document stands.
pub enum DocPath {
    /// A file in a library folder.
    In { folder: Folder, file: String },
    /// A path that a library scan found.
    At(String),
}

/// The place that a [`DocPath`] names.
pub enum DocPathModel {
    In { folder: FolderModel, file: Seq<char> },
    At(Seq<char>),
}

impl View for DocPath {
    type V = DocPathModel;

    open spec fn view(&self) -> DocPathModel {
        match self {
            DocPath::In { folder, file } => DocPathModel::In { folder: folder@, file: file@ },
            DocPath::At(path) => DocPathModel::At(path@),
        }
    }
}

impl Folder {
    /// A copy.
    pub fn copy(&self) -> (r: Folder)
        ensures
            r == *self,
    {
        match self {
            Folder::Configured(s) => Folder::Configured(s.clone()),
            Folder::Exact(s) => Folder::Exact(s.clone()),
        }
    }
}

impl DocPath {
    /// A copy.
    pub fn copy(&self) -> (r: DocPath)
        ensures
            r == *self,
    {
        match self {
            DocPath::In { folder, file } => DocPath::In {
                folder: folder.copy(),
                file: file.clone(),
            },
            DocPath::At(path) => DocPath::At(path.clone()),
        }
    }

    /// A copy, where there is one.
    pub fn copy_option(p: &Option<DocPath>) -> (r: Option<DocPath>)
        ensures
            r == *p,
    {
        match p {
            Some(x) => Some(x.copy()),
            None => None,
        }
    }
}

/// What an optional place names.
pub open spec fn place(p: Option<DocPath>) -> Option<DocPathModel> {
    match p {
        Some(x) => Some(x@),
        None => None,
    }
}

/// A configured location with a leading `~` resolved.
pub enum Shelved {
    /// Below the home directory.
    UnderHome(String),
    /// As configured.
    AsIs(String),
}

/// Expands a leading `~` of a configured location to the home directory, where that is known.
pub fn shelve(location: &str, home_known: bool) -> (r: Shelved)
    ensures
        home_known && text::starts(location@, "~/"@) ==> r is UnderHome && r->UnderHome_0@
            == location@.skip(2),
        !(home_known && text::starts(location@, "~/"@)) ==> r is AsIs && r->AsIs_0@ == location@,
{
    if home_known && text::starts_with(location, "~/") {
        let cs = text::chars(location);
        proof {
            reveal_strlit("~/");
            assert(cs@.subrange(2, cs@.len() as int) =~= location@.skip(2));
        }
        Shelved::UnderHome(text::slice_text(&cs, 2, cs.len()))
    } else {
        Shelved::AsIs(location.to_owned())
    }
}

// ── Texts by map ─────────────────────────────────────────────────────────

/// What a table of strings holds.
pub open spec fn texts(m: Map<MapId, String>) -> Map<MapId, Seq<char>> {
    Map::new(|id: MapId| m.contains_key(id), |id: MapId| m[id]@)
}

/// A copy of a table of strings.
pub fn copy_texts(table: &MapTable<String>) -> (r: MapTable<String>)
    ensures
        texts(r@) == texts(table@),
{
    let mut out: MapTable<String> = MapTable::new();
    let mut i: usize = 0;
    while i < MAP_COUNT
        invariant
            i <= MAP_COUNT,
            forall|id: MapId| #[trigger]
                out@.contains_key(id) <==> (id.idx() < i && table@.contains_key(id)),
            forall|id: MapId| #[trigger] out@.contains_key(id) ==> out@[id]@ == table@[id]@,
        decreases MAP_COUNT - i,
    {
        let id = MapId::nth(i);
        if let Some(s) = table.get(id) {
            out.insert(id, s.clone());
        }
        proof {
            broadcast use lemma_position;
        }
        i += 1;
    }
    proof {
        broadcast use lemma_position;
        assert(texts(out@) =~= texts(table@));
    }
    out
}

// ── Documents ────────────────────────────────────────────────────────────

/// The parameters that a document stores of a map. `strength`, `radius`, `fidelity` and
/// `detail_routing` are IEEE 754 single bits.
pub struct MapDocParams {
    pub strength: u32,
    pub invert: bool,
    pub flip_y: bool,
    pub radius: u32,
    pub bit_depth_16: bool,
    pub fidelity: u32,
    pub detail_routing: u32,
    pub active_version: usize,
    pub locked: bool,
    pub ai_path: bool,
    pub version_seeds: Vec<u32>,
}

/// What [`MapDocParams`] hold.
pub struct MapDocParamsModel {
    pub strength: u32,
    pub invert: bool,
    pub flip_y: bool,
    pub radius: u32,
    pub bit_depth_16: bool,
    pub fidelity: u32,
    pub detail_routing: u32,
    pub active_version: usize,
    pub locked: bool,
    pub ai_path: bool,
    pub version_seeds: Seq<u32>,
}

impl View for MapDocParams {
    type V = MapDocParamsModel;

    open spec fn view(&self) -> MapDocParamsModel {
        MapDocParamsModel {
            strength: self.strength,
            invert: self.invert,
            flip_y: self.flip_y,
            radius: self.radius,
            bit_depth_16: self.bit_depth_16,
            fidelity: self.fidelity,
            detail_routing: self.detail_routing,
            active_version: self.active_version,
            locked: self.locked,
            ai_path: self.ai_path,
            version_seeds: self.version_seeds@,
        }
    }
}

/// A map in a document.
pub struct MapDoc {
    pub params: MapDocParams,
    pub has_image: bool,
    /// The stored pixels, where there are any.
    pub image: Option<Pixels>,
    /// The side that the stored pixels claim to have.
    pub px_size: usize,
}

/// What a [`MapDoc`] holds.
pub struct MapDocModel {
    pub params: MapDocParamsModel,
    pub has_image: bool,
    pub image: Option<Pixels>,
    pub px_size: usize,
}

impl View for MapDoc {
    type V = MapDocModel;

    open spec fn view(&self) -> MapDocModel {
        MapDocModel {
            params: self.params@,
            has_image: self.has_image,
            image: self.image,
            px_size: self.px_size,
        }
    }
}

/// A material as it is stored: identity, prompts, and the maps with their parameters.
pub struct Document {
    pub material_name: String,
    pub project_name: String,
    pub mat_type: String,
    pub description: String,
    pub seed: u32,
    pub gen_size: usize,
    pub engine: String,
    pub export_pattern: String,
    pub base_template: String,
    pub final_requirement: String,
    pub negative_prompt: String,
    pub map_templates: MapTable<String>,
    pub maps: MapTable<MapDoc>,
}

/// What a [`Document`] holds.
#[verifier::ext_equal]
pub struct DocumentModel {
    pub material_name: Seq<char>,
    pub project_name: Seq<char>,
    pub mat_type: Seq<char>,
    pub description: Seq<char>,
    pub seed: u32,
    pub gen_size: usize,
    pub engine: Seq<char>,
    pub export_pattern: Seq<char>,
    pub base_template: Seq<char>,
    pub final_requirement: Seq<char>,
    pub negative_prompt: Seq<char>,
    pub map_templates: Map<MapId, Seq<char>>,
    pub maps: Map<MapId, MapDocModel>,
}

/// What a table of stored maps holds.
pub open spec fn map_docs(m: Map<MapId, MapDoc>) -> Map<MapId, MapDocModel> {
    Map::new(|id: MapId| m.contains_key(id), |id: MapId| m[id]@)
}

impl View for Document {
    type V = DocumentModel;

    open spec fn view(&self) -> DocumentModel {
        DocumentModel {
            material_name: self.material_name@,
            project_name: self.project_name@,
            mat_type: self.mat_type@,
            description: self.description@,
            seed: self.seed,
            gen_size: self.gen_size,
            engine: self.engine@,
            export_pattern: self.export_pattern@,
            base_template: self.base_template@,
            final_requirement: self.final_requirement@,
            negative_prompt: self.negative_prompt@,
            map_templates: texts(self.map_templates@),
            maps: map_docs(self.maps@),
        }
    }
}

/// What a list of documents holds.
#[verifier::opaque]
pub open spec fn documents(docs: Seq<Document>) -> Seq<DocumentModel> {
    Seq::new(docs.len(), |i: int| docs[i]@)
}

/// A document that a library scan found.
pub struct ScannedMaterial {
    pub slug: String,
    pub class: String,
    pub project: String,
    pub coverage: u8,
    pub stale_index: Option<usize>,
    pub seed: u32,
    pub path: String,
}

// ── Prompt packs ─────────────────────────────────────────────────────────

/// The prompt texts that can be shared between materials.
pub struct PromptPack {
    pub base_template: String,
    pub final_requirement: String,
    pub negative_prompt: String,
    pub map_templates: MapTable<String>,
}

/// What a [`PromptPack`] holds.
#[verifier::ext_equal]
pub struct PromptPackModel {
    pub base_template: Seq<char>,
    pub final_requirement: Seq<char>,
    pub negative_prompt: Seq<char>,
    pub map_templates: Map<MapId, Seq<char>>,
}

impl View for PromptPack {
    type V = PromptPackModel;

    open spec fn view(&self) -> PromptPackModel {
        PromptPackModel {
            base_template: self.base_template@,
            final_requirement: self.final_requirement@,
            negative_prompt: self.negative_prompt@,
            map_templates: texts(self.map_templates@),
        }
    }
}

/// A stored list of texts keyed by map number.
pub open spec fn keyed(pairs: Seq<(String, String)>) -> Map<MapId, Seq<char>>
    decreases pairs.len(),
{
    if pairs.len() == 0 {
        Map::empty()
    } else {
        let before = keyed(pairs.drop_last());
        match MapId::of_key(pairs.last().0@) {
            Some(id) => before.insert(id, pairs.last().1@),
            None => before,
        }
    }
}

/// The texts of a stored list by map: keys that are not the number of a map are left out, and
/// of two entries for one map the later one counts.
pub fn templates_by_map(pairs: &Vec<(String, String)>) -> (r: MapTable<String>)
    ensures
        texts(r@) == keyed(pairs@),
{
    let mut out: MapTable<String> = MapTable::new();
    let mut i: usize = 0;
    proof {
        assert(texts(out@) =~= keyed(pairs@.take(0)));
    }
    while i < pairs.len()
        invariant
            i <= pairs@.len(),
            texts(out@) == keyed(pairs@.take(i as int)),
        decreases pairs@.len() - i,
    {
        let ghost before = out@;
        let pair = &pairs[i];
        proof {
            assert(pairs@.take(i + 1).drop_last() =~= pairs@.take(i as int));
            assert(pairs@.take(i + 1).last() == pairs@[i as int]);
        }
        if let Some(id) = MapId::from_key(pair.0.as_str()) {
            out.insert(id, pair.1.clone());
            proof {
                assert(texts(out@) =~= texts(before).insert(id, pair.1@));
            }
        }
        i += 1;
    }
    proof {
        assert(pairs@.take(pairs@.len() as int) =~= pairs@);
    }
    out
}

} // verus!
