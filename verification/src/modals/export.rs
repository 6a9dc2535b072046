//! The export modal: what an export would write, and the job that writes it.

use vstd::prelude::*;

use crate::data::{maps_where, DerivePath, MapId, MAP_COUNT};
use crate::pixels::{share_master, DeriveParams, Pixels, TEX_SIZE};
use crate::render::{
    Effect, EffectModel, ExportJob, ExportJobModel, ExportMap, IoTask, IoTaskModel,
};
use crate::state::generation::{plural, plural_of};
use crate::state::model::{AppModel, AppState};
use crate::text;

verus! {

// ── What the modal shows ─────────────────────────────────────────────────

impl AppModel {
    /// The side of the pixels that an export of a map starts from: its master, for a derived
    /// map the albedo's, else the working copy.
    pub open spec fn source_side(self, id: MapId) -> usize {
        if self.master_pixels.contains_key(id) {
            self.master_side(id)
        } else if id != MapId::Albedo && self.maps[id].derive_path == DerivePath::Derived {
            self.master_side(MapId::Albedo)
        } else {
            TEX_SIZE
        }
    }

    /// The maps whose export would be a plain resize.
    pub open spec fn resized_maps(self) -> Seq<MapId> {
        maps_where(
            |id: MapId| self.has_map(id) && self.source_side(id) < self.export_side(),
            0,
            MAP_COUNT as int,
        )
    }

    /// The names of some maps, with `", "` between them.
    pub open spec fn joined_names(self, ids: Seq<MapId>) -> Seq<char>
        decreases ids.len(),
    {
        if ids.len() == 0 {
            Seq::empty()
        } else if ids.len() == 1 {
            self.catalog.def(ids[0]).name@
        } else {
            self.joined_names(ids.drop_last()) + ", "@ + self.catalog.def(ids.last()).name@
        }
    }

    /// The warning that some maps would only be resized.
    pub open spec fn resize_warning(self, sign: Seq<char>) -> Seq<char> {
        let low = self.resized_maps();
        let names = if low.len() <= 3 {
            " ("@ + self.joined_names(low) + ")"@
        } else {
            Seq::empty()
        };
        sign + " "@ + text::decimal(low.len()) + " map"@ + plural(low.len()) + names + " below "@
            + text::decimal(self.export_side() as nat)
            + "² — plain resize on export. Refine (Step ③) first for real detail."@
    }

    /// The file name of an exported map: the pattern with the material, the map and the
    /// resolution filled in.
    pub open spec fn export_name(self, map: Seq<char>, res: Seq<char>) -> Seq<char> {
        text::replaced(
            text::replaced(
                text::replaced(self.export_pattern, "$material"@, self.material_name),
                "$map"@,
                map,
            ),
            "$res"@,
            res,
        ) + ".png"@
    }
}

impl AppState {
    /// The side of the pixels that an export of a map starts from.
    pub fn source_side(&self, id: MapId) -> (r: usize)
        ensures
            r == self@.source_side(id),
    {
        if self.master_pixels.contains_key(id) {
            self.master_side(id)
        } else if id != MapId::Albedo && self.map(id).derive_path == DerivePath::Derived {
            self.master_side(MapId::Albedo)
        } else {
            TEX_SIZE
        }
    }

    /// The maps whose export would be a plain resize, in the material's order.
    pub fn resized_maps(&self) -> (r: Vec<MapId>)
        ensures
            r@ == self@.resized_maps(),
    {
        let ghost pred = |id: MapId|
            self@.has_map(id) && self@.source_side(id) < self@.export_side();
        let mut out: Vec<MapId> = Vec::new();
        let mut i: usize = 0;
        while i < MAP_COUNT
            invariant
                i <= MAP_COUNT,
                out@ == maps_where(pred, 0, i as int),
                pred == (|id: MapId|
                    self@.has_map(id) && self@.source_side(id) < self@.export_side()),
            decreases MAP_COUNT - i,
        {
            let id = MapId::nth(i);
            if self.has_map(id) && self.source_side(id) < self.export_side() {
                out.push(id);
            }
            i += 1;
        }
        out
    }

    /// The names of some maps, with `", "` between them.
    pub fn joined_names(&self, ids: &Vec<MapId>) -> (r: String)
        ensures
            r@ == self@.joined_names(ids@),
    {
        let mut out = String::new();
        let mut i: usize = 0;
        proof {
            assert(ids@.take(0) =~= Seq::<MapId>::empty());
            assert(out@ =~= self@.joined_names(ids@.take(0)));
        }
        while i < ids.len()
            invariant
                i <= ids@.len(),
                out@ == self@.joined_names(ids@.take(i as int)),
            decreases ids@.len() - i,
        {
            let ghost before = out@;
            proof {
                assert(ids@.take(i + 1).drop_last() =~= ids@.take(i as int));
                assert(ids@.take(i + 1).last() == ids@[i as int]);
            }
            if i > 0 {
                out.append(", ");
            }
            out.append(self.catalog.map_def(ids[i]).name.as_str());
            proof {
                if i == 0 {
                    assert(before =~= Seq::<char>::empty());
                    assert(out@ =~= self@.catalog.def(ids@[0]).name@);
                }
            }
            i += 1;
        }
        proof {
            assert(ids@.take(i as int) =~= ids@);
        }
        out
    }

    /// The warning that some maps would only be resized, where there are any. `sign` is the
    /// warning sign.
    pub fn resize_warning(&self, sign: &str) -> (r: Option<String>)
        ensures
            self@.resized_maps().len() == 0 ==> r is None,
            self@.resized_maps().len() > 0 ==> r is Some && r->0@ == self@.resize_warning(sign@),
    {
        let low = self.resized_maps();
        if low.is_empty() {
            return None;
        }
        let names = if low.len() <= 3 {
            let joined = self.joined_names(&low);
            text::cat3(" (", joined.as_str(), ")")
        } else {
            String::new()
        };
        let n = text::number(low.len() as u128);
        let side = text::number(self.export_side() as u128);
        let head = text::cat5(sign, " ", n.as_str(), " map", plural_of(low.len()));
        Some(
            text::cat5(
                head.as_str(),
                names.as_str(),
                " below ",
                side.as_str(),
                "² — plain resize on export. Refine (Step ③) first for real detail.",
            ),
        )
    }

    /// The file name of an exported map. `res` is the resolution label in small letters.
    pub fn export_name(&self, map: &str, res: &str) -> (r: String)
        ensures
            r@ == self@.export_name(map@, res@),
    {
        proof {
            reveal_strlit("$material");
            reveal_strlit("$map");
            reveal_strlit("$res");
        }
        let named = text::replace(
            self.export_pattern.as_str(),
            "$material",
            self.material_name.as_str(),
        );
        let mapped = text::replace(named.as_str(), "$map", map);
        let sized = text::replace(mapped.as_str(), "$res", res);
        text::cat(sized.as_str(), ".png")
    }

    /// The file names that the modal shows: those of the first four maps.
    pub fn names_preview(&self) -> (r: [String; 4])
        ensures
            r@[0]@ == self@.export_name(
                "albedo"@,
                text::lowercased(self@.export_res_short()),
            ),
            r@[1]@ == self@.export_name(
                "roughness"@,
                text::lowercased(self@.export_res_short()),
            ),
            r@[2]@ == self@.export_name(
                "metallic"@,
                text::lowercased(self@.export_res_short()),
            ),
            r@[3]@ == self@.export_name(
                "normal"@,
                text::lowercased(self@.export_res_short()),
            ),
    {
        let res = text::to_lowercase(self.export_res_short());
        [
            self.export_name("albedo", res.as_str()),
            self.export_name("roughness", res.as_str()),
            self.export_name("metallic", res.as_str()),
            self.export_name("normal", res.as_str()),
        ]
    }
}

// ── The job ──────────────────────────────────────────────────────────────

impl AppModel {
    /// The albedo that missing maps are derived from: its master, else its working copy.
    pub open spec fn export_source(self) -> Option<ExportMap> {
        if self.master_pixels.contains_key(MapId::Albedo) {
            let m = self.master_pixels[MapId::Albedo];
            Some(ExportMap { pixels: Pixels::Raw(m.0), side: m.1 })
        } else if self.has_map(MapId::Albedo) {
            Some(ExportMap { pixels: self.export_albedo(), side: TEX_SIZE })
        } else {
            None
        }
    }

    /// Whether a map is derived for the export: it is a derived one without a master.
    pub open spec fn derived_for_export(self, id: MapId) -> bool {
        self.has_map(id) && !self.master_pixels.contains_key(id) && id != MapId::Albedo
            && self.maps[id].derive_path == DerivePath::Derived && self.export_source() is Some
    }

    /// The pixels of a map that is exported as it is: its master, else what there is of it.
    pub open spec fn exported_map(self, id: MapId) -> Option<ExportMap> {
        if !self.has_map(id) || self.derived_for_export(id) {
            None
        } else if self.master_pixels.contains_key(id) {
            let m = self.master_pixels[id];
            Some(ExportMap { pixels: Pixels::Raw(m.0), side: m.1 })
        } else {
            match self.export_pixels(id) {
                Some(px) => Some(ExportMap { pixels: px, side: TEX_SIZE }),
                None => None,
            }
        }
    }

    /// The maps at the positions below `n` that are exported as they are, in order.
    pub open spec fn exported_maps(self, n: int) -> Seq<(MapId, ExportMap)>
        decreases n,
    {
        if n <= 0 {
            Seq::empty()
        } else {
            let before = self.exported_maps(n - 1);
            match self.exported_map(MapId::at(n - 1)) {
                Some(e) => before.push((MapId::at(n - 1), e)),
                None => before,
            }
        }
    }

    /// The maps at the positions below `n` that are derived for the export, in order.
    pub open spec fn derived_maps(self, n: int) -> Seq<(MapId, DeriveParams)>
        decreases n,
    {
        if n <= 0 {
            Seq::empty()
        } else {
            let before = self.derived_maps(n - 1);
            let id = MapId::at(n - 1);
            if self.derived_for_export(id) {
                before.push((id, self.maps[id].params()))
            } else {
                before
            }
        }
    }

    /// The seam margin of an export: the configured one, at most a quarter of the side.
    pub open spec fn seam_margin(self) -> usize {
        let wanted = match text::bounded_numeral(
            text::trimmed(self.settings.seam_margin),
            usize::MAX as nat,
        ) {
            Some(v) => v as usize,
            None => 64,
        };
        let max = (self.export_side() / 4) as usize;
        if wanted > max {
            max
        } else {
            wanted
        }
    }

    /// The export of the open material.
    pub open spec fn export_job(self) -> ExportJobModel {
        ExportJobModel {
            maps: self.exported_maps(MAP_COUNT as int),
            derive_missing: self.derived_maps(MAP_COUNT as int),
            albedo: self.export_source(),
            out_size: self.export_side(),
            material: self.material_name,
            res: text::decimal((self.export_side() / 1024) as nat) + "k"@,
            pattern: self.export_pattern,
            engine: self.engine,
            directx_normal: self.settings.normal_convention == 1,
            displacement_16bit_png: self.maps[MapId::Displacement].bit_depth_16,
            seed: self.seed,
            prompt: self.description,
            seam_margin: self.seam_margin(),
        }
    }

    /// The state with an export to a folder on its way.
    pub open spec fn run_export(self, dir: Seq<char>) -> AppModel {
        AppModel { last_export_dir: Some(dir), ..self }.emitting(
            EffectModel::Submit(IoTaskModel::Export { job: self.export_job(), dir }),
        )
    }
}

impl AppState {
    /// The albedo that missing maps are derived from.
    fn export_source(&self) -> (r: Option<ExportMap>)
        ensures
            r == self@.export_source(),
    {
        if let Some(m) = self.master_pixels.get(MapId::Albedo) {
            let m = share_master(m);
            return Some(ExportMap { pixels: Pixels::Raw(m.0), side: m.1 });
        }
        if self.has_map(MapId::Albedo) {
            Some(ExportMap { pixels: self.export_albedo(), side: TEX_SIZE })
        } else {
            None
        }
    }

    /// Whether a map is derived for the export.
    fn is_derived_for_export(&self, id: MapId) -> (r: bool)
        ensures
            r == self@.derived_for_export(id),
    {
        self.has_map(id) && !self.master_pixels.contains_key(id) && id != MapId::Albedo
            && self.map(id).derive_path == DerivePath::Derived && self.export_source().is_some()
    }

    /// The pixels of a map that is exported as it is.
    fn exported_map(&self, id: MapId) -> (r: Option<ExportMap>)
        ensures
            r == self@.exported_map(id),
    {
        if !self.has_map(id) || self.is_derived_for_export(id) {
            return None;
        }
        if let Some(m) = self.master_pixels.get(id) {
            let m = share_master(m);
            return Some(ExportMap { pixels: Pixels::Raw(m.0), side: m.1 });
        }
        match self.export_pixels(id) {
            Some(px) => Some(ExportMap { pixels: px, side: TEX_SIZE }),
            None => None,
        }
    }

    /// The maps that are exported as they are, and those that are derived.
    fn export_maps(&self) -> (r: (Vec<(MapId, ExportMap)>, Vec<(MapId, DeriveParams)>))
        ensures
            r.0@ == self@.exported_maps(MAP_COUNT as int),
            r.1@ == self@.derived_maps(MAP_COUNT as int),
    {
        let mut maps: Vec<(MapId, ExportMap)> = Vec::new();
        let mut missing: Vec<(MapId, DeriveParams)> = Vec::new();
        let mut i: usize = 0;
        while i < MAP_COUNT
            invariant
                i <= MAP_COUNT,
                maps@ == self@.exported_maps(i as int),
                missing@ == self@.derived_maps(i as int),
            decreases MAP_COUNT - i,
        {
            let id = MapId::nth(i);
            if self.is_derived_for_export(id) {
                missing.push((id, self.map(id).derive_params()));
            }
            if let Some(e) = self.exported_map(id) {
                maps.push((id, e));
            }
            i += 1;
        }
        (maps, missing)
    }

    /// The seam margin of an export.
    fn seam_margin(&self) -> (r: usize)
        ensures
            r == self@.seam_margin(),
    {
        let field = text::trim(self.settings.seam_margin.as_str());
        let wanted: usize = match text::parse_usize(field.as_str()) {
            Some(v) => v,
            None => 64,
        };
        let max: usize = self.export_side() / 4;
        if wanted > max {
            max
        } else {
            wanted
        }
    }

    /// The export of the open material. Every map goes out from its highest-resolution source,
    /// and derived maps are derived at the albedo's resolution.
    pub fn export_job(&self) -> (r: ExportJob)
        ensures
            r@ == self@.export_job(),
    {
        let (maps, derive_missing) = self.export_maps();
        let out_size: usize = self.export_side();
        let k = text::number((out_size / 1024) as u128);
        ExportJob {
            maps,
            derive_missing,
            albedo: self.export_source(),
            out_size,
            material: self.material_name.clone(),
            res: text::cat(k.as_str(), "k"),
            pattern: self.export_pattern.clone(),
            engine: self.engine.clone(),
            directx_normal: self.settings.normal_convention == 1,
            displacement_16bit_png: self.map(MapId::Displacement).bit_depth_16,
            seed: self.seed,
            prompt: self.description.clone(),
            seam_margin: self.seam_margin(),
        }
    }

    /// Whether an export can be launched: no master is being decoded, which would go out as its
    /// working copy.
    pub fn can_export(&self) -> (r: bool)
        ensures
            r == (self@.masters_loading == Set::<MapId>::empty()),
    {
        self.masters_loading.is_empty()
    }

    /// Asks for an export to a folder.
    pub fn run_export(&mut self, dir: String)
        ensures
            final(self)@ == old(self)@.run_export(dir@),
    {
        let job = self.export_job();
        self.last_export_dir = Some(dir.clone());
        self.emit(Effect::Submit(IoTask::Export { job, dir }));
    }
}

/// A map is exported as it is, or derived, or not at all: never twice, and never from another
/// map's pixels. A map that carries meaning and has no pixels of its own is not exported.
pub proof fn lemma_export_honest(m: AppModel, id: MapId)
    ensures
        !(m.exported_map(id) is Some && m.derived_for_export(id)),
        id != MapId::Albedo && !id.geometric() && m.maps[id].derive_path == DerivePath::Ai
            && !m.map_pixels.contains_key(id) && !m.master_pixels.contains_key(id)
            ==> m.exported_map(id) is None && !m.derived_for_export(id),
        m.derived_for_export(id) ==> m.export_source() is Some,
{
}

} // verus!
