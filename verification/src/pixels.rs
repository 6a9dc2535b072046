//! Pixel buffers of a material's maps.
//!
//! Real-valued map parameters (strength, radius, …) are carried as the bits of an IEEE 754
//! single: the library stores, compares and hands them on, and never computes with them.

use std::sync::Arc;

use vstd::prelude::*;

use crate::data::MapId;

verus! {

/// The side, in pixels, of the working copy of every map.
pub const TEX_SIZE: usize = 400;

/// How many bytes an RGBA8 square of the working size takes.
pub const WORKING_BYTES: usize = 640_000;

/// The adjust sliders of a map, as a derivation reads them. `strength`, `radius` and
/// `detail_routing` are IEEE 754 single bits.
#[derive(Clone, Copy, Debug, PartialEq, Eq, Structural)]
pub struct DeriveParams {
    pub strength: u32,
    pub invert: bool,
    pub flip_y: bool,
    pub radius: u32,
    pub detail_routing: u32,
}

/// A full-resolution square: RGBA8 bytes and the side. A master is only ever replaced as a
/// whole, so its bytes are shared.
pub type Master = (Arc<Vec<u8>>, usize);

/// A master opened from a document and not decoded yet: its stored PNG section, its stored
/// working-size preview (empty in documents that have none) and its side.
pub type EncodedMaster = (Arc<Vec<u8>>, Arc<Vec<u8>>, usize);

/// Another handle on a master.
pub fn share_master(m: &Master) -> (r: Master)
    ensures
        r == *m,
{
    (Arc::clone(&m.0), m.1)
}

/// Another handle on a master, where there is one.
pub fn share_master_option(m: &Option<Master>) -> (r: Option<Master>)
    ensures
        r == *m,
{
    match m {
        Some(x) => Some(share_master(x)),
        None => None,
    }
}

/// Another handle on a still encoded master.
pub fn share_encoded(m: &EncodedMaster) -> (r: EncodedMaster)
    ensures
        r == *m,
{
    (Arc::clone(&m.0), Arc::clone(&m.1), m.2)
}

/// The working-size pixels of a map, or what they are computed from. The procedural render, the
/// derivation and the downscale depend on nothing else than what is named here, so a buffer can
/// be carried before it is computed.
pub enum Pixels {
    /// RGBA8 bytes.
    Raw(Arc<Vec<u8>>),
    /// The procedural albedo of a seed.
    Procedural { seed: u32 },
    /// A map derived from an albedo of the working size.
    Derived { id: MapId, albedo: Arc<Pixels>, params: DeriveParams },
    /// A full-resolution square brought down to the working size.
    Reduced { full: Arc<Vec<u8>>, side: usize },
}

impl Pixels {
    /// How many bytes the buffer has.
    pub open spec fn bytes(self) -> nat {
        match self {
            Pixels::Raw(px) => px@.len(),
            _ => WORKING_BYTES as nat,
        }
    }

    /// How many bytes the buffer has.
    pub fn byte_len(&self) -> (r: usize)
        ensures
            r == self.bytes(),
    {
        match self {
            Pixels::Raw(px) => px.len(),
            Pixels::Procedural { .. } => WORKING_BYTES,
            Pixels::Derived { .. } => WORKING_BYTES,
            Pixels::Reduced { .. } => WORKING_BYTES,
        }
    }

    /// Another handle on the same buffer.
    pub fn share(&self) -> (r: Pixels)
        ensures
            r == *self,
    {
        match self {
            Pixels::Raw(px) => Pixels::Raw(Arc::clone(px)),
            Pixels::Procedural { seed } => Pixels::Procedural { seed: *seed },
            Pixels::Derived { id, albedo, params } => Pixels::Derived {
                id: *id,
                albedo: Arc::clone(albedo),
                params: *params,
            },
            Pixels::Reduced { full, side } => Pixels::Reduced {
                full: Arc::clone(full),
                side: *side,
            },
        }
    }

    /// Another handle on the same buffer, where there is one.
    pub fn share_option(px: &Option<Pixels>) -> (r: Option<Pixels>)
        ensures
            r == *px,
    {
        match px {
            Some(x) => Some(x.share()),
            None => None,
        }
    }
}

/// Whether an RGBA8 square of side `side` takes `len` bytes.
pub open spec fn square_of(len: nat, side: nat) -> bool {
    len == side * side * 4
}

/// Whether an RGBA8 square of side `side` takes `len` bytes.
pub fn is_square(len: usize, side: usize) -> (r: bool)
    ensures
        r == square_of(len as nat, side as nat),
{
    match side.checked_mul(side) {
        Some(area) => {
            match area.checked_mul(4) {
                Some(bytes) => len == bytes,
                None => false,
            }
        },
        None => {
            proof {
                assert(side * side * 4 > usize::MAX) by (nonlinear_arith)
                    requires
                        side * side > usize::MAX,
                ;
            }
            false
        },
    }
}

/// The working size is the one whose squares take `WORKING_BYTES` bytes.
pub proof fn lemma_working_bytes(side: nat)
    ensures
        square_of(WORKING_BYTES as nat, side) <==> side == TEX_SIZE,
{
    assert(side < 400 ==> side * side * 4 < 640_000) by (nonlinear_arith);
    assert(side > 400 ==> side * side * 4 > 640_000) by (nonlinear_arith);
    assert(side == 400 ==> side * side * 4 == 640_000) by (nonlinear_arith);
}

} // verus!
