//! Browser target versions and their compact numeric encoding.
//!
//! A version is written in one of four literal shapes and always normalizes
//! to a (major, minor, patch) triple, missing components defaulting to zero.
//! The triple packs into the 24-bit form the CSS transform engine expects:
//! major in the high byte, minor in the middle byte, patch in the low byte.

use vstd::prelude::*;

verus! {

/// One browser family's version requirement, in any of the four accepted
/// literal shapes.
#[derive(Debug, Clone, Copy, PartialEq, Eq)]
pub enum BrowserVersion {
    Major(u8),
    MajorSingleValueArray(u8),
    MajorMinor(u8, u8),
    MajorMinorPatch(u8, u8, u8),
}

/// The (major, minor, patch) triple a version normalizes to.
pub open spec fn spec_version_triple(v: BrowserVersion) -> (u8, u8, u8) {
    match v {
        BrowserVersion::Major(major) => (major, 0u8, 0u8),
        BrowserVersion::MajorSingleValueArray(major) => (major, 0u8, 0u8),
        BrowserVersion::MajorMinor(major, minor) => (major, minor, 0u8),
        BrowserVersion::MajorMinorPatch(major, minor, patch) => (major, minor, patch),
    }
}

/// The packed numeric form of a version: one byte per component, major
/// highest. Components are single bytes, so each is its value modulo 256.
pub open spec fn spec_encode_version(v: BrowserVersion) -> int {
    (spec_version_triple(v).0 as u32) * 0x10000 + (spec_version_triple(v).1 as u32) * 0x100 + (
    spec_version_triple(v).2 as u32)
}

impl From<BrowserVersion> for u32 {
    /// Packs the normalized triple into its 24-bit numeric form.
    fn from(value: BrowserVersion) -> (r: u32) {
        let (major, minor, patch): (u8, u8, u8) = match value {
            BrowserVersion::Major(major) => (major, 0u8, 0u8),
            BrowserVersion::MajorSingleValueArray(major) => (major, 0u8, 0u8),
            BrowserVersion::MajorMinor(major, minor) => (major, minor, 0u8),
            BrowserVersion::MajorMinorPatch(major, minor, patch) => (major, minor, patch),
        };
        let r: u32 = ((major as u32) & 0xff) << 16 | ((minor as u32) & 0xff) << 8 | ((
        patch as u32) & 0xff);
        proof {
            let m = major as u32;
            let n = minor as u32;
            let p = patch as u32;
            assert((m & 0xff) << 16 | (n & 0xff) << 8 | (p & 0xff) == m * 0x10000 + n * 0x100 + p)
                by (bit_vector)
                requires
                    m < 256,
                    n < 256,
                    p < 256,
            ;
        }
        r
    }
}

impl vstd::std_specs::convert::FromSpecImpl<BrowserVersion> for u32 {
    open spec fn obeys_from_spec() -> bool {
        true
    }

    open spec fn from_spec(value: BrowserVersion) -> u32 {
        spec_encode_version(value) as u32
    }
}

/// Optional version requirements, one per supported browser family.
#[derive(Debug, Clone, Copy, Default)]
pub struct BrowserVersions {
    pub android: Option<BrowserVersion>,
    pub chrome: Option<BrowserVersion>,
    pub edge: Option<BrowserVersion>,
    pub firefox: Option<BrowserVersion>,
    pub ie: Option<BrowserVersion>,
    pub ios_saf: Option<BrowserVersion>,
    pub opera: Option<BrowserVersion>,
    pub safari: Option<BrowserVersion>,
    pub samsung: Option<BrowserVersion>,
}

/// The packed form of one optional version; an absent family stays absent,
/// so the engine can tell "no constraint" from "version 0".
pub open spec fn spec_encode_opt(o: Option<BrowserVersion>) -> Option<u32> {
    match o {
        Some(v) => Some((spec_encode_version(v) as u32)),
        None => None,
    }
}

/// The per-family packed versions handed to the CSS transform engine.
#[derive(Debug, Clone, Copy)]
pub struct EncodedBrowserTargets {
    pub android: Option<u32>,
    pub chrome: Option<u32>,
    pub edge: Option<u32>,
    pub firefox: Option<u32>,
    pub ie: Option<u32>,
    pub ios_saf: Option<u32>,
    pub opera: Option<u32>,
    pub safari: Option<u32>,
    pub samsung: Option<u32>,
}

fn encode_opt(o: Option<BrowserVersion>) -> (r: Option<u32>)
    ensures
        r == spec_encode_opt(o),
{
    match o {
        Some(v) => Some(u32::from(v)),
        None => None,
    }
}

impl BrowserVersions {
    /// Packs every present family's version, leaving absent families absent.
    pub fn encode(&self) -> (r: EncodedBrowserTargets)
        ensures
            r.android == spec_encode_opt(self.android),
            r.chrome == spec_encode_opt(self.chrome),
            r.edge == spec_encode_opt(self.edge),
            r.firefox == spec_encode_opt(self.firefox),
            r.ie == spec_encode_opt(self.ie),
            r.ios_saf == spec_encode_opt(self.ios_saf),
            r.opera == spec_encode_opt(self.opera),
            r.safari == spec_encode_opt(self.safari),
            r.samsung == spec_encode_opt(self.samsung),
    {
        EncodedBrowserTargets {
            android: encode_opt(self.android),
            chrome: encode_opt(self.chrome),
            edge: encode_opt(self.edge),
            firefox: encode_opt(self.firefox),
            ie: encode_opt(self.ie),
            ios_saf: encode_opt(self.ios_saf),
            opera: encode_opt(self.opera),
            safari: encode_opt(self.safari),
            samsung: encode_opt(self.samsung),
        }
    }
}

} // verus!
