//! Surface color-format negotiation.
//!
//! A presentation surface advertises a non-empty list of color formats it
//! supports. The renderer picks one by a fixed, ordered preference:
//! `Rgba8Unorm` if present, else `Bgra8Unorm` if present, else the first
//! advertised format. The choice is a pure function of the capability
//! list, so downstream consumers can rely on a specific byte layout.

use vstd::prelude::*;

verus! {

/// A color format a presentation surface may advertise. Formats the
/// preference policy never distinguishes are carried by `Other` under a
/// numeric tag chosen by the caller.
#[derive(Clone, Copy, Debug, PartialEq, Eq, Structural)]
pub enum SurfaceFormat {
    Rgba8Unorm,
    Bgra8Unorm,
    Rgba8UnormSrgb,
    Bgra8UnormSrgb,
    Rg11b10Float,
    Other(u32),
}

/// The format the policy selects from a non-empty capability list:
/// `Rgba8Unorm` if advertised, else `Bgra8Unorm` if advertised, else the
/// first entry of the list.
pub open spec fn spec_negotiate(formats: Seq<SurfaceFormat>) -> SurfaceFormat
    recommends
        formats.len() > 0,
{
    if formats.contains(SurfaceFormat::Rgba8Unorm) {
        SurfaceFormat::Rgba8Unorm
    } else if formats.contains(SurfaceFormat::Bgra8Unorm) {
        SurfaceFormat::Bgra8Unorm
    } else {
        formats[0]
    }
}

fn contains_format(formats: &Vec<SurfaceFormat>, f: SurfaceFormat) -> (present: bool)
    ensures
        present == formats@.contains(f),
{
    let mut i: usize = 0;
    while i < formats.len()
        invariant
            i <= formats@.len(),
            forall|j: int| 0 <= j < i ==> formats@[j] != f,
        decreases formats@.len() - i,
    {
        if formats[i] == f {
            assert(formats@[i as int] == f);
            return true;
        }
        i = i + 1;
    }
    false
}

/// Select the surface color format from the advertised capability list.
pub fn negotiate_format(formats: &Vec<SurfaceFormat>) -> (chosen: SurfaceFormat)
    requires
        formats@.len() > 0,
    ensures
        chosen == spec_negotiate(formats@),
{
    if contains_format(formats, SurfaceFormat::Rgba8Unorm) {
        SurfaceFormat::Rgba8Unorm
    } else if contains_format(formats, SurfaceFormat::Bgra8Unorm) {
        SurfaceFormat::Bgra8Unorm
    } else {
        formats[0]
    }
}

/// Negotiation is deterministic: the choice depends only on whether each
/// preferred format is advertised and, failing both, on the first entry.
/// Two capability lists that agree on those three points yield the same
/// format, whatever their order or length.
pub proof fn lemma_negotiation_deterministic(a: Seq<SurfaceFormat>, b: Seq<SurfaceFormat>)
    requires
        a.len() > 0,
        b.len() > 0,
        a.contains(SurfaceFormat::Rgba8Unorm) == b.contains(SurfaceFormat::Rgba8Unorm),
        a.contains(SurfaceFormat::Bgra8Unorm) == b.contains(SurfaceFormat::Bgra8Unorm),
        !a.contains(SurfaceFormat::Rgba8Unorm) && !a.contains(SurfaceFormat::Bgra8Unorm)
            ==> a[0] == b[0],
    ensures
        spec_negotiate(a) == spec_negotiate(b),
{
}

} // verus!
