//! The decorative base/glint textures used by the volumetric presets
//! (`Trinity`, `Morpheus`, `Bugs`). Each is sampled as a grayscale mask
//! (only the red channel is read) multiplying the base/glint brightness.

use vstd::prelude::*;

verus! {

/// Selects one of the bundled decorative textures (`"sand"`, `"pixels"`,
/// `"mesh"`, `"metal"`).
#[derive(Clone, Copy, Debug, PartialEq, Eq, Structural)]
pub enum DecorativeTexture {
    Sand,
    Pixels,
    Mesh,
    Metal,
}

} // verus!
