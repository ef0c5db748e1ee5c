//! Metadata of the bundled MSDF glyph atlases: all 8 fonts used by the 9
//! non-volumetric presets.

use vstd::prelude::*;

verus! {

/// A multi-channel signed distance field glyph atlas: a grid of
/// `grid_cols * grid_rows` glyph cells, of which the first
/// `glyph_sequence_length` are valid symbols (the rest are unused padding
/// in the grid).
#[derive(Clone, Copy, Debug)]
pub struct FontAtlas {
    /// The font's name, for labelling a font selector.
    pub name: &'static str,
    /// Whether the font ships a second MSDF atlas, at the same grid
    /// layout, for the "glint" highlight layer.
    pub has_glint: bool,
    pub glyph_sequence_length: u32,
    pub grid_cols: u32,
    pub grid_rows: u32,
}

/// Selects one of the bundled fonts. Each named `Preset` picks one of
/// these.
#[derive(Clone, Copy, Debug, PartialEq, Eq, Structural)]
pub enum FontId {
    Matrixcode,
    Megacity,
    Neomatrixology,
    Gothic,
    Coptic,
    HuberfishA,
    HuberfishD,
    Resurrections,
}

impl Default for FontId {
    fn default() -> (r: Self)
        ensures
            r == FontId::Matrixcode,
    {
        FontId::Matrixcode
    }
}

/// Number of valid glyphs in a font's atlas.
pub open spec fn glyph_count(font: FontId) -> nat {
    match font {
        FontId::Matrixcode => 57,
        FontId::Megacity => 64,
        FontId::Neomatrixology => 12,
        FontId::Gothic => 27,
        FontId::Coptic => 32,
        FontId::HuberfishA => 34,
        FontId::HuberfishD => 34,
        FontId::Resurrections => 135,
    }
}

/// The `(columns, rows)` of a font's atlas grid.
pub open spec fn grid_size(font: FontId) -> (nat, nat) {
    match font {
        FontId::Matrixcode => (8, 8),
        FontId::Megacity => (8, 8),
        FontId::Neomatrixology => (4, 4),
        FontId::Gothic => (8, 8),
        FontId::Coptic => (8, 8),
        FontId::HuberfishA => (6, 6),
        FontId::HuberfishD => (6, 6),
        FontId::Resurrections => (13, 12),
    }
}

/// Only the `resurrections` font has a glint atlas.
pub open spec fn has_glint_atlas(font: FontId) -> bool {
    font == FontId::Resurrections
}

/// The name a font is labelled with.
pub open spec fn font_name(font: FontId) -> Seq<char> {
    match font {
        FontId::Matrixcode => "matrixcode"@,
        FontId::Megacity => "megacity"@,
        FontId::Neomatrixology => "neomatrixology"@,
        FontId::Gothic => "gothic"@,
        FontId::Coptic => "coptic"@,
        FontId::HuberfishA => "huberfishA"@,
        FontId::HuberfishD => "huberfishD"@,
        FontId::Resurrections => "resurrections"@,
    }
}

impl FontId {
    /// The atlas metadata of this font.
    pub fn atlas(self) -> (r: FontAtlas)
        ensures
            r.name@ == font_name(self),
            r.has_glint == has_glint_atlas(self),
            r.glyph_sequence_length == glyph_count(self),
            r.grid_cols == grid_size(self).0,
            r.grid_rows == grid_size(self).1,
    {
        match self {
            FontId::Matrixcode => FontAtlas {
                name: "matrixcode",
                has_glint: false,
                glyph_sequence_length: 57,
                grid_cols: 8,
                grid_rows: 8,
            },
            FontId::Megacity => FontAtlas {
                name: "megacity",
                has_glint: false,
                glyph_sequence_length: 64,
                grid_cols: 8,
                grid_rows: 8,
            },
            FontId::Neomatrixology => FontAtlas {
                name: "neomatrixology",
                has_glint: false,
                glyph_sequence_length: 12,
                grid_cols: 4,
                grid_rows: 4,
            },
            FontId::Gothic => FontAtlas {
                name: "gothic",
                has_glint: false,
                glyph_sequence_length: 27,
                grid_cols: 8,
                grid_rows: 8,
            },
            FontId::Coptic => FontAtlas {
                name: "coptic",
                has_glint: false,
                glyph_sequence_length: 32,
                grid_cols: 8,
                grid_rows: 8,
            },
            FontId::HuberfishA => FontAtlas {
                name: "huberfishA",
                has_glint: false,
                glyph_sequence_length: 34,
                grid_cols: 6,
                grid_rows: 6,
            },
            FontId::HuberfishD => FontAtlas {
                name: "huberfishD",
                has_glint: false,
                glyph_sequence_length: 34,
                grid_cols: 6,
                grid_rows: 6,
            },
            FontId::Resurrections => FontAtlas {
                name: "resurrections",
                has_glint: true,
                glyph_sequence_length: 135,
                grid_cols: 13,
                grid_rows: 12,
            },
        }
    }
}

/// Every atlas has at least one valid glyph, and its valid glyphs fit in
/// its grid: the first `glyph_sequence_length` of the
/// `grid_cols * grid_rows` cells are symbols, the rest padding.
pub proof fn lemma_glyphs_fit_grid(font: FontId)
    ensures
        0 < glyph_count(font),
        glyph_count(font) <= grid_size(font).0 * grid_size(font).1,
{
}


/// The bundled atlases: each font's valid glyph count and grid, and its
/// glint atlas (only `resurrections` has one).
pub proof fn lemma_font_atlases(font: FontId)
    ensures
        (glyph_count(font), grid_size(font).0, grid_size(font).1) == (match font {
            FontId::Matrixcode => (57nat, 8nat, 8nat),
            FontId::Megacity => (64nat, 8nat, 8nat),
            FontId::Neomatrixology => (12nat, 4nat, 4nat),
            FontId::Gothic => (27nat, 8nat, 8nat),
            FontId::Coptic => (32nat, 8nat, 8nat),
            FontId::HuberfishA => (34nat, 6nat, 6nat),
            FontId::HuberfishD => (34nat, 6nat, 6nat),
            FontId::Resurrections => (135nat, 13nat, 12nat),
        }),
        has_glint_atlas(font) <==> font == FontId::Resurrections,
{
}

} // verus!
