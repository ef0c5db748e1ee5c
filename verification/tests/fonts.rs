use egui_screensaver_matrix::fonts::{FontAtlas, FontId};

const ALL_FONTS: [FontId; 8] = [
    FontId::Matrixcode,
    FontId::Megacity,
    FontId::Neomatrixology,
    FontId::Gothic,
    FontId::Coptic,
    FontId::HuberfishA,
    FontId::HuberfishD,
    FontId::Resurrections,
];

#[test]
fn matrixcode_atlas_metadata() {
    let atlas: FontAtlas = FontId::Matrixcode.atlas();
    assert_eq!(atlas.name, "matrixcode");
    assert_eq!(atlas.glyph_sequence_length, 57);
    assert_eq!((atlas.grid_cols, atlas.grid_rows), (8, 8));
    assert!(!atlas.has_glint);
}

#[test]
fn resurrections_atlas_has_glint() {
    let atlas = FontId::Resurrections.atlas();
    assert_eq!(atlas.name, "resurrections");
    assert_eq!(atlas.glyph_sequence_length, 135);
    assert_eq!((atlas.grid_cols, atlas.grid_rows), (13, 12));
    assert!(atlas.has_glint);
}

#[test]
fn every_atlas_fits_its_grid() {
    for font in ALL_FONTS {
        let atlas = font.atlas();
        assert!(atlas.glyph_sequence_length > 0);
        assert!(atlas.glyph_sequence_length <= atlas.grid_cols * atlas.grid_rows);
        assert_eq!(atlas.has_glint, font == FontId::Resurrections);
    }
}

#[test]
fn other_atlases_metadata() {
    let expected = [
        (FontId::Megacity, "megacity", 64, 8, 8),
        (FontId::Neomatrixology, "neomatrixology", 12, 4, 4),
        (FontId::Gothic, "gothic", 27, 8, 8),
        (FontId::Coptic, "coptic", 32, 8, 8),
        (FontId::HuberfishA, "huberfishA", 34, 6, 6),
        (FontId::HuberfishD, "huberfishD", 34, 6, 6),
    ];
    for (font, name, glyphs, cols, rows) in expected {
        let atlas = font.atlas();
        assert_eq!(atlas.name, name);
        assert_eq!(atlas.glyph_sequence_length, glyphs);
        assert_eq!((atlas.grid_cols, atlas.grid_rows), (cols, rows));
    }
}

#[test]
fn default_font_is_matrixcode() {
    assert_eq!(FontId::default(), FontId::Matrixcode);
}
