use egui_screensaver_matrix::config::{
    pride_stripe_colors, ripple_type_code, trans_stripe_colors, Effect, Hsl, MatrixConfig,
    PaletteStop, Preset, Rgb, RippleType,
};
use egui_screensaver_matrix::fonts::FontId;
use egui_screensaver_matrix::textures::DecorativeTexture;

const ALL_PRESETS: [Preset; 13] = [
    Preset::Classic,
    Preset::Megacity,
    Preset::Neomatrixology,
    Preset::Operator,
    Preset::Nightmare,
    Preset::Paradise,
    Preset::Resurrections,
    Preset::Palimpsest,
    Preset::Twilight,
    Preset::Trinity,
    Preset::Morpheus,
    Preset::Bugs,
    Preset::ThreeD,
];

fn stop(h: i32, s: i32, l: i32, at: i32) -> PaletteStop {
    PaletteStop { color: Hsl { h, s, l }, at }
}

fn palette(config: &MatrixConfig) -> Vec<PaletteStop> {
    match &config.effect {
        Effect::Palette(stops) => stops.clone(),
        other => panic!("expected a palette, got {other:?}"),
    }
}

#[test]
fn default_config_values() {
    let c = MatrixConfig::default();
    assert_eq!(c.font, FontId::Matrixcode);
    assert_eq!(c.num_columns, 80);
    assert_eq!(c.animation_speed, 1000);
    assert_eq!(c.fall_speed, 300);
    assert_eq!(c.raindrop_length, 750);
    assert_eq!(c.cycle_speed, 30);
    assert_eq!(c.cycle_frame_skip, 1);
    assert!(c.skip_intro);
    assert!(!c.has_thunder);
    assert_eq!(c.ripple_type, None);
    assert_eq!(c.ripple_scale, 30000);
    assert_eq!(c.base_brightness, -500);
    assert_eq!(c.base_contrast, 1100);
    assert_eq!(c.cursor_color, Hsl { h: 242, s: 1000, l: 730 });
    assert_eq!(c.glint_color, Hsl { h: 0, s: 0, l: 1000 });
    assert_eq!(c.background_color, Hsl { h: 0, s: 0, l: 0 });
    assert_eq!(c.bloom_strength, 700);
    assert_eq!(c.bloom_size, 400);
    assert_eq!(c.glint_brightness, -1500);
    assert_eq!(c.glint_contrast, 2500);
    assert!(!c.volumetric);
    assert_eq!(c.base_texture, None);
    assert_eq!(
        palette(&c),
        vec![stop(300, 900, 0, 0), stop(300, 900, 200, 200), stop(300, 900, 700, 700), stop(300, 900, 800, 800)]
    );
}

#[test]
fn classic_preset_is_the_default() {
    let c = MatrixConfig::from_preset(Preset::Classic);
    let d = MatrixConfig::default();
    assert_eq!(c.font, d.font);
    assert_eq!(c.num_columns, d.num_columns);
    assert_eq!(c.cursor_color, d.cursor_color);
    assert_eq!(palette(&c), palette(&d));
    assert_eq!(Preset::default(), Preset::Classic);
}

#[test]
fn megacity_preset_overrides_three_fields() {
    let c = MatrixConfig::from_preset(Preset::Megacity);
    assert_eq!(c.font, FontId::Megacity);
    assert_eq!(c.animation_speed, 500);
    assert_eq!(c.num_columns, 40);
    assert_eq!(c.fall_speed, 300);
    assert_eq!(c.bloom_size, 400);
}

#[test]
fn operator_preset_values() {
    let c = MatrixConfig::from_preset(Preset::Operator);
    assert_eq!(c.cursor_color, Hsl { h: 375, s: 1000, l: 660 });
    assert_eq!(c.cursor_intensity, 3000);
    assert_eq!(c.bloom_size, 600);
    assert_eq!(c.cycle_frame_skip, 8);
    assert_eq!(c.brightness_override, 220);
    assert_eq!(c.glyph_height_to_width, 1350);
    assert_eq!(c.ripple_type, Some(RippleType::Box));
    assert_eq!(c.num_columns, 108);
    assert_eq!(c.raindrop_length, 1500);
    assert_eq!(
        palette(&c),
        vec![stop(400, 800, 0, 0), stop(400, 800, 500, 500), stop(400, 800, 1000, 1000)]
    );
}

#[test]
fn nightmare_and_palimpsest_slant() {
    assert_eq!(MatrixConfig::from_preset(Preset::Nightmare).slant, 22500);
    assert_eq!(MatrixConfig::from_preset(Preset::Palimpsest).slant, -11250);
    assert_eq!(MatrixConfig::from_preset(Preset::Classic).slant, 0);
}

#[test]
fn trinity_preset_values() {
    let c = MatrixConfig::from_preset(Preset::Trinity);
    assert_eq!(c.font, FontId::Resurrections);
    assert_eq!(c.glint_texture, Some(DecorativeTexture::Metal));
    assert_eq!(c.base_texture, Some(DecorativeTexture::Pixels));
    assert!(c.isolate_glint);
    assert!(c.volumetric);
    assert_eq!(c.density, 750);
    assert_eq!(c.forward_speed, 200);
    assert_eq!(palette(&c), vec![stop(370, 600, 0, 0), stop(370, 600, 500, 1000)]);
}

#[test]
fn apply_preset_forgets_previous_settings() {
    let mut c = MatrixConfig::from_preset(Preset::Trinity);
    c.apply_preset(Preset::Megacity);
    assert!(!c.volumetric);
    assert_eq!(c.base_texture, None);
    assert_eq!(c.glint_texture, None);
    assert_eq!(c.font, FontId::Megacity);
    let fresh = MatrixConfig::from_preset(Preset::Megacity);
    assert_eq!(c.num_columns, fresh.num_columns);
    assert_eq!(c.density, fresh.density);
    assert_eq!(palette(&c), palette(&fresh));
}

#[test]
fn volumetric_presets_are_exactly_four() {
    for preset in ALL_PRESETS {
        let c = MatrixConfig::from_preset(preset);
        let expected = matches!(
            preset,
            Preset::Trinity | Preset::Morpheus | Preset::Bugs | Preset::ThreeD
        );
        assert_eq!(c.volumetric, expected, "{preset:?}");
    }
}

#[test]
fn presets_are_well_formed() {
    for preset in ALL_PRESETS {
        let c = MatrixConfig::from_preset(preset);
        assert!(c.num_columns > 0);
        assert!(c.cycle_frame_skip > 0);
        let stops = palette(&c);
        assert!(!stops.is_empty());
        assert!(stops.iter().all(|s| (0..=1000).contains(&s.at)));
        if c.isolate_glint {
            assert!(c.font.atlas().has_glint);
        }
    }
}

#[test]
fn pride_colors_repeat_each_twice() {
    let colors = pride_stripe_colors();
    assert_eq!(colors.len(), 12);
    assert_eq!(colors[0], Rgb { r: 890, g: 10, b: 10 });
    assert_eq!(colors[1], Rgb { r: 890, g: 10, b: 10 });
    assert_eq!(colors[2], Rgb { r: 1000, g: 550, b: 0 });
    assert_eq!(colors[11], Rgb { r: 460, g: 30, b: 530 });
}

#[test]
fn trans_colors_repeat_each_three_times() {
    let colors = trans_stripe_colors();
    assert_eq!(colors.len(), 15);
    assert_eq!(colors[0], Rgb { r: 360, g: 810, b: 980 });
    assert_eq!(colors[2], Rgb { r: 360, g: 810, b: 980 });
    assert_eq!(colors[3], Rgb { r: 960, g: 660, b: 720 });
    assert_eq!(colors[6], Rgb { r: 1000, g: 1000, b: 1000 });
    assert_eq!(colors[14], Rgb { r: 360, g: 810, b: 980 });
}

#[test]
fn ripple_codes() {
    assert_eq!(ripple_type_code(None), -1);
    assert_eq!(ripple_type_code(Some(RippleType::Box)), 0);
    assert_eq!(ripple_type_code(Some(RippleType::Circle)), 1);
}
