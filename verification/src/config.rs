//! The tunable parameters and the named presets, written in exact
//! decimal form.
//!
//! Every fractional tunable is held as an integer number of thousandths
//! (`1000` stands for `1.0`, `-500` for `-0.5`), which represents each
//! preset value exactly as written. Angles (`slant`, `glyph_rotation`)
//! are thousandths of a degree, and colors are given as HSL triples
//! (each component in thousandths).

use vstd::prelude::*;

use crate::fonts::{has_glint_atlas, FontId};
use crate::textures::DecorativeTexture;

verus! {

/// An `hsl(h, s, l)` color; each component is in thousandths of the
/// `0..1` range.
#[derive(Clone, Copy, Debug, PartialEq, Eq, Structural)]
pub struct Hsl {
    pub h: i32,
    pub s: i32,
    pub l: i32,
}

/// An RGB color; each channel is in thousandths of the `0..1` range.
#[derive(Clone, Copy, Debug, PartialEq, Eq, Structural)]
pub struct Rgb {
    pub r: i32,
    pub g: i32,
    pub b: i32,
}

/// One color stop in an `Effect::Palette` gradient. `at` is the
/// brightness position (`0..=1000`) this color sits at; stops are sorted
/// and interpolated between when the gradient texture is built.
#[derive(Clone, Copy, Debug, PartialEq, Eq, Structural)]
pub struct PaletteStop {
    pub color: Hsl,
    pub at: i32,
}

/// Selects how rain brightness gets mapped to final on-screen color.
/// Independent of preset and font selection.
#[derive(Clone, Debug)]
pub enum Effect {
    /// Maps brightness through a smooth gradient of color stops.
    Palette(Vec<PaletteStop>),
    /// Multiplies brightness by a custom repeating/sweeping color
    /// sequence instead of a gradient.
    Stripes(Vec<Rgb>),
    /// The pride-flag color sweep.
    Pride,
    /// The trans-flag color sweep.
    Trans,
}

/// The mathematical value of an `Effect`.
pub enum EffectView {
    Palette(Seq<PaletteStop>),
    Stripes(Seq<Rgb>),
    Pride,
    Trans,
}

impl View for Effect {
    type V = EffectView;

    open spec fn view(&self) -> EffectView {
        match self {
            Effect::Palette(stops) => EffectView::Palette(stops@),
            Effect::Stripes(colors) => EffectView::Stripes(colors@),
            Effect::Pride => EffectView::Pride,
            Effect::Trans => EffectView::Trans,
        }
    }
}

/// Which screen-space ripple distortion effect is active, if any.
#[derive(Clone, Copy, Debug, PartialEq, Eq, Structural)]
pub enum RippleType {
    Box,
    Circle,
}

/// Rain simulation, glyph-rendering, bloom, and color tunables.
#[derive(Clone, Debug)]
pub struct MatrixConfig {
    /// Which bundled glyph atlas to render with.
    pub font: FontId,
    /// Number of glyph columns across the screen width; the row count is
    /// derived from it.
    pub num_columns: u32,
    /// Global multiplier on every time-driven animation.
    pub animation_speed: i32,
    /// How fast raindrops fall down their column.
    pub fall_speed: i32,
    /// Frequency and visual length of raindrops (larger = longer, sparser).
    pub raindrop_length: i32,
    /// How quickly a cell's brightness blends toward its newly computed
    /// value each tick (`1000` snaps instantly).
    pub brightness_decay: i32,
    /// How fast glyphs cycle to a new random symbol.
    pub cycle_speed: i32,
    /// Minimum number of ticks between glyph-cycling checks.
    pub cycle_frame_skip: u32,
    /// Skips the "rain reveals from a blank screen" intro animation.
    pub skip_intro: bool,
    /// Adds lightning-flash brightness spikes.
    pub has_thunder: bool,
    /// The angle rain falls at, in thousandths of a degree.
    pub slant: i32,
    /// Arcs the glyph grid across the screen instead of a flat grid.
    pub is_polar: bool,
    /// Screen-space ripple distortion, if any.
    pub ripple_type: Option<RippleType>,
    /// Size of the ripple effect.
    pub ripple_scale: i32,
    /// Speed the ripple effect travels at.
    pub ripple_speed: i32,
    /// Thickness of the ripple effect's visible ring/edge.
    pub ripple_thickness: i32,
    /// Aspect ratio of individual glyphs.
    pub glyph_height_to_width: i32,
    /// Crops a border around each glyph in the font atlas.
    pub glyph_edge_crop: i32,
    /// Horizontally mirrors glyphs.
    pub glyph_flip: bool,
    /// Rotates glyphs, in thousandths of a degree.
    pub glyph_rotation: i32,
    /// Brightness offset applied before contrast.
    pub base_brightness: i32,
    /// Contrast multiplier for glyph brightness.
    pub base_contrast: i32,
    /// Minimum brightness for a glyph to still be considered visible.
    pub brightness_threshold: i32,
    /// If greater than 0, overrides computed brightness with this fixed
    /// value (for cells above `brightness_threshold`).
    pub brightness_override: i32,
    /// Whether the brightest glyph at the bottom of a raindrop gets its
    /// own highlight color.
    pub isolate_cursor: bool,
    /// The cursor's highlight color.
    pub cursor_color: Hsl,
    /// Intensity multiplier for the cursor color.
    pub cursor_intensity: i32,
    /// The glint highlight color.
    pub glint_color: Hsl,
    /// Intensity multiplier for the glint color.
    pub glint_intensity: i32,
    /// The color behind the glyphs.
    pub background_color: Hsl,
    /// Magnitude of random per-pixel dimming, to hide gradient banding.
    pub dither_magnitude: i32,
    /// Intensity of the glow/bloom effect; `0` disables bloom.
    pub bloom_strength: i32,
    /// Resolution scale (relative to the screen) of the bloom pyramid.
    pub bloom_size: i32,
    /// Minimum per-channel brightness that still contributes to bloom.
    pub high_pass_threshold: i32,
    /// How brightness maps to final color.
    pub effect: Effect,
    /// Renders glyphs in perspective instead of a flat 2D grid.
    pub volumetric: bool,
    /// In volumetric mode, the ratio of actual columns to the grid width.
    pub density: i32,
    /// In volumetric mode, how fast columns approach the camera.
    pub forward_speed: i32,
    /// Whether glint highlights render as their own isolated color.
    pub isolate_glint: bool,
    /// Brightness offset applied to the glint channel before contrast.
    pub glint_brightness: i32,
    /// Contrast multiplier for the glint channel.
    pub glint_contrast: i32,
    /// Decorative grayscale mask multiplying base glyph brightness.
    pub base_texture: Option<DecorativeTexture>,
    /// Decorative grayscale mask multiplying glint brightness.
    pub glint_texture: Option<DecorativeTexture>,
}

/// The mathematical value of a `MatrixConfig`: the same fields, with the
/// effect's color lists as sequences.
pub struct ConfigView {
    pub font: FontId,
    pub num_columns: u32,
    pub animation_speed: i32,
    pub fall_speed: i32,
    pub raindrop_length: i32,
    pub brightness_decay: i32,
    pub cycle_speed: i32,
    pub cycle_frame_skip: u32,
    pub skip_intro: bool,
    pub has_thunder: bool,
    pub slant: i32,
    pub is_polar: bool,
    pub ripple_type: Option<RippleType>,
    pub ripple_scale: i32,
    pub ripple_speed: i32,
    pub ripple_thickness: i32,
    pub glyph_height_to_width: i32,
    pub glyph_edge_crop: i32,
    pub glyph_flip: bool,
    pub glyph_rotation: i32,
    pub base_brightness: i32,
    pub base_contrast: i32,
    pub brightness_threshold: i32,
    pub brightness_override: i32,
    pub isolate_cursor: bool,
    pub cursor_color: Hsl,
    pub cursor_intensity: i32,
    pub glint_color: Hsl,
    pub glint_intensity: i32,
    pub background_color: Hsl,
    pub dither_magnitude: i32,
    pub bloom_strength: i32,
    pub bloom_size: i32,
    pub high_pass_threshold: i32,
    pub effect: EffectView,
    pub volumetric: bool,
    pub density: i32,
    pub forward_speed: i32,
    pub isolate_glint: bool,
    pub glint_brightness: i32,
    pub glint_contrast: i32,
    pub base_texture: Option<DecorativeTexture>,
    pub glint_texture: Option<DecorativeTexture>,
}

impl View for MatrixConfig {
    type V = ConfigView;

    open spec fn view(&self) -> ConfigView {
        ConfigView {
            font: self.font,
            num_columns: self.num_columns,
            animation_speed: self.animation_speed,
            fall_speed: self.fall_speed,
            raindrop_length: self.raindrop_length,
            brightness_decay: self.brightness_decay,
            cycle_speed: self.cycle_speed,
            cycle_frame_skip: self.cycle_frame_skip,
            skip_intro: self.skip_intro,
            has_thunder: self.has_thunder,
            slant: self.slant,
            is_polar: self.is_polar,
            ripple_type: self.ripple_type,
            ripple_scale: self.ripple_scale,
            ripple_speed: self.ripple_speed,
            ripple_thickness: self.ripple_thickness,
            glyph_height_to_width: self.glyph_height_to_width,
            glyph_edge_crop: self.glyph_edge_crop,
            glyph_flip: self.glyph_flip,
            glyph_rotation: self.glyph_rotation,
            base_brightness: self.base_brightness,
            base_contrast: self.base_contrast,
            brightness_threshold: self.brightness_threshold,
            brightness_override: self.brightness_override,
            isolate_cursor: self.isolate_cursor,
            cursor_color: self.cursor_color,
            cursor_intensity: self.cursor_intensity,
            glint_color: self.glint_color,
            glint_intensity: self.glint_intensity,
            background_color: self.background_color,
            dither_magnitude: self.dither_magnitude,
            bloom_strength: self.bloom_strength,
            bloom_size: self.bloom_size,
            high_pass_threshold: self.high_pass_threshold,
            effect: self.effect@,
            volumetric: self.volumetric,
            density: self.density,
            forward_speed: self.forward_speed,
            isolate_glint: self.isolate_glint,
            glint_brightness: self.glint_brightness,
            glint_contrast: self.glint_contrast,
            base_texture: self.base_texture,
            glint_texture: self.glint_texture,
        }
    }
}

/// The gradient of the default (green) palette.
pub open spec fn classic_palette_stops() -> Seq<PaletteStop> {
    seq![
        PaletteStop { color: Hsl { h: 300, s: 900, l: 0 }, at: 0 },
        PaletteStop { color: Hsl { h: 300, s: 900, l: 200 }, at: 200 },
        PaletteStop { color: Hsl { h: 300, s: 900, l: 700 }, at: 700 },
        PaletteStop { color: Hsl { h: 300, s: 900, l: 800 }, at: 800 },
    ]
}

fn classic_palette() -> (r: Vec<PaletteStop>)
    ensures
        r@ == classic_palette_stops(),
{
    vec![
        PaletteStop { color: Hsl { h: 300, s: 900, l: 0 }, at: 0 },
        PaletteStop { color: Hsl { h: 300, s: 900, l: 200 }, at: 200 },
        PaletteStop { color: Hsl { h: 300, s: 900, l: 700 }, at: 700 },
        PaletteStop { color: Hsl { h: 300, s: 900, l: 800 }, at: 800 },
    ]
}

/// The configuration every field starts at.
pub open spec fn default_config() -> ConfigView {
    ConfigView {
        font: FontId::Matrixcode,
        num_columns: 80,
        animation_speed: 1000,
        fall_speed: 300,
        raindrop_length: 750,
        brightness_decay: 1000,
        cycle_speed: 30,
        cycle_frame_skip: 1,
        skip_intro: true,
        has_thunder: false,
        slant: 0,
        is_polar: false,
        ripple_type: None,
        ripple_scale: 30000,
        ripple_speed: 200,
        ripple_thickness: 200,
        glyph_height_to_width: 1000,
        glyph_edge_crop: 0,
        glyph_flip: false,
        glyph_rotation: 0,
        base_brightness: -500i32,
        base_contrast: 1100,
        brightness_threshold: 0,
        brightness_override: 0,
        isolate_cursor: true,
        cursor_color: Hsl { h: 242, s: 1000, l: 730 },
        cursor_intensity: 2000,
        glint_color: Hsl { h: 0, s: 0, l: 1000 },
        glint_intensity: 1000,
        background_color: Hsl { h: 0, s: 0, l: 0 },
        dither_magnitude: 50,
        bloom_strength: 700,
        bloom_size: 400,
        high_pass_threshold: 100,
        effect: EffectView::Palette(classic_palette_stops()),
        volumetric: false,
        density: 1000,
        forward_speed: 250,
        isolate_glint: false,
        glint_brightness: -1500i32,
        glint_contrast: 2500,
        base_texture: None,
        glint_texture: None,
    }
}

/// The named presets: 9 standard 2D presets and 4 volumetric-3D presets.
#[derive(Clone, Copy, Debug, PartialEq, Eq, Structural)]
pub enum Preset {
    Classic,
    Megacity,
    Neomatrixology,
    Operator,
    Nightmare,
    Paradise,
    Resurrections,
    Palimpsest,
    Twilight,
    Trinity,
    Morpheus,
    Bugs,
    ThreeD,
}

impl Default for Preset {
    fn default() -> (r: Self)
        ensures
            r == Preset::Classic,
    {
        Preset::Classic
    }
}

/// The configuration a preset selects: the defaults, with the fields the
/// preset customizes overwritten.
pub open spec fn preset_config(preset: Preset) -> ConfigView {
    let d = default_config();
    match preset {
        Preset::Classic => d,
        Preset::Megacity => ConfigView {
            font: FontId::Megacity,
            animation_speed: 500,
            num_columns: 40,
            ..d
        },
        Preset::Neomatrixology => ConfigView {
            font: FontId::Neomatrixology,
            animation_speed: 800,
            num_columns: 40,
            effect: EffectView::Palette(seq![
                PaletteStop { color: Hsl { h: 150, s: 900, l: 0 }, at: 0 },
                PaletteStop { color: Hsl { h: 150, s: 900, l: 200 }, at: 200 },
                PaletteStop { color: Hsl { h: 150, s: 900, l: 700 }, at: 700 },
                PaletteStop { color: Hsl { h: 150, s: 900, l: 800 }, at: 800 },
            ]),
            cursor_color: Hsl { h: 167, s: 1000, l: 750 },
            cursor_intensity: 2000,
            ..d
        },
        Preset::Operator => ConfigView {
            cursor_color: Hsl { h: 375, s: 1000, l: 660 },
            cursor_intensity: 3000,
            bloom_size: 600,
            bloom_strength: 750,
            high_pass_threshold: 0,
            cycle_speed: 10,
            cycle_frame_skip: 8,
            brightness_override: 220,
            brightness_threshold: 0,
            fall_speed: 600,
            glyph_edge_crop: 150,
            glyph_height_to_width: 1350,
            ripple_type: Some(RippleType::Box),
            num_columns: 108,
            effect: EffectView::Palette(seq![
                PaletteStop { color: Hsl { h: 400, s: 800, l: 0 }, at: 0 },
                PaletteStop { color: Hsl { h: 400, s: 800, l: 500 }, at: 500 },
                PaletteStop { color: Hsl { h: 400, s: 800, l: 1000 }, at: 1000 },
            ]),
            raindrop_length: 1500,
            ..d
        },
        Preset::Nightmare => ConfigView {
            font: FontId::Gothic,
            isolate_cursor: false,
            high_pass_threshold: 700,
            base_brightness: -800i32,
            brightness_decay: 750,
            fall_speed: 1200,
            has_thunder: true,
            num_columns: 60,
            cycle_speed: 350,
            effect: EffectView::Palette(seq![
                PaletteStop { color: Hsl { h: 0, s: 1000, l: 0 }, at: 0 },
                PaletteStop { color: Hsl { h: 0, s: 1000, l: 200 }, at: 200 },
                PaletteStop { color: Hsl { h: 0, s: 1000, l: 400 }, at: 400 },
                PaletteStop { color: Hsl { h: 100, s: 1000, l: 700 }, at: 700 },
                PaletteStop { color: Hsl { h: 200, s: 1000, l: 1000 }, at: 1000 },
            ]),
            raindrop_length: 500,
            slant: 22500,
            ..d
        },
        Preset::Paradise => ConfigView {
            font: FontId::Coptic,
            isolate_cursor: false,
            bloom_strength: 1000,
            high_pass_threshold: 0,
            cycle_speed: 5,
            base_brightness: -1300i32,
            base_contrast: 2000,
            brightness_decay: 50,
            fall_speed: 20,
            is_polar: true,
            ripple_type: Some(RippleType::Circle),
            ripple_speed: 100,
            num_columns: 40,
            effect: EffectView::Palette(seq![
                PaletteStop { color: Hsl { h: 0, s: 0, l: 0 }, at: 0 },
                PaletteStop { color: Hsl { h: 0, s: 800, l: 300 }, at: 300 },
                PaletteStop { color: Hsl { h: 100, s: 800, l: 500 }, at: 500 },
                PaletteStop { color: Hsl { h: 100, s: 1000, l: 600 }, at: 600 },
                PaletteStop { color: Hsl { h: 100, s: 1000, l: 900 }, at: 900 },
            ]),
            raindrop_length: 400,
            ..d
        },
        Preset::Resurrections => ConfigView {
            font: FontId::Resurrections,
            glyph_edge_crop: 100,
            cursor_color: Hsl { h: 292, s: 1000, l: 800 },
            cursor_intensity: 2000,
            base_brightness: -700i32,
            base_contrast: 1170,
            high_pass_threshold: 0,
            num_columns: 70,
            cycle_speed: 30,
            bloom_strength: 700,
            fall_speed: 300,
            effect: EffectView::Palette(seq![
                PaletteStop { color: Hsl { h: 375, s: 900, l: 0 }, at: 0 },
                PaletteStop { color: Hsl { h: 375, s: 1000, l: 600 }, at: 920 },
                PaletteStop { color: Hsl { h: 375, s: 1000, l: 1000 }, at: 1000 },
            ]),
            ..d
        },
        Preset::Palimpsest => ConfigView {
            font: FontId::HuberfishA,
            isolate_cursor: false,
            bloom_strength: 200,
            num_columns: 40,
            raindrop_length: 1200,
            cycle_frame_skip: 3,
            fall_speed: 500,
            slant: -11250i32,
            effect: EffectView::Palette(seq![
                PaletteStop { color: Hsl { h: 150, s: 250, l: 900 }, at: 0 },
                PaletteStop { color: Hsl { h: 600, s: 800, l: 100 }, at: 400 },
            ]),
            ..d
        },
        Preset::Twilight => ConfigView {
            font: FontId::HuberfishD,
            cursor_color: Hsl { h: 167, s: 1000, l: 800 },
            cursor_intensity: 1500,
            bloom_strength: 100,
            num_columns: 50,
            raindrop_length: 900,
            fall_speed: 100,
            high_pass_threshold: 0,
            effect: EffectView::Palette(seq![
                PaletteStop { color: Hsl { h: 600, s: 1000, l: 50 }, at: 0 },
                PaletteStop { color: Hsl { h: 600, s: 800, l: 100 }, at: 100 },
                PaletteStop { color: Hsl { h: 880, s: 800, l: 500 }, at: 500 },
                PaletteStop { color: Hsl { h: 150, s: 1000, l: 600 }, at: 800 },
            ]),
            ..d
        },
        Preset::Trinity => ConfigView {
            font: FontId::Resurrections,
            glint_texture: Some(DecorativeTexture::Metal),
            base_texture: Some(DecorativeTexture::Pixels),
            glyph_edge_crop: 100,
            cursor_color: Hsl { h: 292, s: 1000, l: 800 },
            cursor_intensity: 2000,
            isolate_glint: true,
            glint_color: Hsl { h: 131, s: 1000, l: 600 },
            glint_intensity: 3000,
            glint_brightness: -500i32,
            glint_contrast: 1500,
            base_brightness: -400i32,
            base_contrast: 1500,
            high_pass_threshold: 0,
            num_columns: 60,
            cycle_speed: 10,
            bloom_strength: 700,
            fall_speed: 300,
            effect: EffectView::Palette(seq![
                PaletteStop { color: Hsl { h: 370, s: 600, l: 0 }, at: 0 },
                PaletteStop { color: Hsl { h: 370, s: 600, l: 500 }, at: 1000 },
            ]),
            volumetric: true,
            forward_speed: 200,
            raindrop_length: 300,
            density: 750,
            ..d
        },
        Preset::Morpheus => ConfigView {
            font: FontId::Resurrections,
            glint_texture: Some(DecorativeTexture::Mesh),
            base_texture: Some(DecorativeTexture::Metal),
            glyph_edge_crop: 100,
            cursor_color: Hsl { h: 333, s: 1000, l: 850 },
            cursor_intensity: 2000,
            isolate_glint: true,
            glint_color: Hsl { h: 400, s: 1000, l: 500 },
            glint_intensity: 2000,
            glint_brightness: -1500i32,
            glint_contrast: 3000,
            base_brightness: -300i32,
            base_contrast: 1500,
            high_pass_threshold: 0,
            num_columns: 60,
            cycle_speed: 15,
            bloom_strength: 700,
            fall_speed: 300,
            effect: EffectView::Palette(seq![
                PaletteStop { color: Hsl { h: 970, s: 600, l: 0 }, at: 0 },
                PaletteStop { color: Hsl { h: 970, s: 600, l: 500 }, at: 1000 },
            ]),
            volumetric: true,
            forward_speed: 100,
            raindrop_length: 400,
            density: 750,
            ..d
        },
        Preset::Bugs => ConfigView {
            font: FontId::Resurrections,
            glint_texture: Some(DecorativeTexture::Sand),
            base_texture: Some(DecorativeTexture::Metal),
            glyph_edge_crop: 100,
            cursor_color: Hsl { h: 619, s: 1000, l: 650 },
            cursor_intensity: 2000,
            isolate_glint: true,
            glint_color: Hsl { h: 625, s: 1000, l: 600 },
            glint_intensity: 3000,
            glint_brightness: -1000i32,
            glint_contrast: 3000,
            base_brightness: -300i32,
            base_contrast: 1500,
            high_pass_threshold: 0,
            num_columns: 60,
            cycle_speed: 10,
            bloom_strength: 700,
            fall_speed: 300,
            effect: EffectView::Palette(seq![
                PaletteStop { color: Hsl { h: 120, s: 600, l: 0 }, at: 0 },
                PaletteStop { color: Hsl { h: 140, s: 600, l: 500 }, at: 1000 },
            ]),
            volumetric: true,
            forward_speed: 400,
            raindrop_length: 300,
            density: 750,
            ..d
        },
        Preset::ThreeD => ConfigView {
            volumetric: true,
            fall_speed: 500,
            cycle_speed: 30,
            base_brightness: -900i32,
            base_contrast: 1500,
            raindrop_length: 300,
            ..d
        },
    }
}


impl Default for MatrixConfig {
    fn default() -> (r: Self)
        ensures
            r@ == default_config(),
    {

        MatrixConfig {
            font: FontId::Matrixcode,
            num_columns: 80,
            animation_speed: 1000,
            fall_speed: 300,
            raindrop_length: 750,
            brightness_decay: 1000,
            cycle_speed: 30,
            cycle_frame_skip: 1,
            skip_intro: true,
            has_thunder: false,
            slant: 0,
            is_polar: false,
            ripple_type: None,
            ripple_scale: 30000,
            ripple_speed: 200,
            ripple_thickness: 200,
            glyph_height_to_width: 1000,
            glyph_edge_crop: 0,
            glyph_flip: false,
            glyph_rotation: 0,
            base_brightness: -500i32,
            base_contrast: 1100,
            brightness_threshold: 0,
            brightness_override: 0,
            isolate_cursor: true,
            cursor_color: Hsl { h: 242, s: 1000, l: 730 },
            cursor_intensity: 2000,
            glint_color: Hsl { h: 0, s: 0, l: 1000 },
            glint_intensity: 1000,
            background_color: Hsl { h: 0, s: 0, l: 0 },
            dither_magnitude: 50,
            bloom_strength: 700,
            bloom_size: 400,
            high_pass_threshold: 100,
            effect: Effect::Palette(classic_palette()),
            volumetric: false,
            density: 1000,
            forward_speed: 250,
            isolate_glint: false,
            glint_brightness: -1500i32,
            glint_contrast: 2500,
            base_texture: None,
            glint_texture: None,
        }
    }
}

impl MatrixConfig {
    /// The configuration of `preset`.
    pub fn from_preset(preset: Preset) -> (r: Self)
        ensures
            r@ == preset_config(preset),
    {
        let mut config = Self::default();
        config.apply_preset(preset);
        config
    }

    /// Overwrites every field this preset customizes, leaving the rest at
    /// their defaults; what the configuration held before plays no part.
    pub fn apply_preset(&mut self, preset: Preset)
        ensures
            final(self)@ == preset_config(preset),
    {
        *self = Self::default();
        match preset {
            Preset::Classic => {},
            Preset::Megacity => {
                self.font = FontId::Megacity;
                self.animation_speed = 500;
                self.num_columns = 40;
            },
            Preset::Neomatrixology => {
                self.font = FontId::Neomatrixology;
                self.animation_speed = 800;
                self.num_columns = 40;
                self.effect = Effect::Palette(vec![
                    PaletteStop { color: Hsl { h: 150, s: 900, l: 0 }, at: 0 },
                    PaletteStop { color: Hsl { h: 150, s: 900, l: 200 }, at: 200 },
                    PaletteStop { color: Hsl { h: 150, s: 900, l: 700 }, at: 700 },
                    PaletteStop { color: Hsl { h: 150, s: 900, l: 800 }, at: 800 },
                ]);
                self.cursor_color = Hsl { h: 167, s: 1000, l: 750 };
                self.cursor_intensity = 2000;
            },
            Preset::Operator => {
                self.cursor_color = Hsl { h: 375, s: 1000, l: 660 };
                self.cursor_intensity = 3000;
                self.bloom_size = 600;
                self.bloom_strength = 750;
                self.high_pass_threshold = 0;
                self.cycle_speed = 10;
                self.cycle_frame_skip = 8;
                self.brightness_override = 220;
                self.brightness_threshold = 0;
                self.fall_speed = 600;
                self.glyph_edge_crop = 150;
                self.glyph_height_to_width = 1350;
                self.ripple_type = Some(RippleType::Box);
                self.num_columns = 108;
                self.effect = Effect::Palette(vec![
                    PaletteStop { color: Hsl { h: 400, s: 800, l: 0 }, at: 0 },
                    PaletteStop { color: Hsl { h: 400, s: 800, l: 500 }, at: 500 },
                    PaletteStop { color: Hsl { h: 400, s: 800, l: 1000 }, at: 1000 },
                ]);
                self.raindrop_length = 1500;
            },
            Preset::Nightmare => {
                self.font = FontId::Gothic;
                self.isolate_cursor = false;
                self.high_pass_threshold = 700;
                self.base_brightness = -800i32;
                self.brightness_decay = 750;
                self.fall_speed = 1200;
                self.has_thunder = true;
                self.num_columns = 60;
                self.cycle_speed = 350;
                self.effect = Effect::Palette(vec![
                    PaletteStop { color: Hsl { h: 0, s: 1000, l: 0 }, at: 0 },
                    PaletteStop { color: Hsl { h: 0, s: 1000, l: 200 }, at: 200 },
                    PaletteStop { color: Hsl { h: 0, s: 1000, l: 400 }, at: 400 },
                    PaletteStop { color: Hsl { h: 100, s: 1000, l: 700 }, at: 700 },
                    PaletteStop { color: Hsl { h: 200, s: 1000, l: 1000 }, at: 1000 },
                ]);
                self.raindrop_length = 500;
                self.slant = 22500;
            },
            Preset::Paradise => {
                self.font = FontId::Coptic;
                self.isolate_cursor = false;
                self.bloom_strength = 1000;
                self.high_pass_threshold = 0;
                self.cycle_speed = 5;
                self.base_brightness = -1300i32;
                self.base_contrast = 2000;
                self.brightness_decay = 50;
                self.fall_speed = 20;
                self.is_polar = true;
                self.ripple_type = Some(RippleType::Circle);
                self.ripple_speed = 100;
                self.num_columns = 40;
                self.effect = Effect::Palette(vec![
                    PaletteStop { color: Hsl { h: 0, s: 0, l: 0 }, at: 0 },
                    PaletteStop { color: Hsl { h: 0, s: 800, l: 300 }, at: 300 },
                    PaletteStop { color: Hsl { h: 100, s: 800, l: 500 }, at: 500 },
                    PaletteStop { color: Hsl { h: 100, s: 1000, l: 600 }, at: 600 },
                    PaletteStop { color: Hsl { h: 100, s: 1000, l: 900 }, at: 900 },
                ]);
                self.raindrop_length = 400;
            },
            Preset::Resurrections => {
                self.font = FontId::Resurrections;
                self.glyph_edge_crop = 100;
                self.cursor_color = Hsl { h: 292, s: 1000, l: 800 };
                self.cursor_intensity = 2000;
                self.base_brightness = -700i32;
                self.base_contrast = 1170;
                self.high_pass_threshold = 0;
                self.num_columns = 70;
                self.cycle_speed = 30;
                self.bloom_strength = 700;
                self.fall_speed = 300;
                self.effect = Effect::Palette(vec![
                    PaletteStop { color: Hsl { h: 375, s: 900, l: 0 }, at: 0 },
                    PaletteStop { color: Hsl { h: 375, s: 1000, l: 600 }, at: 920 },
                    PaletteStop { color: Hsl { h: 375, s: 1000, l: 1000 }, at: 1000 },
                ]);
            },
            Preset::Palimpsest => {
                self.font = FontId::HuberfishA;
                self.isolate_cursor = false;
                self.bloom_strength = 200;
                self.num_columns = 40;
                self.raindrop_length = 1200;
                self.cycle_frame_skip = 3;
                self.fall_speed = 500;
                self.slant = -11250i32;
                self.effect = Effect::Palette(vec![
                    PaletteStop { color: Hsl { h: 150, s: 250, l: 900 }, at: 0 },
                    PaletteStop { color: Hsl { h: 600, s: 800, l: 100 }, at: 400 },
                ]);
            },
            Preset::Twilight => {
                self.font = FontId::HuberfishD;
                self.cursor_color = Hsl { h: 167, s: 1000, l: 800 };
                self.cursor_intensity = 1500;
                self.bloom_strength = 100;
                self.num_columns = 50;
                self.raindrop_length = 900;
                self.fall_speed = 100;
                self.high_pass_threshold = 0;
                self.effect = Effect::Palette(vec![
                    PaletteStop { color: Hsl { h: 600, s: 1000, l: 50 }, at: 0 },
                    PaletteStop { color: Hsl { h: 600, s: 800, l: 100 }, at: 100 },
                    PaletteStop { color: Hsl { h: 880, s: 800, l: 500 }, at: 500 },
                    PaletteStop { color: Hsl { h: 150, s: 1000, l: 600 }, at: 800 },
                ]);
            },
            Preset::Trinity => {
                self.font = FontId::Resurrections;
                self.glint_texture = Some(DecorativeTexture::Metal);
                self.base_texture = Some(DecorativeTexture::Pixels);
                self.glyph_edge_crop = 100;
                self.cursor_color = Hsl { h: 292, s: 1000, l: 800 };
                self.cursor_intensity = 2000;
                self.isolate_glint = true;
                self.glint_color = Hsl { h: 131, s: 1000, l: 600 };
                self.glint_intensity = 3000;
                self.glint_brightness = -500i32;
                self.glint_contrast = 1500;
                self.base_brightness = -400i32;
                self.base_contrast = 1500;
                self.high_pass_threshold = 0;
                self.num_columns = 60;
                self.cycle_speed = 10;
                self.bloom_strength = 700;
                self.fall_speed = 300;
                self.effect = Effect::Palette(vec![
                    PaletteStop { color: Hsl { h: 370, s: 600, l: 0 }, at: 0 },
                    PaletteStop { color: Hsl { h: 370, s: 600, l: 500 }, at: 1000 },
                ]);
                self.volumetric = true;
                self.forward_speed = 200;
                self.raindrop_length = 300;
                self.density = 750;
            },
            Preset::Morpheus => {
                self.font = FontId::Resurrections;
                self.glint_texture = Some(DecorativeTexture::Mesh);
                self.base_texture = Some(DecorativeTexture::Metal);
                self.glyph_edge_crop = 100;
                self.cursor_color = Hsl { h: 333, s: 1000, l: 850 };
                self.cursor_intensity = 2000;
                self.isolate_glint = true;
                self.glint_color = Hsl { h: 400, s: 1000, l: 500 };
                self.glint_intensity = 2000;
                self.glint_brightness = -1500i32;
                self.glint_contrast = 3000;
                self.base_brightness = -300i32;
                self.base_contrast = 1500;
                self.high_pass_threshold = 0;
                self.num_columns = 60;
                self.cycle_speed = 15;
                self.bloom_strength = 700;
                self.fall_speed = 300;
                self.effect = Effect::Palette(vec![
                    PaletteStop { color: Hsl { h: 970, s: 600, l: 0 }, at: 0 },
                    PaletteStop { color: Hsl { h: 970, s: 600, l: 500 }, at: 1000 },
                ]);
                self.volumetric = true;
                self.forward_speed = 100;
                self.raindrop_length = 400;
                self.density = 750;
            },
            Preset::Bugs => {
                self.font = FontId::Resurrections;
                self.glint_texture = Some(DecorativeTexture::Sand);
                self.base_texture = Some(DecorativeTexture::Metal);
                self.glyph_edge_crop = 100;
                self.cursor_color = Hsl { h: 619, s: 1000, l: 650 };
                self.cursor_intensity = 2000;
                self.isolate_glint = true;
                self.glint_color = Hsl { h: 625, s: 1000, l: 600 };
                self.glint_intensity = 3000;
                self.glint_brightness = -1000i32;
                self.glint_contrast = 3000;
                self.base_brightness = -300i32;
                self.base_contrast = 1500;
                self.high_pass_threshold = 0;
                self.num_columns = 60;
                self.cycle_speed = 10;
                self.bloom_strength = 700;
                self.fall_speed = 300;
                self.effect = Effect::Palette(vec![
                    PaletteStop { color: Hsl { h: 120, s: 600, l: 0 }, at: 0 },
                    PaletteStop { color: Hsl { h: 140, s: 600, l: 500 }, at: 1000 },
                ]);
                self.volumetric = true;
                self.forward_speed = 400;
                self.raindrop_length = 300;
                self.density = 750;
            },
            Preset::ThreeD => {
                self.volumetric = true;
                self.fall_speed = 500;
                self.cycle_speed = 30;
                self.base_brightness = -900i32;
                self.base_contrast = 1500;
                self.raindrop_length = 300;
            },
        }
    }
}

/// The code the compute shaders receive for the active ripple effect:
/// `-1` for none, `0` for a box ripple, `1` for a circular one.
pub open spec fn ripple_code(ripple: Option<RippleType>) -> i32 {
    match ripple {
        None => -1i32,
        Some(RippleType::Box) => 0,
        Some(RippleType::Circle) => 1,
    }
}

pub fn ripple_type_code(ripple: Option<RippleType>) -> (r: i32)
    ensures
        r == ripple_code(ripple),
{
    match ripple {
        None => -1,
        Some(RippleType::Box) => 0,
        Some(RippleType::Circle) => 1,
    }
}

/// The six pride-flag colors.
pub open spec fn pride_flag_colors() -> Seq<Rgb> {
    seq![
        Rgb { r: 890, g: 10, b: 10 },
        Rgb { r: 1000, g: 550, b: 0 },
        Rgb { r: 1000, g: 930, b: 0 },
        Rgb { r: 0, g: 500, b: 150 },
        Rgb { r: 0, g: 300, b: 1000 },
        Rgb { r: 460, g: 30, b: 530 },
    ]
}

/// The five trans-flag colors.
pub open spec fn trans_flag_colors() -> Seq<Rgb> {
    seq![
        Rgb { r: 360, g: 810, b: 980 },
        Rgb { r: 960, g: 660, b: 720 },
        Rgb { r: 1000, g: 1000, b: 1000 },
        Rgb { r: 960, g: 660, b: 720 },
        Rgb { r: 360, g: 810, b: 980 },
    ]
}

/// `colors` with each color repeated `times` times in a row.
pub open spec fn repeat_each(colors: Seq<Rgb>, times: nat) -> Seq<Rgb>
    recommends
        times > 0,
{
    Seq::new(colors.len() * times, |i: int| colors[i / (times as int)])
}

fn repeat_each_color(colors: &Vec<Rgb>, times: usize) -> (r: Vec<Rgb>)
    requires
        times > 0,
        colors.len() * times <= usize::MAX,
    ensures
        r@ == repeat_each(colors@, times as nat),
{
    let mut r: Vec<Rgb> = Vec::new();
    let mut i: usize = 0;
    while i < colors.len()
        invariant
            times > 0,
            i <= colors.len(),
            colors.len() * times <= usize::MAX,
            r@.len() == i * times,
            forall|j: int| 0 <= j < r@.len() ==> #[trigger] r@[j] == colors@[j / (times as int)],
        decreases colors.len() - i,
    {
        let mut k: usize = 0;
        while k < times
            invariant
                times > 0,
                i < colors.len(),
                k <= times,
                r@.len() == i * times + k,
                forall|j: int| 0 <= j < r@.len() ==> #[trigger] r@[j] == colors@[j / (times as int)],
            decreases times - k,
        {
            proof {
                let j = (i * times + k) as int;
                assert(j / (times as int) == i as int) by (nonlinear_arith)
                    requires
                        j == i * times + k,
                        0 <= k < times,
                        times > 0,
                ;
            }
            r.push(colors[i]);
            k = k + 1;
        }
        proof {
            assert((i + 1) * times == i * times + times) by (nonlinear_arith);
        }
        i = i + 1;
    }
    proof {
        assert(r@ =~= repeat_each(colors@, times as nat));
    }
    r
}

/// The pride-flag stripe colors: each of the six flag colors repeated
/// twice, giving softer/flatter transitions between bands.
pub fn pride_stripe_colors() -> (r: Vec<Rgb>)
    ensures
        r@ == repeat_each(pride_flag_colors(), 2),
{
    let colors = vec![
        Rgb { r: 890, g: 10, b: 10 },
        Rgb { r: 1000, g: 550, b: 0 },
        Rgb { r: 1000, g: 930, b: 0 },
        Rgb { r: 0, g: 500, b: 150 },
        Rgb { r: 0, g: 300, b: 1000 },
        Rgb { r: 460, g: 30, b: 530 },
    ];
    repeat_each_color(&colors, 2)
}

/// The trans-flag stripe colors: each of the five flag colors repeated
/// three times.
pub fn trans_stripe_colors() -> (r: Vec<Rgb>)
    ensures
        r@ == repeat_each(trans_flag_colors(), 3),
{
    let colors = vec![
        Rgb { r: 360, g: 810, b: 980 },
        Rgb { r: 960, g: 660, b: 720 },
        Rgb { r: 1000, g: 1000, b: 1000 },
        Rgb { r: 960, g: 660, b: 720 },
        Rgb { r: 360, g: 810, b: 980 },
    ];
    repeat_each_color(&colors, 3)
}

/// The presets render in volumetric 3D exactly when they are one of the
/// four volumetric presets; the other nine are flat 2D presets.
pub proof fn lemma_volumetric_presets(preset: Preset)
    ensures
        preset_config(preset).volumetric <==> (preset == Preset::Trinity || preset
            == Preset::Morpheus || preset == Preset::Bugs || preset == Preset::ThreeD),
{
}

/// Every bundled font is used by at least one of the 2D presets.
pub proof fn lemma_every_font_has_a_2d_preset(font: FontId)
    ensures
        exists|preset: Preset|
            !(#[trigger] preset_config(preset)).volumetric && preset_config(preset).font == font,
{
    let witness = match font {
        FontId::Matrixcode => Preset::Classic,
        FontId::Megacity => Preset::Megacity,
        FontId::Neomatrixology => Preset::Neomatrixology,
        FontId::Gothic => Preset::Nightmare,
        FontId::Coptic => Preset::Paradise,
        FontId::HuberfishA => Preset::Palimpsest,
        FontId::HuberfishD => Preset::Twilight,
        FontId::Resurrections => Preset::Resurrections,
    };
    assert(!preset_config(witness).volumetric && preset_config(witness).font == font);
}

/// Decorative base/glint textures are only used by the volumetric
/// `Trinity`, `Morpheus` and `Bugs` presets.
pub proof fn lemma_decorative_textures_only_in_volumetric(preset: Preset)
    ensures
        (preset_config(preset).base_texture is Some || preset_config(preset).glint_texture is Some)
            ==> (preset == Preset::Trinity || preset == Preset::Morpheus || preset
            == Preset::Bugs),
        (preset_config(preset).base_texture is Some || preset_config(preset).glint_texture is Some)
            ==> preset_config(preset).volumetric,
{
}

/// A preset that isolates glint highlights uses a font that has a glint
/// atlas.
pub proof fn lemma_isolated_glint_has_glint_atlas(preset: Preset)
    ensures
        preset_config(preset).isolate_glint ==> has_glint_atlas(preset_config(preset).font),
{
}

/// Every preset is well formed: a non-empty grid, a non-zero glyph
/// cycling interval, a positive bloom resolution, and a non-empty palette
/// whose stops all sit within the `0..=1000` brightness range.
pub proof fn lemma_presets_well_formed(preset: Preset)
    ensures
        preset_config(preset).num_columns > 0,
        preset_config(preset).cycle_frame_skip > 0,
        preset_config(preset).bloom_size > 0,
        preset_config(preset).effect matches EffectView::Palette(stops) && {
            &&& stops.len() > 0
            &&& forall|i: int| 0 <= i < stops.len() ==> 0 <= #[trigger] stops[i].at <= 1000
        },
{
}

/// Only two presets distort the screen with ripples: `Operator` with the
/// square (box) ripple and `Paradise` with the circular one, which the
/// compute shaders receive as codes `0` and `1`; every other preset has
/// none (code `-1`).
pub proof fn lemma_preset_ripples(preset: Preset)
    ensures
        preset_config(preset).ripple_type == Some(RippleType::Circle) <==> preset
            == Preset::Paradise,
        preset_config(preset).ripple_type == Some(RippleType::Box) <==> preset
            == Preset::Operator,
        preset_config(preset).ripple_type is None <==> (preset != Preset::Paradise && preset
            != Preset::Operator),
        ripple_code(preset_config(preset).ripple_type) == (if preset == Preset::Paradise {
            1i32
        } else if preset == Preset::Operator {
            0i32
        } else {
            -1i32
        }),
{
}

/// The value each preset gives the font, the grid and the glyph shape. A preset sets a field
/// only where listed below; every other preset keeps the default.
pub proof fn lemma_preset_font_and_grid(preset: Preset)
    ensures
        preset_config(preset).font == (match preset {
            Preset::Megacity => FontId::Megacity,
            Preset::Neomatrixology => FontId::Neomatrixology,
            Preset::Nightmare => FontId::Gothic,
            Preset::Paradise => FontId::Coptic,
            Preset::Resurrections => FontId::Resurrections,
            Preset::Palimpsest => FontId::HuberfishA,
            Preset::Twilight => FontId::HuberfishD,
            Preset::Trinity => FontId::Resurrections,
            Preset::Morpheus => FontId::Resurrections,
            Preset::Bugs => FontId::Resurrections,
            _ => FontId::Matrixcode,
        }),
        preset_config(preset).num_columns == (match preset {
            Preset::Megacity => 40u32,
            Preset::Neomatrixology => 40u32,
            Preset::Operator => 108u32,
            Preset::Nightmare => 60u32,
            Preset::Paradise => 40u32,
            Preset::Resurrections => 70u32,
            Preset::Palimpsest => 40u32,
            Preset::Twilight => 50u32,
            Preset::Trinity => 60u32,
            Preset::Morpheus => 60u32,
            Preset::Bugs => 60u32,
            _ => 80u32,
        }),
        preset_config(preset).glyph_height_to_width == (match preset {
            Preset::Operator => 1350i32,
            _ => 1000i32,
        }),
        preset_config(preset).glyph_edge_crop == (match preset {
            Preset::Operator => 150i32,
            Preset::Resurrections => 100i32,
            Preset::Trinity => 100i32,
            Preset::Morpheus => 100i32,
            Preset::Bugs => 100i32,
            _ => 0i32,
        }),
        preset_config(preset).glyph_flip == false,
        preset_config(preset).glyph_rotation == 0i32,
        preset_config(preset).slant == (match preset {
            Preset::Nightmare => 22500i32,
            Preset::Palimpsest => -11250i32,
            _ => 0i32,
        }),
        preset_config(preset).is_polar == (match preset {
            Preset::Paradise => true,
            _ => false,
        }),
{
}

/// The value each preset gives the rain and glyph-cycling motion. A preset sets a field
/// only where listed below; every other preset keeps the default.
pub proof fn lemma_preset_rain_motion(preset: Preset)
    ensures
        preset_config(preset).animation_speed == (match preset {
            Preset::Megacity => 500i32,
            Preset::Neomatrixology => 800i32,
            _ => 1000i32,
        }),
        preset_config(preset).fall_speed == (match preset {
            Preset::Operator => 600i32,
            Preset::Nightmare => 1200i32,
            Preset::Paradise => 20i32,
            Preset::Resurrections => 300i32,
            Preset::Palimpsest => 500i32,
            Preset::Twilight => 100i32,
            Preset::Trinity => 300i32,
            Preset::Morpheus => 300i32,
            Preset::Bugs => 300i32,
            Preset::ThreeD => 500i32,
            _ => 300i32,
        }),
        preset_config(preset).raindrop_length == (match preset {
            Preset::Operator => 1500i32,
            Preset::Nightmare => 500i32,
            Preset::Paradise => 400i32,
            Preset::Palimpsest => 1200i32,
            Preset::Twilight => 900i32,
            Preset::Trinity => 300i32,
            Preset::Morpheus => 400i32,
            Preset::Bugs => 300i32,
            Preset::ThreeD => 300i32,
            _ => 750i32,
        }),
        preset_config(preset).brightness_decay == (match preset {
            Preset::Nightmare => 750i32,
            Preset::Paradise => 50i32,
            _ => 1000i32,
        }),
        preset_config(preset).cycle_speed == (match preset {
            Preset::Operator => 10i32,
            Preset::Nightmare => 350i32,
            Preset::Paradise => 5i32,
            Preset::Resurrections => 30i32,
            Preset::Trinity => 10i32,
            Preset::Morpheus => 15i32,
            Preset::Bugs => 10i32,
            Preset::ThreeD => 30i32,
            _ => 30i32,
        }),
        preset_config(preset).cycle_frame_skip == (match preset {
            Preset::Operator => 8u32,
            Preset::Palimpsest => 3u32,
            _ => 1u32,
        }),
        preset_config(preset).skip_intro == true,
        preset_config(preset).has_thunder == (match preset {
            Preset::Nightmare => true,
            _ => false,
        }),
{
}

/// The value each preset gives the ripple distortion. A preset sets a field
/// only where listed below; every other preset keeps the default.
pub proof fn lemma_preset_ripple_values(preset: Preset)
    ensures
        preset_config(preset).ripple_type == (match preset {
            Preset::Operator => Some(RippleType::Box),
            Preset::Paradise => Some(RippleType::Circle),
            _ => None,
        }),
        preset_config(preset).ripple_scale == 30000i32,
        preset_config(preset).ripple_speed == (match preset {
            Preset::Paradise => 100i32,
            _ => 200i32,
        }),
        preset_config(preset).ripple_thickness == 200i32,
{
}

/// The value each preset gives the brightness shaping and bloom. A preset sets a field
/// only where listed below; every other preset keeps the default.
pub proof fn lemma_preset_brightness(preset: Preset)
    ensures
        preset_config(preset).base_brightness == (match preset {
            Preset::Nightmare => -800i32,
            Preset::Paradise => -1300i32,
            Preset::Resurrections => -700i32,
            Preset::Trinity => -400i32,
            Preset::Morpheus => -300i32,
            Preset::Bugs => -300i32,
            Preset::ThreeD => -900i32,
            _ => -500i32,
        }),
        preset_config(preset).base_contrast == (match preset {
            Preset::Paradise => 2000i32,
            Preset::Resurrections => 1170i32,
            Preset::Trinity => 1500i32,
            Preset::Morpheus => 1500i32,
            Preset::Bugs => 1500i32,
            Preset::ThreeD => 1500i32,
            _ => 1100i32,
        }),
        preset_config(preset).brightness_threshold == (match preset {
            Preset::Operator => 0i32,
            _ => 0i32,
        }),
        preset_config(preset).brightness_override == (match preset {
            Preset::Operator => 220i32,
            _ => 0i32,
        }),
        preset_config(preset).dither_magnitude == 50i32,
        preset_config(preset).bloom_strength == (match preset {
            Preset::Operator => 750i32,
            Preset::Paradise => 1000i32,
            Preset::Resurrections => 700i32,
            Preset::Palimpsest => 200i32,
            Preset::Twilight => 100i32,
            Preset::Trinity => 700i32,
            Preset::Morpheus => 700i32,
            Preset::Bugs => 700i32,
            _ => 700i32,
        }),
        preset_config(preset).bloom_size == (match preset {
            Preset::Operator => 600i32,
            _ => 400i32,
        }),
        preset_config(preset).high_pass_threshold == (match preset {
            Preset::Operator => 0i32,
            Preset::Nightmare => 700i32,
            Preset::Paradise => 0i32,
            Preset::Resurrections => 0i32,
            Preset::Twilight => 0i32,
            Preset::Trinity => 0i32,
            Preset::Morpheus => 0i32,
            Preset::Bugs => 0i32,
            _ => 100i32,
        }),
{
}

/// The value each preset gives the cursor and glint highlights. A preset sets a field
/// only where listed below; every other preset keeps the default.
pub proof fn lemma_preset_highlights(preset: Preset)
    ensures
        preset_config(preset).isolate_cursor == (match preset {
            Preset::Nightmare => false,
            Preset::Paradise => false,
            Preset::Palimpsest => false,
            _ => true,
        }),
        preset_config(preset).cursor_color == (match preset {
            Preset::Neomatrixology => Hsl { h: 167, s: 1000, l: 750 },
            Preset::Operator => Hsl { h: 375, s: 1000, l: 660 },
            Preset::Resurrections => Hsl { h: 292, s: 1000, l: 800 },
            Preset::Twilight => Hsl { h: 167, s: 1000, l: 800 },
            Preset::Trinity => Hsl { h: 292, s: 1000, l: 800 },
            Preset::Morpheus => Hsl { h: 333, s: 1000, l: 850 },
            Preset::Bugs => Hsl { h: 619, s: 1000, l: 650 },
            _ => Hsl { h: 242, s: 1000, l: 730 },
        }),
        preset_config(preset).cursor_intensity == (match preset {
            Preset::Neomatrixology => 2000i32,
            Preset::Operator => 3000i32,
            Preset::Resurrections => 2000i32,
            Preset::Twilight => 1500i32,
            Preset::Trinity => 2000i32,
            Preset::Morpheus => 2000i32,
            Preset::Bugs => 2000i32,
            _ => 2000i32,
        }),
        preset_config(preset).glint_color == (match preset {
            Preset::Trinity => Hsl { h: 131, s: 1000, l: 600 },
            Preset::Morpheus => Hsl { h: 400, s: 1000, l: 500 },
            Preset::Bugs => Hsl { h: 625, s: 1000, l: 600 },
            _ => Hsl { h: 0, s: 0, l: 1000 },
        }),
        preset_config(preset).glint_intensity == (match preset {
            Preset::Trinity => 3000i32,
            Preset::Morpheus => 2000i32,
            Preset::Bugs => 3000i32,
            _ => 1000i32,
        }),
        preset_config(preset).background_color == (Hsl { h: 0, s: 0, l: 0 }),
        preset_config(preset).isolate_glint == (match preset {
            Preset::Trinity => true,
            Preset::Morpheus => true,
            Preset::Bugs => true,
            _ => false,
        }),
        preset_config(preset).glint_brightness == (match preset {
            Preset::Trinity => -500i32,
            Preset::Morpheus => -1500i32,
            Preset::Bugs => -1000i32,
            _ => -1500i32,
        }),
        preset_config(preset).glint_contrast == (match preset {
            Preset::Trinity => 1500i32,
            Preset::Morpheus => 3000i32,
            Preset::Bugs => 3000i32,
            _ => 2500i32,
        }),
{
}

/// The value each preset gives the volumetric mode and decorative textures. A preset sets a field
/// only where listed below; every other preset keeps the default.
pub proof fn lemma_preset_volumetric(preset: Preset)
    ensures
        preset_config(preset).volumetric == (match preset {
            Preset::Trinity => true,
            Preset::Morpheus => true,
            Preset::Bugs => true,
            Preset::ThreeD => true,
            _ => false,
        }),
        preset_config(preset).density == (match preset {
            Preset::Trinity => 750i32,
            Preset::Morpheus => 750i32,
            Preset::Bugs => 750i32,
            _ => 1000i32,
        }),
        preset_config(preset).forward_speed == (match preset {
            Preset::Trinity => 200i32,
            Preset::Morpheus => 100i32,
            Preset::Bugs => 400i32,
            _ => 250i32,
        }),
        preset_config(preset).base_texture == (match preset {
            Preset::Trinity => Some(DecorativeTexture::Pixels),
            Preset::Morpheus => Some(DecorativeTexture::Metal),
            Preset::Bugs => Some(DecorativeTexture::Metal),
            _ => None,
        }),
        preset_config(preset).glint_texture == (match preset {
            Preset::Trinity => Some(DecorativeTexture::Metal),
            Preset::Morpheus => Some(DecorativeTexture::Mesh),
            Preset::Bugs => Some(DecorativeTexture::Sand),
            _ => None,
        }),
{
}

/// The value each preset gives the color effect. A preset sets a field
/// only where listed below; every other preset keeps the default.
pub proof fn lemma_preset_effect(preset: Preset)
    ensures
        preset_config(preset).effect == (match preset {
            Preset::Neomatrixology => EffectView::Palette(seq![PaletteStop { color: Hsl { h: 150, s: 900, l: 0 }, at: 0 }, PaletteStop { color: Hsl { h: 150, s: 900, l: 200 }, at: 200 }, PaletteStop { color: Hsl { h: 150, s: 900, l: 700 }, at: 700 }, PaletteStop { color: Hsl { h: 150, s: 900, l: 800 }, at: 800 }]),
            Preset::Operator => EffectView::Palette(seq![PaletteStop { color: Hsl { h: 400, s: 800, l: 0 }, at: 0 }, PaletteStop { color: Hsl { h: 400, s: 800, l: 500 }, at: 500 }, PaletteStop { color: Hsl { h: 400, s: 800, l: 1000 }, at: 1000 }]),
            Preset::Nightmare => EffectView::Palette(seq![PaletteStop { color: Hsl { h: 0, s: 1000, l: 0 }, at: 0 }, PaletteStop { color: Hsl { h: 0, s: 1000, l: 200 }, at: 200 }, PaletteStop { color: Hsl { h: 0, s: 1000, l: 400 }, at: 400 }, PaletteStop { color: Hsl { h: 100, s: 1000, l: 700 }, at: 700 }, PaletteStop { color: Hsl { h: 200, s: 1000, l: 1000 }, at: 1000 }]),
            Preset::Paradise => EffectView::Palette(seq![PaletteStop { color: Hsl { h: 0, s: 0, l: 0 }, at: 0 }, PaletteStop { color: Hsl { h: 0, s: 800, l: 300 }, at: 300 }, PaletteStop { color: Hsl { h: 100, s: 800, l: 500 }, at: 500 }, PaletteStop { color: Hsl { h: 100, s: 1000, l: 600 }, at: 600 }, PaletteStop { color: Hsl { h: 100, s: 1000, l: 900 }, at: 900 }]),
            Preset::Resurrections => EffectView::Palette(seq![PaletteStop { color: Hsl { h: 375, s: 900, l: 0 }, at: 0 }, PaletteStop { color: Hsl { h: 375, s: 1000, l: 600 }, at: 920 }, PaletteStop { color: Hsl { h: 375, s: 1000, l: 1000 }, at: 1000 }]),
            Preset::Palimpsest => EffectView::Palette(seq![PaletteStop { color: Hsl { h: 150, s: 250, l: 900 }, at: 0 }, PaletteStop { color: Hsl { h: 600, s: 800, l: 100 }, at: 400 }]),
            Preset::Twilight => EffectView::Palette(seq![PaletteStop { color: Hsl { h: 600, s: 1000, l: 50 }, at: 0 }, PaletteStop { color: Hsl { h: 600, s: 800, l: 100 }, at: 100 }, PaletteStop { color: Hsl { h: 880, s: 800, l: 500 }, at: 500 }, PaletteStop { color: Hsl { h: 150, s: 1000, l: 600 }, at: 800 }]),
            Preset::Trinity => EffectView::Palette(seq![PaletteStop { color: Hsl { h: 370, s: 600, l: 0 }, at: 0 }, PaletteStop { color: Hsl { h: 370, s: 600, l: 500 }, at: 1000 }]),
            Preset::Morpheus => EffectView::Palette(seq![PaletteStop { color: Hsl { h: 970, s: 600, l: 0 }, at: 0 }, PaletteStop { color: Hsl { h: 970, s: 600, l: 500 }, at: 1000 }]),
            Preset::Bugs => EffectView::Palette(seq![PaletteStop { color: Hsl { h: 120, s: 600, l: 0 }, at: 0 }, PaletteStop { color: Hsl { h: 140, s: 600, l: 500 }, at: 1000 }]),
            _ => EffectView::Palette(seq![PaletteStop { color: Hsl { h: 300, s: 900, l: 0 }, at: 0 }, PaletteStop { color: Hsl { h: 300, s: 900, l: 200 }, at: 200 }, PaletteStop { color: Hsl { h: 300, s: 900, l: 700 }, at: 700 }, PaletteStop { color: Hsl { h: 300, s: 900, l: 800 }, at: 800 }]),
        }),
{
}

/// The pride stripes are the six flag bands in order — red, orange,
/// yellow, green, blue, purple — each two stripes wide.
pub proof fn lemma_pride_stripes()
    ensures
        repeat_each(pride_flag_colors(), 2) =~= seq![
        Rgb { r: 890, g: 10, b: 10 },
        Rgb { r: 890, g: 10, b: 10 },
        Rgb { r: 1000, g: 550, b: 0 },
        Rgb { r: 1000, g: 550, b: 0 },
        Rgb { r: 1000, g: 930, b: 0 },
        Rgb { r: 1000, g: 930, b: 0 },
        Rgb { r: 0, g: 500, b: 150 },
        Rgb { r: 0, g: 500, b: 150 },
        Rgb { r: 0, g: 300, b: 1000 },
        Rgb { r: 0, g: 300, b: 1000 },
        Rgb { r: 460, g: 30, b: 530 },
        Rgb { r: 460, g: 30, b: 530 },
    ],
{
}

/// The trans stripes are the five flag bands in order — light blue, pink,
/// white, pink, light blue — each three stripes wide, so the sequence
/// reads the same backwards.
pub proof fn lemma_trans_stripes()
    ensures
        repeat_each(trans_flag_colors(), 3) =~= seq![
        Rgb { r: 360, g: 810, b: 980 },
        Rgb { r: 360, g: 810, b: 980 },
        Rgb { r: 360, g: 810, b: 980 },
        Rgb { r: 960, g: 660, b: 720 },
        Rgb { r: 960, g: 660, b: 720 },
        Rgb { r: 960, g: 660, b: 720 },
        Rgb { r: 1000, g: 1000, b: 1000 },
        Rgb { r: 1000, g: 1000, b: 1000 },
        Rgb { r: 1000, g: 1000, b: 1000 },
        Rgb { r: 960, g: 660, b: 720 },
        Rgb { r: 960, g: 660, b: 720 },
        Rgb { r: 960, g: 660, b: 720 },
        Rgb { r: 360, g: 810, b: 980 },
        Rgb { r: 360, g: 810, b: 980 },
        Rgb { r: 360, g: 810, b: 980 },
    ],
        forall|i: int|
            0 <= i < 15 ==> #[trigger] repeat_each(trans_flag_colors(), 3)[i] == repeat_each(
                trans_flag_colors(),
                3,
            )[14 - i],
{
}

} // verus!
