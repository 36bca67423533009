//! The versioned settings model with its documented defaults.

use vstd::prelude::*;
use std::path::PathBuf;

verus! {

/// How key velocity maps to loudness.
#[derive(Clone, Copy, PartialEq, Eq, Debug, Structural)]
pub enum VelocityCurve {
    Linear,
    Concave,
    Convex,
    Fixed,
}

impl Default for VelocityCurve {
    fn default() -> (r: Self)
        ensures
            r == VelocityCurve::Linear,
    {
        VelocityCurve::Linear
    }
}

/// Version 1 of the history section.
#[derive(Clone)]
pub struct HistoryV1 {
    pub last_opened_song: Option<PathBuf>,
}

/// The history section, tagged by version.
pub enum History {
    V1(HistoryV1),
}

impl Default for History {
    fn default() -> (r: Self)
        ensures
            r matches History::V1(h) && h.last_opened_song is None,
    {
        History::V1(HistoryV1 { last_opened_song: None })
    }
}

/// The lowest and highest key of the default keyboard layout (an 88-key piano).
pub fn default_piano_range() -> (r: (u8, u8))
    ensures
        r == (21u8, 108u8),
{
    (21, 108)
}

/// Version 1 of the keyboard layout section: the lowest and highest key.
#[derive(Clone, Copy)]
pub struct LayoutConfigV1 {
    pub range: (u8, u8),
}

/// The keyboard layout section, tagged by version.
pub enum LayoutConfig {
    V1(LayoutConfigV1),
}

impl Default for LayoutConfig {
    fn default() -> (r: Self)
        ensures
            r matches LayoutConfig::V1(l) && l.range == (21u8, 108u8),
    {
        LayoutConfig::V1(LayoutConfigV1 { range: default_piano_range() })
    }
}

/// Version 1 of the MIDI devices section.
#[derive(Clone)]
pub struct DevicesConfigV1 {
    pub output: Option<String>,
    pub input: Option<String>,
    pub separate_channels: bool,
}

/// The MIDI devices section, tagged by version.
pub enum DevicesConfig {
    V1(DevicesConfigV1),
}

impl Default for DevicesConfig {
    fn default() -> (r: Self)
        ensures
            r matches DevicesConfig::V1(d) && d.input is None && !d.separate_channels && (
            d.output matches Some(o) && o@ == "Buildin Synth"@),
    {
        DevicesConfig::V1(
            DevicesConfigV1 {
                output: default_output(),
                input: None,
                separate_channels: default_separate_channels(),
            },
        )
    }
}

/// One named pair of note colors (RGB): the base color and its dark shade.
pub struct ColorSchemaV1 {
    pub name: String,
    pub base: (u8, u8, u8),
    pub dark: (u8, u8, u8),
}

/// Two schemas have the same name and colors.
pub open spec fn same_schema(a: ColorSchemaV1, b: ColorSchemaV1) -> bool {
    a.name@ == b.name@ && a.base == b.base && a.dark == b.dark
}

impl Clone for ColorSchemaV1 {
    fn clone(&self) -> (r: Self)
        ensures
            same_schema(r, *self),
    {
        ColorSchemaV1 { name: self.name.clone(), base: self.base, dark: self.dark }
    }
}

impl Default for ColorSchemaV1 {
    fn default() -> (r: Self)
        ensures
            r.name@ == Seq::<char>::empty(),
            r.base == (0u8, 0u8, 0u8),
            r.dark == (0u8, 0u8, 0u8),
    {
        ColorSchemaV1 { name: String::new(), base: (0, 0, 0), dark: (0, 0, 0) }
    }
}

/// Version 1 of the appearance section.
pub struct AppearanceConfigV1 {
    pub vertical_guidelines: bool,
    pub horizontal_guidelines: bool,
    pub glow: bool,
    pub chord_identifier: bool,
    pub background_color: (u8, u8, u8),
    pub color_schema: Vec<ColorSchemaV1>,
}

impl Clone for AppearanceConfigV1 {
    fn clone(&self) -> (r: Self)
        ensures
            r.vertical_guidelines == self.vertical_guidelines,
            r.horizontal_guidelines == self.horizontal_guidelines,
            r.glow == self.glow,
            r.chord_identifier == self.chord_identifier,
            r.background_color == self.background_color,
            r.color_schema@.len() == self.color_schema@.len(),
            forall|i: int|
                0 <= i < r.color_schema@.len() ==> same_schema(
                    #[trigger] r.color_schema@[i],
                    self.color_schema@[i],
                ),
    {
        let mut schemas: Vec<ColorSchemaV1> = Vec::new();
        let mut i: usize = 0;
        while i < self.color_schema.len()
            invariant
                i <= self.color_schema@.len(),
                schemas@.len() == i,
                forall|j: int|
                    0 <= j < i ==> same_schema(#[trigger] schemas@[j], self.color_schema@[j]),
            decreases self.color_schema@.len() - i,
        {
            schemas.push(self.color_schema[i].clone());
            i += 1;
        }
        AppearanceConfigV1 {
            vertical_guidelines: self.vertical_guidelines,
            horizontal_guidelines: self.horizontal_guidelines,
            glow: self.glow,
            chord_identifier: self.chord_identifier,
            background_color: self.background_color,
            color_schema: schemas,
        }
    }
}

/// The appearance section, tagged by version.
pub enum AppearanceConfig {
    V1(AppearanceConfigV1),
}

impl Default for AppearanceConfig {
    fn default() -> (r: Self)
        ensures
            r matches AppearanceConfig::V1(a) && {
                &&& a.vertical_guidelines
                &&& a.horizontal_guidelines
                &&& a.glow
                &&& a.chord_identifier
                &&& a.background_color == (24u8, 24u8, 24u8)
                &&& is_default_color_schema(a.color_schema@)
            },
    {
        AppearanceConfig::V1(
            AppearanceConfigV1 {
                vertical_guidelines: default_vertical_guidelines(),
                horizontal_guidelines: default_horizontal_guidelines(),
                glow: default_glow(),
                chord_identifier: default_chord_identifier(),
                background_color: default_background_color(),
                color_schema: default_color_schema(),
            },
        )
    }
}

/// Version 1 of the computer-keyboard section: the octave that the row of
/// letter keys plays.
#[derive(Clone)]
pub struct PcKeyboardConfigV1 {
    pub octave_shift: u8,
}

/// The computer-keyboard section, tagged by version.
pub enum PcKeyboardConfig {
    V1(PcKeyboardConfigV1),
}

impl Default for PcKeyboardConfig {
    fn default() -> (r: Self)
        ensures
            r matches PcKeyboardConfig::V1(p) && p.octave_shift == 5,
    {
        PcKeyboardConfig::V1(PcKeyboardConfigV1 { octave_shift: default_octave_shift() })
    }
}

/// Note labels are off by default.
pub fn default_note_labels() -> (r: bool)
    ensures
        !r,
{
    false
}

/// The default velocity curve is linear.
pub fn default_velocity_curve() -> (r: VelocityCurve)
    ensures
        r == VelocityCurve::Linear,
{
    VelocityCurve::Linear
}

/// The synthesizer plays up to 256 voices by default.
pub fn default_polyphony() -> (r: u16)
    ensures
        r == 256,
{
    256
}

/// Vertical guidelines are shown by default.
pub fn default_vertical_guidelines() -> (r: bool)
    ensures
        r,
{
    true
}

/// Horizontal guidelines are shown by default.
pub fn default_horizontal_guidelines() -> (r: bool)
    ensures
        r,
{
    true
}

/// Notes glow by default.
pub fn default_glow() -> (r: bool)
    ensures
        r,
{
    true
}

/// The chord identifier is shown by default.
pub fn default_chord_identifier() -> (r: bool)
    ensures
        r,
{
    true
}

/// MIDI channels share one output by default.
pub fn default_separate_channels() -> (r: bool)
    ensures
        !r,
{
    false
}

/// The default background is a dark grey.
pub fn default_background_color() -> (r: (u8, u8, u8))
    ensures
        r == (24u8, 24u8, 24u8),
{
    (24, 24, 24)
}

/// `schema` has the given name and colors.
pub open spec fn schema_is(
    schema: ColorSchemaV1,
    name: Seq<char>,
    base: (u8, u8, u8),
    dark: (u8, u8, u8),
) -> bool {
    schema.name@ == name && schema.base == base && schema.dark == dark
}

/// The six built-in color schemas, in order: Default (blue), Red, Green,
/// Yellow, Purple, Cyan.
pub open spec fn is_default_color_schema(s: Seq<ColorSchemaV1>) -> bool {
    &&& s.len() == 6
    &&& schema_is(s[0], "Default"@, (0x3cu8, 0x6eu8, 0xf0u8), (0x28u8, 0x4au8, 0xa0u8))
    &&& schema_is(s[1], "Red"@, (0xf0u8, 0x3cu8, 0x3cu8), (0xa0u8, 0x28u8, 0x28u8))
    &&& schema_is(s[2], "Green"@, (0x3cu8, 0xf0u8, 0x6eu8), (0x28u8, 0xa0u8, 0x4au8))
    &&& schema_is(s[3], "Yellow"@, (0xf0u8, 0xf0u8, 0x3cu8), (0xa0u8, 0xa0u8, 0x28u8))
    &&& schema_is(s[4], "Purple"@, (0xb0u8, 0x3cu8, 0xf0u8), (0x70u8, 0x28u8, 0xa0u8))
    &&& schema_is(s[5], "Cyan"@, (0x3cu8, 0xf0u8, 0xb0u8), (0x28u8, 0xa0u8, 0x70u8))
}

/// The built-in color schemas.
pub fn default_color_schema() -> (r: Vec<ColorSchemaV1>)
    ensures
        is_default_color_schema(r@),
{
    let mut v: Vec<ColorSchemaV1> = Vec::new();
    v.push(
        ColorSchemaV1 {
            name: String::from_str("Default"),
            base: (0x3c, 0x6e, 0xf0),
            dark: (0x28, 0x4a, 0xa0),
        },
    );
    v.push(
        ColorSchemaV1 {
            name: String::from_str("Red"),
            base: (0xf0, 0x3c, 0x3c),
            dark: (0xa0, 0x28, 0x28),
        },
    );
    v.push(
        ColorSchemaV1 {
            name: String::from_str("Green"),
            base: (0x3c, 0xf0, 0x6e),
            dark: (0x28, 0xa0, 0x4a),
        },
    );
    v.push(
        ColorSchemaV1 {
            name: String::from_str("Yellow"),
            base: (0xf0, 0xf0, 0x3c),
            dark: (0xa0, 0xa0, 0x28),
        },
    );
    v.push(
        ColorSchemaV1 {
            name: String::from_str("Purple"),
            base: (0xb0, 0x3c, 0xf0),
            dark: (0x70, 0x28, 0xa0),
        },
    );
    v.push(
        ColorSchemaV1 {
            name: String::from_str("Cyan"),
            base: (0x3c, 0xf0, 0xb0),
            dark: (0x28, 0xa0, 0x70),
        },
    );
    v
}

/// The built-in synthesizer is the default output.
pub fn default_output() -> (r: Option<String>)
    ensures
        r matches Some(o) && o@ == "Buildin Synth"@,
{
    Some(String::from_str("Buildin Synth"))
}

/// The letter keys play the fifth octave by default.
pub fn default_octave_shift() -> (r: u8)
    ensures
        r == 5,
{
    5
}

} // verus!
