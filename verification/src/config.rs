//! Defaults of the settings that the layout and rendering code reads.

use vstd::prelude::*;

verus! {

/// The two colours of one palette entry, each as red, green and blue.
#[derive(Debug, PartialEq, Eq)]
pub struct ColorSchema {
    pub base: (u8, u8, u8),
    pub dark: (u8, u8, u8),
}

impl Clone for ColorSchema {
    fn clone(&self) -> (schema: Self)
        ensures
            schema == *self,
    {
        ColorSchema { base: self.base, dark: self.dark }
    }
}

impl Default for ColorSchema {
    /// Black for both colours.
    fn default() -> (schema: Self)
        ensures
            schema == (ColorSchema { base: (0u8, 0u8, 0u8), dark: (0u8, 0u8, 0u8) }),
    {
        ColorSchema { base: (0, 0, 0), dark: (0, 0, 0) }
    }
}

/// The palette that a new configuration starts with.
pub open spec fn default_palette() -> Seq<ColorSchema> {
    seq![
        ColorSchema { base: (210u8, 89u8, 222u8), dark: (125u8, 69u8, 134u8) },
        ColorSchema { base: (93u8, 188u8, 255u8), dark: (48u8, 124u8, 255u8) },
        ColorSchema { base: (255u8, 126u8, 51u8), dark: (192u8, 73u8, 0u8) },
        ColorSchema { base: (51u8, 255u8, 102u8), dark: (0u8, 168u8, 2u8) },
        ColorSchema { base: (255u8, 51u8, 129u8), dark: (48u8, 124u8, 255u8) },
        ColorSchema { base: (210u8, 89u8, 222u8), dark: (125u8, 69u8, 134u8) },
    ]
}

/// The keys shown by default: the two octaves from C3 to B4, as the first
/// and the last MIDI note.
pub fn default_piano_range() -> (range: (u8, u8))
    ensures
        range == (48u8, 71u8),
{
    (48, 71)
}

/// Vertical guidelines are off by default.
pub fn default_vertical_guidelines() -> (on: bool)
    ensures
        !on,
{
    false
}

/// Horizontal guidelines are off by default.
pub fn default_horizontal_guidelines() -> (on: bool)
    ensures
        !on,
{
    false
}

/// The default palette: six entries, the last equal to the first.
pub fn default_color_schema() -> (palette: Vec<ColorSchema>)
    ensures
        palette@ == default_palette(),
{
    let palette = vec![
        ColorSchema { base: (210, 89, 222), dark: (125, 69, 134) },
        ColorSchema { base: (93, 188, 255), dark: (48, 124, 255) },
        ColorSchema { base: (255, 126, 51), dark: (192, 73, 0) },
        ColorSchema { base: (51, 255, 102), dark: (0, 168, 2) },
        ColorSchema { base: (255, 51, 129), dark: (48, 124, 255) },
        ColorSchema { base: (210, 89, 222), dark: (125, 69, 134) },
    ];
    assert(palette@ =~= default_palette());
    palette
}

/// The output that is selected by default: the synthesizer that comes with
/// the application.
pub fn default_output() -> (output: Option<String>)
    ensures
        output matches Some(name) && name@ == "Buildin Synth"@,
{
    Some("Buildin Synth".to_string())
}

} // verus!
