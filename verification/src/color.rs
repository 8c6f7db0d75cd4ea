//! The fixed color palette the story fragments draw from.
//!
//! A color is hue, saturation, lightness and alpha as plain integers: the
//! hue in degrees below 360, the other three as percentages. The palette is
//! stateless and recomputed on every request.

use vstd::prelude::*;

verus! {

/// A color as hue (degrees), saturation, lightness and alpha (percent).
#[derive(Clone, Copy, Debug, PartialEq, Eq, Structural)]
pub struct Hsl {
    pub hue_degrees: u16,
    pub saturation_percent: u8,
    pub lightness_percent: u8,
    pub alpha_percent: u8,
}

pub open spec fn hsl_wf(c: Hsl) -> bool {
    &&& c.hue_degrees < 360
    &&& c.saturation_percent <= 100
    &&& c.lightness_percent <= 100
    &&& c.alpha_percent <= 100
}

/// The named colors of the palette.
#[derive(Clone, Copy, Debug, PartialEq, Eq, Structural)]
pub struct StoryColor {
    pub primary: Hsl,
    pub secondary: Hsl,
    pub border: Hsl,
    pub background: Hsl,
    pub card_background: Hsl,
    pub divider: Hsl,
    pub link: Hsl,
}

/// The palette's one value: dark primary and secondary text on a white
/// background, a light border shared with the divider, and a blue link.
pub open spec fn spec_story_color() -> StoryColor {
    StoryColor {
        primary: Hsl {
            hue_degrees: 216,
            saturation_percent: 11,
            lightness_percent: 0,
            alpha_percent: 100,
        },
        secondary: Hsl {
            hue_degrees: 216,
            saturation_percent: 11,
            lightness_percent: 16,
            alpha_percent: 100,
        },
        border: Hsl {
            hue_degrees: 216,
            saturation_percent: 11,
            lightness_percent: 91,
            alpha_percent: 100,
        },
        background: Hsl {
            hue_degrees: 0,
            saturation_percent: 0,
            lightness_percent: 100,
            alpha_percent: 100,
        },
        card_background: Hsl {
            hue_degrees: 0,
            saturation_percent: 0,
            lightness_percent: 96,
            alpha_percent: 100,
        },
        divider: Hsl {
            hue_degrees: 216,
            saturation_percent: 11,
            lightness_percent: 91,
            alpha_percent: 100,
        },
        link: Hsl {
            hue_degrees: 206,
            saturation_percent: 100,
            lightness_percent: 50,
            alpha_percent: 100,
        },
    }
}

pub open spec fn story_color_wf(c: StoryColor) -> bool {
    &&& hsl_wf(c.primary)
    &&& hsl_wf(c.secondary)
    &&& hsl_wf(c.border)
    &&& hsl_wf(c.background)
    &&& hsl_wf(c.card_background)
    &&& hsl_wf(c.divider)
    &&& hsl_wf(c.link)
}

impl StoryColor {
    pub fn new() -> (c: StoryColor)
        ensures
            c == spec_story_color(),
            story_color_wf(c),
    {
        StoryColor {
            primary: Hsl {
                hue_degrees: 216,
                saturation_percent: 11,
                lightness_percent: 0,
                alpha_percent: 100,
            },
            secondary: Hsl {
                hue_degrees: 216,
                saturation_percent: 11,
                lightness_percent: 16,
                alpha_percent: 100,
            },
            border: Hsl {
                hue_degrees: 216,
                saturation_percent: 11,
                lightness_percent: 91,
                alpha_percent: 100,
            },
            background: Hsl {
                hue_degrees: 0,
                saturation_percent: 0,
                lightness_percent: 100,
                alpha_percent: 100,
            },
            card_background: Hsl {
                hue_degrees: 0,
                saturation_percent: 0,
                lightness_percent: 96,
                alpha_percent: 100,
            },
            divider: Hsl {
                hue_degrees: 216,
                saturation_percent: 11,
                lightness_percent: 91,
                alpha_percent: 100,
            },
            link: Hsl {
                hue_degrees: 206,
                saturation_percent: 100,
                lightness_percent: 50,
                alpha_percent: 100,
            },
        }
    }
}

/// The palette, recomputed on each request.
pub fn story_color() -> (c: StoryColor)
    ensures
        c == spec_story_color(),
        story_color_wf(c),
{
    StoryColor::new()
}

} // verus!
