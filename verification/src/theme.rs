//! The colour table that the panel reads.
//!
//! A theme is keyed three times: by elevation (`lowest`, `middle`, `highest`),
//! by role (`base`, `variant`, `positive`) and by interaction state
//! (`default`, `hovered`, `pressed`). Each slot holds a background, a
//! foreground and a border colour.

use vstd::prelude::*;

verus! {

/// A colour by hue, saturation, lightness and alpha.
///
/// The panel never computes with a colour, it only puts it in place. Each
/// channel is therefore carried as the bit pattern of the host's 32-bit
/// floating-point value, so that a colour leaves the library exactly as it
/// came in.
#[derive(Clone, Copy, Debug, PartialEq, Eq, Hash, Structural)]
pub struct Hsla {
    pub h: u32,
    pub s: u32,
    pub l: u32,
    pub a: u32,
}

/// The three colours of one slot.
#[derive(Clone, Copy, Debug, PartialEq, Eq, Hash, Structural)]
pub struct ContainerColors {
    pub background: Hsla,
    pub foreground: Hsla,
    pub border: Hsla,
}

/// The colours of one role, by interaction state.
#[derive(Clone, Copy, Debug, PartialEq, Eq, Hash, Structural)]
pub struct StyleSet {
    pub default: ContainerColors,
    pub hovered: ContainerColors,
    pub pressed: ContainerColors,
}

/// The colours of one elevation, by role.
#[derive(Clone, Copy, Debug, PartialEq, Eq, Hash, Structural)]
pub struct Layer {
    pub base: StyleSet,
    pub variant: StyleSet,
    pub positive: StyleSet,
}

/// The whole table, by elevation.
#[derive(Clone, Copy, Debug, PartialEq, Eq, Hash, Structural)]
pub struct Theme {
    pub lowest: Layer,
    pub middle: Layer,
    pub highest: Layer,
}

} // verus!
