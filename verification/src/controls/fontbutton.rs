//! Font style descriptions, as the boundary encodes them.
//!
//! The font-picking control itself reports its choice through fractional
//! sizes the native side owns; what the boundary layer contributes is the
//! exact decoding of the style codes it ships back and forth.

use crate::registry::Handle;
use crate::ui::UI;
use vstd::prelude::*;

verus! {

/// An enum listing font styles.
#[derive(Copy, Clone, Debug, PartialEq, Eq, Structural)]
pub enum SlantStyle {
    Normal,
    Oblique,
    Italic,
}

/// An enum listing font stretch levels.
#[derive(Copy, Clone, Debug, PartialEq, Eq, Structural)]
pub enum StretchStyle {
    UltraCondensed,
    ExtraCondensed,
    Condensed,
    SemiCondensed,
    Normal,
    SemiExpanded,
    Expanded,
    ExtraExpanded,
    UltraExpanded,
}

impl SlantStyle {
    /// The numeric code the boundary ships for this style.
    pub open spec fn code_spec(&self) -> int {
        match self {
            SlantStyle::Normal => 0,
            SlantStyle::Oblique => 1,
            SlantStyle::Italic => 2,
        }
    }

    /// Decodes a boundary style code; exactly the codes 0 through 2 decode.
    pub fn try_from(value: u32) -> (r: Result<SlantStyle, ()>)
        ensures
            r is Ok <==> value <= 2,
            r matches Ok(s) ==> s.code_spec() == value as int,
    {
        match value {
            0u32 => Ok(SlantStyle::Normal),
            1u32 => Ok(SlantStyle::Oblique),
            2u32 => Ok(SlantStyle::Italic),
            _ => Err(()),
        }
    }

    /// Encodes this style as the code the boundary ships.
    pub fn as_code(&self) -> (r: u32)
        ensures
            r as int == self.code_spec(),
    {
        match self {
            SlantStyle::Normal => 0,
            SlantStyle::Oblique => 1,
            SlantStyle::Italic => 2,
        }
    }
}

impl StretchStyle {
    /// The numeric code the boundary ships for this stretch level.
    pub open spec fn code_spec(&self) -> int {
        match self {
            StretchStyle::UltraCondensed => 0,
            StretchStyle::ExtraCondensed => 1,
            StretchStyle::Condensed => 2,
            StretchStyle::SemiCondensed => 3,
            StretchStyle::Normal => 4,
            StretchStyle::SemiExpanded => 5,
            StretchStyle::Expanded => 6,
            StretchStyle::ExtraExpanded => 7,
            StretchStyle::UltraExpanded => 8,
        }
    }

    /// Decodes a boundary stretch code; exactly the codes 0 through 8 decode.
    pub fn try_from(value: u32) -> (r: Result<StretchStyle, ()>)
        ensures
            r is Ok <==> value <= 8,
            r matches Ok(s) ==> s.code_spec() == value as int,
    {
        match value {
            0u32 => Ok(StretchStyle::UltraCondensed),
            1u32 => Ok(StretchStyle::ExtraCondensed),
            2u32 => Ok(StretchStyle::Condensed),
            3u32 => Ok(StretchStyle::SemiCondensed),
            4u32 => Ok(StretchStyle::Normal),
            5u32 => Ok(StretchStyle::SemiExpanded),
            6u32 => Ok(StretchStyle::Expanded),
            7u32 => Ok(StretchStyle::ExtraExpanded),
            8u32 => Ok(StretchStyle::UltraExpanded),
            _ => Err(()),
        }
    }

    /// Encodes this stretch level as the code the boundary ships.
    pub fn as_code(&self) -> (r: u32)
        ensures
            r as int == self.code_spec(),
    {
        match self {
            StretchStyle::UltraCondensed => 0,
            StretchStyle::ExtraCondensed => 1,
            StretchStyle::Condensed => 2,
            StretchStyle::SemiCondensed => 3,
            StretchStyle::Normal => 4,
            StretchStyle::SemiExpanded => 5,
            StretchStyle::Expanded => 6,
            StretchStyle::ExtraExpanded => 7,
            StretchStyle::UltraExpanded => 8,
        }
    }
}

/// A button which allows the user to pick a font.
///
/// The picked font description carries a fractional size the native toolkit
/// owns and hands out on request; the boundary layer owns only the callback
/// slot for change events.
pub struct FontButton {
    changed: Option<Handle>,
}

impl FontButton {
    /// The callback slot for changed events.
    pub closed spec fn changed_slot(&self) -> Option<Handle> {
        self.changed
    }

    /// Creates a new font button with no callback registered.
    pub fn new() -> (r: FontButton)
        ensures
            r.changed_slot() is None,
    {
        FontButton { changed: None }
    }

    /// Registers the callback run when the font is changed, fully superseding
    /// any previously registered one. Requires an initialized toolkit.
    pub fn on_changed(&mut self, _ctx: &UI, callback: Handle)
        ensures
            final(self).changed_slot() == Some(callback),
    {
        self.changed = Some(callback);
    }

    /// A user-driven font change: exactly one run of exactly the currently
    /// registered callback is owed, or nothing if no callback is registered.
    pub fn deliver_changed(&self) -> (r: Option<Handle>)
        ensures
            r == self.changed_slot(),
    {
        self.changed
    }
}

} // verus!
