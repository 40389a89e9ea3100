//! The catalogue of loaded fonts, each found by the name it was registered
//! under.
//!
//! What a loaded font holds (its glyph atlas and metrics) is the caller's
//! business: the catalogue keeps it and hands it out unread.

use crate::catalogue::{find, named};
use vstd::prelude::*;

verus! {

/// The catalogue, for fonts of type `F`.
pub struct FontLoader<F> {
    fonts: Vec<(String, F)>,
}

impl<F> FontLoader<F> {
    /// The fonts of the catalogue, by name.
    pub closed spec fn fonts(&self) -> Map<Seq<char>, F> {
        named(self.fonts@)
    }

    /// The catalogue of the given fonts, each with its name.
    pub fn new(fonts: Vec<(String, F)>) -> (loader: FontLoader<F>)
        ensures
            loader.fonts() == named(fonts@),
    {
        FontLoader { fonts }
    }

    /// The font registered as `name`.
    pub fn get_font(&self, name: &str) -> (font: Option<&F>)
        ensures
            font == (if self.fonts().contains_key(name@) {
                Some(&self.fonts()[name@])
            } else {
                None
            }),
    {
        match find(&self.fonts, name) {
            Some(i) => Some(&self.fonts[i].1),
            None => None,
        }
    }
}

/// Fills `slot` with the catalogue of the given fonts, unless it holds a
/// catalogue already: the first catalogue stays.
pub fn load_fonts<F>(slot: &mut Option<FontLoader<F>>, fonts: Vec<(String, F)>)
    ensures
        *old(slot) is Some ==> *final(slot) == *old(slot),
        *old(slot) is None ==> *final(slot) is Some,
        *old(slot) is None ==> (*final(slot))->0.fonts() == named(fonts@),
{
    if slot.is_none() {
        *slot = Some(FontLoader::new(fonts));
    }
}

/// The font registered as `name` in the loaded catalogue.
pub fn get_font<'a, F>(slot: &'a Option<FontLoader<F>>, name: &str) -> (font: Option<&'a F>)
    requires
        slot is Some,
    ensures
        font == (if slot->0.fonts().contains_key(name@) {
            Some(&slot->0.fonts()[name@])
        } else {
            None
        }),
{
    match slot {
        Some(loader) => loader.get_font(name),
        None => None,
    }
}

} // verus!
