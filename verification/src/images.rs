//! The catalogue of uploaded images: still images and animations, each
//! found by the name it was registered under.
//!
//! Decoding and uploading is the caller's part; the catalogue holds what
//! came of it.  Where a name is registered twice, the later entry counts.

use crate::catalogue::{find, named};
use vstd::prelude::*;

verus! {

/// An uploaded image: the texture it lives in, and its size in pixels.
#[derive(Clone, Copy, Debug, PartialEq, Eq, Structural)]
pub struct ImageData {
    pub texture_id: u32,
    pub width: u32,
    pub height: u32,
}

/// The catalogue.
pub struct ImageLoader {
    images: Vec<(String, ImageData)>,
    gifs: Vec<(String, Vec<ImageData>)>,
}

fn copy_frames(frames: &Vec<ImageData>) -> (copy: Vec<ImageData>)
    ensures
        copy@ == frames@,
{
    let mut copy: Vec<ImageData> = Vec::new();
    let mut i: usize = 0;
    while i < frames.len()
        invariant
            i <= frames.len(),
            copy@ == frames@.take(i as int),
        decreases frames.len() - i,
    {
        copy.push(frames[i]);
        assert(frames@.take(i + 1) =~= frames@.take(i as int).push(frames@[i as int]));
        i += 1;
    }
    assert(frames@.take(frames.len() as int) =~= frames@);
    copy
}

impl ImageLoader {
    /// The still images of the catalogue, by name.
    pub closed spec fn images(&self) -> Map<Seq<char>, ImageData> {
        named(self.images@)
    }

    /// The animations of the catalogue, by name: the frames of each, in order.
    pub closed spec fn gifs(&self) -> Map<Seq<char>, Vec<ImageData>> {
        named(self.gifs@)
    }

    /// The catalogue of the given still images and animations, each with
    /// its name.
    pub fn new(images: Vec<(String, ImageData)>, gifs: Vec<(String, Vec<ImageData>)>) -> (loader:
        ImageLoader)
        ensures
            loader.images() == named(images@),
            loader.gifs() == named(gifs@),
    {
        ImageLoader { images, gifs }
    }

    /// The still image registered as `name`.
    pub fn get_image(&self, name: &str) -> (image: Option<ImageData>)
        ensures
            image == (if self.images().contains_key(name@) {
                Some(self.images()[name@])
            } else {
                None
            }),
    {
        match find(&self.images, name) {
            Some(i) => Some(self.images[i].1),
            None => None,
        }
    }

    /// The frames of the animation registered as `name`.
    pub fn get_gif(&self, name: &str) -> (frames: Option<Vec<ImageData>>)
        ensures
            match frames {
                Some(f) => self.gifs().contains_key(name@) && f@ == self.gifs()[name@]@,
                None => !self.gifs().contains_key(name@),
            },
    {
        match find(&self.gifs, name) {
            Some(i) => Some(copy_frames(&self.gifs[i].1)),
            None => None,
        }
    }
}

/// Fills `slot` with the catalogue of the given images, unless it holds a
/// catalogue already: the first catalogue stays.
pub fn load_images(
    slot: &mut Option<ImageLoader>,
    images: Vec<(String, ImageData)>,
    gifs: Vec<(String, Vec<ImageData>)>,
)
    ensures
        *old(slot) is Some ==> *final(slot) == *old(slot),
        *old(slot) is None ==> *final(slot) is Some,
        *old(slot) is None ==> (*final(slot))->0.images() == named(images@),
        *old(slot) is None ==> (*final(slot))->0.gifs() == named(gifs@),
{
    if slot.is_none() {
        *slot = Some(ImageLoader::new(images, gifs));
    }
}

/// The still image registered as `name` in the loaded catalogue.
pub fn get_image(slot: &Option<ImageLoader>, name: &str) -> (image: Option<ImageData>)
    requires
        slot is Some,
    ensures
        image == (if slot->0.images().contains_key(name@) {
            Some(slot->0.images()[name@])
        } else {
            None
        }),
{
    match slot {
        Some(loader) => loader.get_image(name),
        None => None,
    }
}

/// The frames of the animation registered as `name` in the loaded catalogue.
pub fn get_gif(slot: &Option<ImageLoader>, name: &str) -> (frames: Option<Vec<ImageData>>)
    requires
        slot is Some,
    ensures
        match frames {
            Some(f) => slot->0.gifs().contains_key(name@) && f@ == slot->0.gifs()[name@]@,
            None => !slot->0.gifs().contains_key(name@),
        },
{
    match slot {
        Some(loader) => loader.get_gif(name),
        None => None,
    }
}

} // verus!
