//! Provides the next avatar: a picture picked at random from the storage,
//! taken out of it, or put back when taking it fails.

use vstd::prelude::*;
use rand::seq::SliceRandom;
use crate::image::Image;
use crate::image_storage::{ImageStorage, TakeImage};

verus! {

/// `SliceRandom::choose` of the `rand` crate with the thread-local
/// generator, the chosen path cloned. Its documentation promises `None`
/// exactly for an empty slice and otherwise one of its elements; which one
/// rests on chance and is not stated.
#[verifier::external_body]
fn choose_path(paths: &Vec<String>) -> (r: Option<String>)
    ensures
        r is None <==> paths@.len() == 0,
        r matches Some(p) ==> exists|i: int| 0 <= i < paths@.len() && paths@[i]@ == p@,
{
    paths.choose(&mut rand::thread_rng()).cloned()
}

/// What becomes of a picture whose taking was tried.
pub enum TakeOutcome {
    /// It was taken: it is the avatar.
    Provide(Image),
    /// Taking it failed: it has to be put back, and there is no avatar.
    RollBack,
}

pub struct AvatarFileProvider {
    storage: Box<ImageStorage>,
}

impl AvatarFileProvider {
    pub closed spec fn spec_storage(&self) -> ImageStorage {
        *self.storage
    }

    pub fn new(storage: ImageStorage) -> (r: Self)
        ensures
            r.spec_storage() == storage,
    {
        Self { storage: Box::new(storage) }
    }

    pub fn storage(&self) -> (r: &ImageStorage)
        ensures
            *r == self.spec_storage(),
    {
        &*self.storage
    }

    /// The command that takes a picture picked at random among `paths`, the
    /// pictures of the storage; `None` when there are none.
    pub fn pick(&self, paths: &Vec<String>) -> (r: Option<TakeImage<'_>>)
        ensures
            r is None <==> paths@.len() == 0,
            r matches Some(t) ==> {
                &&& exists|i: int|
                    0 <= i < paths@.len() && paths@[i]@ == t.spec_image_path()
                &&& t.spec_used_images_path() == self.spec_storage().spec_used_images_path()
            },
    {
        self.take_picked(choose_path(paths))
    }

    /// The command that takes the picture `picked` by the random choice:
    /// exactly that picture, or nothing when nothing was picked.
    pub fn take_picked(&self, picked: Option<String>) -> (r: Option<TakeImage<'_>>)
        ensures
            r is None <==> picked is None,
            r matches Some(t) ==> {
                &&& t.spec_image_path() == picked->0@
                &&& t.spec_used_images_path() == self.spec_storage().spec_used_images_path()
            },
    {
        match picked {
            None => None,
            Some(path) => Some(self.storage.get_image(path)),
        }
    }

    /// The outcome of taking a picture: the picture when it was taken, else
    /// a roll back (the error itself is dropped).
    pub fn after_take<E>(result: Result<Image, E>) -> (r: TakeOutcome)
        ensures
            match result {
                Ok(image) => r matches TakeOutcome::Provide(i) && i == image,
                Err(_) => r is RollBack,
            },
    {
        match result {
            Ok(image) => TakeOutcome::Provide(image),
            Err(_) => TakeOutcome::RollBack,
        }
    }

    /// After a roll back there is no avatar; a roll back that failed is
    /// fatal, and the error says so.
    pub fn after_rollback(result: Result<(), String>) -> (r: Result<Option<Image>, String>)
        ensures
            match result {
                Ok(_) => r matches Ok(None),
                Err(e) => (r matches Err(m) && m@
                    == "Something went wrong while rollback operation: "@ + e@),
            },
    {
        match result {
            Ok(_) => Ok(None),
            Err(e) => {
                let mut m = "Something went wrong while rollback operation: ".to_owned();
                m.append(e.as_str());
                Err(m)
            },
        }
    }
}

} // verus!
