//! The directory of avatar pictures, and the command that takes one of them
//! out of it (moving it into the directory of used pictures) or puts it back.

use vstd::prelude::*;
use crate::file_repository::{FileRepository, spec_select_images, string_views};
use crate::image::Image;
use crate::path::{
    file_name, join, lemma_file_name_is_plain, lemma_file_name_of_join, spec_file_name, spec_join,
};

verus! {

/// Pictures wait in `base_path`; a picture that has been used moves to
/// `used_images_path`.
pub struct ImageStorage {
    base_path: String,
    used_images_path: String,
    file_repository: Box<FileRepository>,
}

impl ImageStorage {
    pub closed spec fn spec_base_path(&self) -> Seq<char> {
        self.base_path@
    }

    pub closed spec fn spec_used_images_path(&self) -> Seq<char> {
        self.used_images_path@
    }

    /// The storage over the two directories; the program creates them first
    /// where they do not exist.
    pub fn new(base_path: String, used_images_path: String, file_repository: FileRepository) -> (r:
        Self)
        ensures
            r.spec_base_path() == base_path@,
            r.spec_used_images_path() == used_images_path@,
    {
        Self { base_path, used_images_path, file_repository: Box::new(file_repository) }
    }

    pub fn base_path(&self) -> (r: &str)
        ensures
            r@ == self.spec_base_path(),
    {
        self.base_path.as_str()
    }

    pub fn used_images_path(&self) -> (r: &str)
        ensures
            r@ == self.spec_used_images_path(),
    {
        self.used_images_path.as_str()
    }

    pub fn file_repository(&self) -> (r: &FileRepository) {
        &*self.file_repository
    }

    /// The command that takes the picture at `path`.
    pub fn get_image(&self, path: String) -> (r: TakeImage<'_>)
        ensures
            r.spec_image_path() == path@,
            r.spec_used_images_path() == self.spec_used_images_path(),
    {
        TakeImage {
            image_path: path,
            used_images_path: &self.used_images_path,
            file_repository: &*self.file_repository,
        }
    }

    /// The pictures among `entries`, the listing of the base directory.
    pub fn get_list_of_images(&self, entries: &Vec<Option<String>>) -> (r: Vec<String>)
        ensures
            string_views(r@) == spec_select_images(entries@),
    {
        self.file_repository.get_list_of_images(entries)
    }
}

/// Takes the picture at `image_path` out of the pictures directory by moving
/// it into `used_images_path`, or puts it back.
pub struct TakeImage<'a> {
    image_path: String,
    used_images_path: &'a String,
    file_repository: &'a FileRepository,
}

impl<'a> TakeImage<'a> {
    pub closed spec fn spec_image_path(&self) -> Seq<char> {
        self.image_path@
    }

    pub closed spec fn spec_used_images_path(&self) -> Seq<char> {
        self.used_images_path@
    }

    /// The picture's file name.
    pub open spec fn spec_name(&self) -> Seq<char> {
        spec_file_name(self.spec_image_path())->0
    }

    /// Where taking the picture moves it to.
    pub open spec fn spec_used_path(&self) -> Seq<char> {
        spec_join(self.spec_used_images_path(), self.spec_name())
    }

    /// Whether the picture's path has a file name at all.
    pub open spec fn has_file_name(&self) -> bool {
        spec_file_name(self.spec_image_path()) is Some
    }

    pub fn image_path(&self) -> (r: &str)
        ensures
            r@ == self.spec_image_path(),
    {
        self.image_path.as_str()
    }

    pub fn file_repository(&self) -> (r: &FileRepository) {
        self.file_repository
    }

    /// Whether the picture's path has a file name at all.
    pub fn names_a_file(&self) -> (r: bool)
        ensures
            r == self.has_file_name(),
    {
        file_name(self.image_path.as_str()).is_some()
    }

    /// The file name of the picture.
    pub fn get_file_name(&self) -> (r: &str)
        requires
            self.has_file_name(),
        ensures
            r@ == self.spec_name(),
    {
        match file_name(self.image_path.as_str()) {
            Some(n) => n,
            None => {
                proof {
                    assert(false);
                }
                ""
            },
        }
    }

    /// The move that takes the picture: from its path to the same file name
    /// in the directory of used pictures.
    pub fn take_move(&self) -> (r: (String, String))
        requires
            self.has_file_name(),
        ensures
            r.0@ == self.spec_image_path(),
            r.1@ == self.spec_used_path(),
    {
        let name = self.get_file_name();
        (self.image_path.clone(), join(self.used_images_path.as_str(), name))
    }

    /// The move that puts the picture back: the move of `take_move` reversed.
    pub fn rollback_move(&self) -> (r: (String, String))
        requires
            self.has_file_name(),
        ensures
            r.0@ == self.spec_used_path(),
            r.1@ == self.spec_image_path(),
    {
        let name = self.get_file_name();
        (join(self.used_images_path.as_str(), name), self.image_path.clone())
    }

    /// The picture once its bytes have been read: named by its file name.
    pub fn taken_image(&self, bytes: Vec<u8>) -> (r: Image)
        requires
            self.has_file_name(),
        ensures
            r.name@ == self.spec_name(),
            r.bytes@ == bytes@,
    {
        let name = self.get_file_name();
        Image::new(name.to_owned(), bytes)
    }
}

/// Taking a picture moves it to the used directory itself, followed by its
/// file name: after a '/' when the directory does not already end in one.
/// The used directory is always a prefix of the destination.
pub proof fn lemma_take_destination(t: TakeImage<'_>)
    requires
        t.has_file_name(),
    ensures
        ({
            let u = t.spec_used_images_path();
            let n = t.spec_name();
            &&& u.len() > 0 && u.last() != '/' ==> t.spec_used_path() == u + seq!['/'] + n
            &&& !(u.len() > 0 && u.last() != '/') ==> t.spec_used_path() == u + n
            &&& t.spec_used_path().len() >= u.len()
            &&& t.spec_used_path().subrange(0, u.len() as int) == u
        }),
{
    let u = t.spec_used_images_path();
    let n = t.spec_name();
    lemma_file_name_is_plain(t.spec_image_path());
    assert(n[0] != '/');
    if u.len() > 0 && u.last() != '/' {
        assert((u + seq!['/'] + n).subrange(0, u.len() as int) =~= u);
    } else {
        assert((u + n).subrange(0, u.len() as int) =~= u);
    }
}

/// Taking a picture keeps its file name, and putting it back moves it from
/// exactly where taking it left it to exactly where it was.
pub proof fn lemma_rollback_undoes_take(t: TakeImage<'_>)
    requires
        t.has_file_name(),
    ensures
        spec_file_name(t.spec_used_path()) == Some(t.spec_name()),
{
    lemma_file_name_is_plain(t.spec_image_path());
    lemma_file_name_of_join(t.spec_used_images_path(), t.spec_name());
}

} // verus!
