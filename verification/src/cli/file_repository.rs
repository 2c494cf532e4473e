//! The repository of the command-line variant: the images of one directory,
//! read as data URIs.

use vstd::prelude::*;
use crate::codecs::{base64_len_fits, base64_standard};
use crate::data_uri::{encode_avatar, spec_avatar_type, spec_data_uri};
use crate::file_repository::{select_images, spec_select_images, string_views};

verus! {

pub struct FileRepository {
    base_path: String,
}

impl FileRepository {
    pub closed spec fn spec_base_path(&self) -> Seq<char> {
        self.base_path@
    }

    pub fn new(base_path: String) -> (r: Self)
        ensures
            r.spec_base_path() == base_path@,
    {
        Self { base_path }
    }

    /// The directory the images are listed from.
    pub fn base_path(&self) -> (r: &str)
        ensures
            r@ == self.spec_base_path(),
    {
        self.base_path.as_str()
    }

    /// The images among `entries`, the listing of the base directory, in
    /// listing order.
    pub fn get_list_of_images(&self, entries: &Vec<Option<String>>) -> (r: Vec<String>)
        ensures
            string_views(r@) == spec_select_images(entries@),
    {
        select_images(entries)
    }

    /// The image at `path`, whose contents are `bytes`, as a data URI: "png"
    /// for a ".png" file, "jpg" for any other.
    pub fn encode_image(&self, path: &str, bytes: &Vec<u8>) -> (r: String)
        requires
            base64_len_fits(bytes@.len()),
        ensures
            r@ == spec_data_uri(spec_avatar_type(path@), base64_standard(bytes@)),
    {
        encode_avatar(path, bytes)
    }
}

} // verus!
