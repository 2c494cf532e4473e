//! An avatar image held as a data URI.

use vstd::prelude::*;

verus! {

pub struct Image {
    pub name: String,
    /// The avatar content: a Base64 data URI.
    pub data: String,
}

impl Image {
    pub fn new(name: String, data: String) -> (r: Self)
        ensures
            r.name@ == name@,
            r.data@ == data@,
    {
        Self { name, data }
    }
}

} // verus!
