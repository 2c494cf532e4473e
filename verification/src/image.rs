//! An avatar image: its file name and its bytes.

use vstd::prelude::*;

verus! {

pub struct Image {
    pub name: String,
    pub bytes: Vec<u8>,
}

impl Image {
    pub fn new(name: String, data: Vec<u8>) -> (r: Self)
        ensures
            r.name@ == name@,
            r.bytes@ == data@,
    {
        Self { name, bytes: data }
    }
}

} // verus!
