//! Which entries of a directory listing are avatar images.

use vstd::prelude::*;
use crate::path::{is_image_path, spec_is_image_path};

verus! {

/// The text of each string.
pub open spec fn string_views(v: Seq<String>) -> Seq<Seq<char>> {
    v.map_values(|s: String| s@)
}

/// The paths of a directory listing that name images, in listing order;
/// entries that could not be read (`None`) are skipped.
pub open spec fn spec_select_images(entries: Seq<Option<String>>) -> Seq<Seq<char>>
    decreases entries.len(),
{
    if entries.len() == 0 {
        seq![]
    } else {
        let rest = spec_select_images(entries.drop_last());
        match entries.last() {
            Some(p) => if spec_is_image_path(p@) {
                rest.push(p@)
            } else {
                rest
            },
            None => rest,
        }
    }
}

/// Whether `entries` holds the readable path `p`.
pub open spec fn lists(entries: Seq<Option<String>>, p: Seq<char>) -> bool {
    exists|j: int| 0 <= j < entries.len() && (#[trigger] entries[j] matches Some(e) && e@ == p)
}

/// The selection keeps exactly the listed paths that name images: each
/// path it keeps names an image and is in the listing, and each listed
/// path that names an image is kept.
pub proof fn lemma_selection_is_exact(entries: Seq<Option<String>>)
    ensures
        forall|i: int|
            0 <= i < spec_select_images(entries).len() ==> spec_is_image_path(
                #[trigger] spec_select_images(entries)[i],
            ) && lists(entries, spec_select_images(entries)[i]),
        forall|j: int|
            0 <= j < entries.len() && (#[trigger] entries[j] matches Some(e) && spec_is_image_path(
                e@,
            )) ==> spec_select_images(entries).contains(entries[j]->0@),
    decreases entries.len(),
{
    if entries.len() > 0 {
        let init = entries.drop_last();
        lemma_selection_is_exact(init);
        let sel = spec_select_images(entries);
        let rest = spec_select_images(init);
        assert forall|i: int| 0 <= i < sel.len() implies spec_is_image_path(#[trigger] sel[i])
            && lists(entries, sel[i]) by {
            if i < rest.len() {
                assert(sel[i] == rest[i]);
                let j = choose|j: int| 0 <= j < init.len() && (#[trigger] init[j] matches Some(e) && e@ == rest[i]);
                assert(entries[j] == init[j]);
            } else {
                assert(entries[entries.len() - 1] == entries.last());
            }
        }
        assert forall|j: int|
            0 <= j < entries.len() && (#[trigger] entries[j] matches Some(e) && spec_is_image_path(
                e@,
            )) implies sel.contains(entries[j]->0@) by {
            if j < init.len() {
                assert(init[j] == entries[j]);
                let k = choose|k: int| 0 <= k < rest.len() && rest[k] == init[j]->0@;
                assert(sel[k] == rest[k]);
            } else {
                assert(sel[sel.len() - 1] == entries.last()->0@);
            }
        }
    }
}

/// The paths of `entries` that name images ("jpg" or "png" files), in order.
pub fn select_images(entries: &Vec<Option<String>>) -> (r: Vec<String>)
    ensures
        string_views(r@) == spec_select_images(entries@),
{
    let mut out: Vec<String> = Vec::new();
    let n = entries.len();
    for i in 0..n
        invariant
            n == entries@.len(),
            string_views(out@) == spec_select_images(entries@.subrange(0, i as int)),
    {
        assert(entries@.subrange(0, i + 1).drop_last() =~= entries@.subrange(0, i as int));
        assert(entries@.subrange(0, i + 1).last() == entries@[i as int]);
        match &entries[i] {
            Some(p) => {
                if is_image_path(p.as_str()) {
                    let ghost before = out@;
                    out.push(p.clone());
                    assert(string_views(out@) =~= string_views(before).push(p@));
                }
            },
            None => {},
        }
    }
    assert(entries@.subrange(0, n as int) =~= entries@);
    out
}

/// Reads and moves image files; the reading and moving are done by the
/// program around this library, which hands back what it found.
pub struct FileRepository;

impl FileRepository {
    pub fn new() -> (r: Self) {
        FileRepository
    }

    /// The images among the entries of a directory listing, in listing order.
    pub fn get_list_of_images(&self, entries: &Vec<Option<String>>) -> (r: Vec<String>)
        ensures
            string_views(r@) == spec_select_images(entries@),
    {
        select_images(entries)
    }
}

} // verus!
