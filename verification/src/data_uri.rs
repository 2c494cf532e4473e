//! Avatar files as data URIs: `data:image/{type};base64,{contents}`.

use vstd::prelude::*;
use crate::codecs::{base64_len_fits, base64_standard, encode_base64};
use crate::path::{extension, jpg, lemma_extension_of_file, png, spec_extension, spec_join};

verus! {

/// The image type an avatar file is sent as: "png" for a ".png" file,
/// "jpg" for any other.
pub open spec fn spec_avatar_type(name: Seq<char>) -> Seq<char> {
    if spec_extension(name) == Some(png()) {
        png()
    } else {
        jpg()
    }
}

/// The type depends on the extension alone: "png" exactly for the
/// extension "png", "jpg" otherwise.
pub proof fn lemma_avatar_type_by_extension(name: Seq<char>)
    ensures
        spec_extension(name) == Some(seq!['p', 'n', 'g']) ==> spec_avatar_type(name) == seq![
            'p',
            'n',
            'g',
        ],
        spec_extension(name) != Some(seq!['p', 'n', 'g']) ==> spec_avatar_type(name) == seq![
            'j',
            'p',
            'g',
        ],
{
}

/// A file `stem.png` in any directory is sent as "png", and `stem.jpg` as
/// "jpg", whatever characters the stem holds (more dots included).
pub proof fn lemma_avatar_type_of_file(dir: Seq<char>, stem: Seq<char>)
    requires
        stem.len() > 0,
        forall|j: int| 0 <= j < stem.len() ==> stem[j] != '/',
    ensures
        spec_avatar_type(spec_join(dir, stem + seq!['.'] + seq!['p', 'n', 'g'])) == seq!['p', 'n', 'g'],
        spec_avatar_type(spec_join(dir, stem + seq!['.'] + seq!['j', 'p', 'g'])) == seq!['j', 'p', 'g'],
{
    let png_name = stem + seq!['.'] + seq!['p', 'n', 'g'];
    let jpg_name = stem + seq!['.'] + seq!['j', 'p', 'g'];
    assert(png_name.len() > 2 && jpg_name.len() > 2);
    lemma_extension_of_file(dir, stem, seq!['p', 'n', 'g']);
    lemma_extension_of_file(dir, stem, seq!['j', 'p', 'g']);
    assert(seq!['j', 'p', 'g'] != seq!['p', 'n', 'g']) by {
        assert(seq!['j', 'p', 'g'][0] != seq!['p', 'n', 'g'][0]);
    }
}

/// The image type of the avatar file `name`.
pub fn avatar_type(name: &str) -> (r: &'static str)
    ensures
        r@ == spec_avatar_type(name@),
{
    proof {
        reveal_strlit("png");
        reveal_strlit("jpg");
    }
    let is_png = match extension(name) {
        None => false,
        Some(e) => e.unicode_len() == 3 && e.get_char(0) == 'p' && e.get_char(1) == 'n'
            && e.get_char(2) == 'g',
    };
    assert(is_png <==> spec_extension(name@) == Some(png())) by {
        if let Some(e) = spec_extension(name@) {
            if e.len() == 3 && e[0] == 'p' && e[1] == 'n' && e[2] == 'g' {
                assert(e =~= png());
            }
        }
    }
    if is_png {
        assert("png"@ =~= png());
        "png"
    } else {
        assert("jpg"@ =~= jpg());
        "jpg"
    }
}

/// The data URI of an image of type `kind` whose Base64 text is `base64`.
pub open spec fn spec_data_uri(kind: Seq<char>, base64: Seq<char>) -> Seq<char> {
    "data:image/"@ + kind + ";base64,"@ + base64
}

/// `data:image/{kind};base64,{base64}`.
pub fn data_uri(kind: &str, base64: &str) -> (r: String)
    ensures
        r@ == spec_data_uri(kind@, base64@),
{
    let mut r = "data:image/".to_owned();
    r.append(kind);
    r.append(";base64,");
    r.append(base64);
    r
}

/// The data URI of the avatar file `name` with contents `bytes`.
pub fn encode_avatar(name: &str, bytes: &Vec<u8>) -> (r: String)
    requires
        base64_len_fits(bytes@.len()),
    ensures
        r@ == spec_data_uri(spec_avatar_type(name@), base64_standard(bytes@)),
{
    let b64 = encode_base64(bytes.as_slice());
    data_uri(avatar_type(name), b64.as_str())
}

} // verus!
