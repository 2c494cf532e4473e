//! Discord: the headers its client sends, the body of an avatar change,
//! and what its answer means.

use vstd::prelude::*;
use crate::codecs::{base64_len_fits, base64_standard};
use crate::data_uri::{encode_avatar, spec_avatar_type, spec_data_uri};
use crate::errors::ChangeAvatarError;
use crate::image::Image;

verus! {

/// Whether a header value may hold `c`: a tab, or any character from the
/// space on but DEL (every byte of a non-ASCII character is at least 128).
pub open spec fn header_char_ok(c: char) -> bool {
    c == '\t' || (32 <= (c as int) && (c as int) != 127)
}

pub open spec fn spec_valid_header_value(s: Seq<char>) -> bool {
    forall|i: int| 0 <= i < s.len() ==> header_char_ok(#[trigger] s[i])
}

/// `http::HeaderValue::from_str` (http 0.2): its source accepts the string
/// exactly when each of its bytes is a tab, or at least 32 and not 127.
#[verifier::external_body]
fn header_value_ok(s: &str) -> (r: bool)
    ensures
        r == spec_valid_header_value(s@),
{
    http::HeaderValue::from_str(s).is_ok()
}

/// The header values of the Discord client, each checked to be a valid
/// header value.
pub struct DiscordHeaders {
    pub authorization: String,
    pub super_properties: String,
    pub user_agent: String,
    pub cookie: String,
}

/// The header values of the client in the order it sets them, or, for the
/// first that is not a valid header value, the message the client fails
/// with.
pub fn discord_headers(
    token: String,
    super_properties_header: String,
    cookie: String,
    user_agent: String,
) -> (r: Result<DiscordHeaders, String>)
    ensures
        !spec_valid_header_value(token@) ==> (r matches Err(m) && m@
            == "Invalid Authorization header"@),
        spec_valid_header_value(token@) && !spec_valid_header_value(super_properties_header@)
            ==> (r matches Err(m) && m@ == "Invalid X-Super-Properties header"@),
        spec_valid_header_value(token@) && spec_valid_header_value(super_properties_header@)
            && !spec_valid_header_value(user_agent@) ==> (r matches Err(m) && m@
            == "Invalid User-Agent header"@),
        spec_valid_header_value(token@) && spec_valid_header_value(super_properties_header@)
            && spec_valid_header_value(user_agent@) && !spec_valid_header_value(cookie@)
            ==> (r matches Err(m) && m@ == "Invalid Cookie header"@),
        r is Ok <==> (spec_valid_header_value(token@) && spec_valid_header_value(
            super_properties_header@,
        ) && spec_valid_header_value(user_agent@) && spec_valid_header_value(cookie@)),
        r matches Ok(h) ==> {
            &&& h.authorization@ == token@
            &&& h.super_properties@ == super_properties_header@
            &&& h.user_agent@ == user_agent@
            &&& h.cookie@ == cookie@
        },
{
    if !header_value_ok(token.as_str()) {
        return Err("Invalid Authorization header".to_owned());
    }
    if !header_value_ok(super_properties_header.as_str()) {
        return Err("Invalid X-Super-Properties header".to_owned());
    }
    if !header_value_ok(user_agent.as_str()) {
        return Err("Invalid User-Agent header".to_owned());
    }
    if !header_value_ok(cookie.as_str()) {
        return Err("Invalid Cookie header".to_owned());
    }
    Ok(
        DiscordHeaders {
            authorization: token,
            super_properties: super_properties_header,
            user_agent,
            cookie,
        },
    )
}

/// The body of the request that changes the avatar: `{"avatar": ...}`.
pub struct AvatarChangeRequest {
    avatar: String,
}

impl AvatarChangeRequest {
    pub closed spec fn spec_avatar(&self) -> Seq<char> {
        self.avatar@
    }

    pub fn new(avatar: String) -> (r: Self)
        ensures
            r.spec_avatar() == avatar@,
    {
        AvatarChangeRequest { avatar }
    }

    pub fn avatar(&self) -> (r: &str)
        ensures
            r@ == self.spec_avatar(),
    {
        self.avatar.as_str()
    }
}

/// The request that changes the avatar to `image`: its data URI.
pub fn avatar_change_request(image: &Image) -> (r: AvatarChangeRequest)
    requires
        base64_len_fits(image.bytes@.len()),
    ensures
        r.spec_avatar() == spec_data_uri(
            spec_avatar_type(image.name@),
            base64_standard(image.bytes@),
        ),
{
    AvatarChangeRequest::new(encode_avatar(image.name.as_str(), &image.bytes))
}

/// What Discord's answer to an avatar change means: success on status 200
/// (OK), otherwise the refusal with the text of the answer.
pub fn avatar_change_result(status: u16, body: String) -> (r: Result<(), ChangeAvatarError>)
    ensures
        r is Ok <==> status == 200,
        r matches Err(e) ==> e@ == body@,
{
    if status == 200 {
        Ok(())
    } else {
        Err(ChangeAvatarError::new(body))
    }
}

} // verus!
