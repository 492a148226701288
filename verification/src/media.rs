//! Media upload: the media type a file is sent as, and the upload answer.

use vstd::prelude::*;
use vstd::string::StringExecFns;

use crate::paths::{extension_of, path_extension};
use crate::text::{push_char, str_eq};
use crate::transport::TransportError;
use crate::wecom_error::WecomError;

verus! {

broadcast use vstd::string::to_string_from_display_ensures_for_str;

/// The media type of anything that is no image, voice or video.
pub const MEDIA_TYPE_FILE: &'static str = "file";

/// ASCII upper-case letters mapped to lower case; every other character kept.
pub open spec fn ascii_lower(c: char) -> char {
    if 'A' <= c && c <= 'Z' {
        ((c as u32) + 32) as char
    } else {
        c
    }
}

pub open spec fn ascii_lower_text(s: Seq<char>) -> Seq<char> {
    s.map_values(|c: char| ascii_lower(c))
}

/// The media type for an extension, letters compared without case.
pub open spec fn media_type_of(ext: Option<Seq<char>>) -> Seq<char> {
    match ext {
        None => "file"@,
        Some(e) => {
            let l = ascii_lower_text(e);
            if l == "bmp"@ || l == "gif"@ || l == "jpg"@ || l == "jpeg"@ || l == "png"@ {
                "image"@
            } else if l == "amr"@ {
                "voice"@
            } else if l == "mp4"@ {
                "video"@
            } else {
                "file"@
            }
        },
    }
}

pub(crate) fn ascii_lower_char(c: char) -> (r: char)
    ensures
        r == ascii_lower(c),
{
    if 'A' <= c && c <= 'Z' {
        let code: u32 = c as u32;
        let b: u8 = code as u8;
        assert(b == code) by (bit_vector)
            requires
                65 <= code <= 90,
                b == code as u8,
        ;
        (b + 32) as char
    } else {
        c
    }
}

/// The media type `file_path` is uploaded as: `image` for bmp / gif / jpg /
/// jpeg / png, `voice` for amr, `video` for mp4 (extensions in any case),
/// `file` otherwise.
pub fn infer_media_type(file_path: &str) -> (r: &'static str)
    ensures
        r@ == media_type_of(extension_of(file_path@)),
        extension_of(file_path@) is None ==> r@ == "file"@,
        extension_of(file_path@) matches Some(e) ==> {
            let l = ascii_lower_text(e);
            &&& (l == "bmp"@ || l == "gif"@ || l == "jpg"@ || l == "jpeg"@ || l == "png"@) ==> r@
                == "image"@
            &&& l == "amr"@ ==> r@ == "voice"@
            &&& l == "mp4"@ ==> r@ == "video"@
            &&& !(l == "bmp"@ || l == "gif"@ || l == "jpg"@ || l == "jpeg"@ || l == "png"@ || l
                == "amr"@ || l == "mp4"@) ==> r@ == "file"@
        },
{
    proof {
        match extension_of(file_path@) {
            Some(e) => law_media_types(e),
            None => {},
        }
        reveal_strlit("bmp");
        reveal_strlit("gif");
        reveal_strlit("jpg");
        reveal_strlit("jpeg");
        reveal_strlit("png");
        reveal_strlit("amr");
        reveal_strlit("mp4");
        reveal_strlit("file");
        reveal_strlit("image");
        reveal_strlit("voice");
        reveal_strlit("video");
    }
    let ext = match path_extension(file_path) {
        None => {
            return MEDIA_TYPE_FILE;
        },
        Some(e) => e,
    };
    let mut lower = String::new();
    let mut i: usize = 0;
    while i < ext.len()
        invariant
            i <= ext.len(),
            lower@ == ascii_lower_text(ext@.subrange(0, i as int)),
        decreases ext.len() - i,
    {
        let c = ascii_lower_char(ext[i]);
        push_char(&mut lower, c);
        assert(ascii_lower_text(ext@.subrange(0, i as int + 1)) =~= ascii_lower_text(
            ext@.subrange(0, i as int),
        ).push(c));
        i = i + 1;
    }
    assert(ext@.subrange(0, ext.len() as int) =~= ext@);
    let l = lower.as_str();
    if str_eq(l, "bmp") || str_eq(l, "gif") || str_eq(l, "jpg") || str_eq(l, "jpeg") || str_eq(
        l,
        "png",
    ) {
        "image"
    } else if str_eq(l, "amr") {
        "voice"
    } else if str_eq(l, "mp4") {
        "video"
    } else {
        MEDIA_TYPE_FILE
    }
}

/// The answer to an upload: the media id, and the other fields (each with
/// its value as JSON text), in the order they came.
#[derive(Debug, Clone)]
pub struct UploadMediaResponse {
    pub media_id: String,
    pub extra: Vec<(String, String)>,
}

pub open spec fn upload_parse_text(detail: Seq<char>) -> Seq<char> {
    "Failed to deserialize 'upload_media' response: "@ + detail
}

/// The error of an upload answer that does not have the expected shape
/// (`detail` says why; `body` is the answer as JSON text).
pub fn upload_media_parse_error(detail: &str, body: String) -> (e: WecomError)
    ensures
        e matches WecomError::Transport(TransportError::Parse { message, endpoint, body: b })
            && message@ == upload_parse_text(detail@) && endpoint@ == "utils://upload_media"@
            && b == body,
{
    let mut message = "Failed to deserialize 'upload_media' response: ".to_string();
    message.append(detail);
    WecomError::Transport(
        TransportError::Parse { message, endpoint: "utils://upload_media".to_string(), body },
    )
}

/// Law (media types): an extension of bmp, gif, jpg, jpeg or png, in any
/// ASCII case, is sent as `image`; amr as `voice`; mp4 as `video`; any other
/// extension, or none, as `file`.
pub proof fn law_media_types(e: Seq<char>)
    ensures
        (ascii_lower_text(e) == "bmp"@ || ascii_lower_text(e) == "gif"@ || ascii_lower_text(e) == "jpg"@
            || ascii_lower_text(e) == "jpeg"@ || ascii_lower_text(e) == "png"@) ==> media_type_of(Some(e))
            == "image"@,
        ascii_lower_text(e) == "amr"@ ==> media_type_of(Some(e)) == "voice"@,
        ascii_lower_text(e) == "mp4"@ ==> media_type_of(Some(e)) == "video"@,
        !(ascii_lower_text(e) == "bmp"@ || ascii_lower_text(e) == "gif"@ || ascii_lower_text(e) == "jpg"@
            || ascii_lower_text(e) == "jpeg"@ || ascii_lower_text(e) == "png"@ || ascii_lower_text(e)
            == "amr"@ || ascii_lower_text(e) == "mp4"@) ==> media_type_of(Some(e)) == "file"@,
        media_type_of(None) == "file"@,
{
    reveal_strlit("bmp");
    reveal_strlit("gif");
    reveal_strlit("jpg");
    reveal_strlit("jpeg");
    reveal_strlit("png");
    reveal_strlit("amr");
    reveal_strlit("mp4");
    reveal_strlit("file");
    reveal_strlit("image");
    reveal_strlit("voice");
    reveal_strlit("video");
    let l = ascii_lower_text(e);
    if l == "amr"@ || l == "mp4"@ {
        assert(l[0] != "bmp"@[0] && l[0] != "gif"@[0] && l[0] != "jpg"@[0] && l[0] != "jpeg"@[0]
            && l[0] != "png"@[0]);
    }
    if l == "mp4"@ {
        assert(l[0] != "amr"@[0]);
    }
}

} // verus!
