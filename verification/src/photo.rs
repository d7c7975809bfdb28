//! Profile photos uploaded as `data:` URLs.
use crate::codecs::{b64std_decode, base64_std_decode};
use crate::error::{is_validation, validation, ApiError};
use crate::text::{
    contains_seq, contains_str, digits, matches_at, push_digits, str_eq, substring,
};
use vstd::prelude::*;
use vstd::string::*;

verus! {

/// Largest accepted photo, in bytes (5 MiB).
pub const MAX_PHOTO_BYTES: usize = 5242880;

/// Request carrying a photo as a `data:<mime>;base64,<payload>` URL.
#[derive(Debug)]
pub struct PhotoUploadRequest {
    pub data_url: String,
}

/// Where the uploaded photo is served.
#[derive(Debug)]
pub struct PhotoUploadResponse {
    pub photo_url: String,
}

/// Position of the first `c` in `s`, or the length of `s` when absent.
pub open spec fn first_pos(s: Seq<char>, c: char) -> int
    decreases s.len(),
{
    if s.len() == 0 {
        0
    } else if s[0] == c {
        0
    } else {
        1 + first_pos(s.drop_first(), c)
    }
}

pub fn first_char_pos(s: &str, c: char) -> (r: usize)
    ensures
        r == first_pos(s@, c),
        r <= s@.len(),
{
    let n = s.unicode_len();
    let mut i: usize = 0;
    assert(s@.subrange(0, n as int) =~= s@);
    while i < n
        invariant
            n == s@.len(),
            i <= n,
            first_pos(s@, c) == i + first_pos(s@.subrange(i as int, n as int), c),
        decreases n - i,
    {
        if s.get_char(i) == c {
            assert(s@.subrange(i as int, n as int)[0] == c);
            return i;
        }
        proof {
            let t = s@.subrange(i as int, n as int);
            assert(t.drop_first() =~= s@.subrange(i + 1, n as int));
        }
        i = i + 1;
    }
    assert(s@.subrange(n as int, n as int).len() == 0);
    n
}

/// The MIME type and base64 payload of a `data:` URL, or why it is refused.
pub open spec fn data_url_parts(s: Seq<char>) -> Result<(Seq<char>, Seq<char>), Seq<char>> {
    if !(s.len() >= 5 && s.subrange(0, 5) == "data:"@) {
        Err("must start with 'data:'"@)
    } else {
        let rest = s.subrange(5, s.len() as int);
        let comma = first_pos(rest, ',');
        if comma == rest.len() {
            Err("missing payload separator"@)
        } else {
            let meta = rest.subrange(0, comma);
            let payload = rest.subrange(comma + 1, rest.len() as int);
            let semi = first_pos(meta, ';');
            if semi == meta.len() {
                Err("missing ;base64 declaration"@)
            } else if !contains_seq(meta.subrange(semi + 1, meta.len() as int), "base64"@) {
                Err("only base64-encoded payloads supported"@)
            } else {
                Ok((meta.subrange(0, semi), payload))
            }
        }
    }
}

/// Splits `data:<mime>;base64,<payload>` into MIME type and payload.
pub fn parse_data_url(s: &str) -> (r: Result<(String, String), ApiError>)
    ensures
        match data_url_parts(s@) {
            Ok((mime, payload)) => r matches Ok((m, p)) && m@ == mime && p@ == payload,
            Err(reason) => r matches Err(e) && is_validation(e, "data_url"@, reason),
        },
{
    proof {
        reveal_strlit("data:");
    }
    let n = s.unicode_len();
    if n < 5 || !matches_at(s, "data:", 0) {
        return Err(validation("data_url", "must start with 'data:'"));
    }
    let rest = substring(s, 5, n);
    let comma = first_char_pos(rest.as_str(), ',');
    let rn = rest.as_str().unicode_len();
    if comma == rn {
        return Err(validation("data_url", "missing payload separator"));
    }
    let meta = substring(rest.as_str(), 0, comma);
    let payload = substring(rest.as_str(), comma + 1, rn);
    let semi = first_char_pos(meta.as_str(), ';');
    let mn = meta.as_str().unicode_len();
    if semi == mn {
        return Err(validation("data_url", "missing ;base64 declaration"));
    }
    let params = substring(meta.as_str(), semi + 1, mn);
    if !contains_str(params.as_str(), "base64") {
        return Err(validation("data_url", "only base64-encoded payloads supported"));
    }
    let mime = substring(meta.as_str(), 0, semi);
    Ok((mime, payload))
}

/// File extension of the accepted image types.
pub open spec fn photo_ext(mime: Seq<char>) -> Option<Seq<char>> {
    if mime == "image/jpeg"@ {
        Some("jpg"@)
    } else if mime == "image/png"@ {
        Some("png"@)
    } else if mime == "image/webp"@ {
        Some("webp"@)
    } else if mime == "image/gif"@ {
        Some("gif"@)
    } else {
        None
    }
}

/// The file extension for an image MIME type.
pub fn mime_extension(mime: &str) -> (r: Result<&'static str, ApiError>)
    ensures
        match photo_ext(mime@) {
            Some(ext) => r matches Ok(x) && x@ == ext,
            None => r matches Err(e) && is_validation(
                e,
                "data_url"@,
                "unsupported mime type: "@ + mime@,
            ),
        },
{
    if str_eq(mime, "image/jpeg") {
        Ok("jpg")
    } else if str_eq(mime, "image/png") {
        Ok("png")
    } else if str_eq(mime, "image/webp") {
        Ok("webp")
    } else if str_eq(mime, "image/gif") {
        Ok("gif")
    } else {
        let mut reason = String::from_str("unsupported mime type: ");
        reason.append(mime);
        Err(ApiError::Validation { field: String::from_str("data_url"), reason })
    }
}

/// A decoded photo and the extension of its file.
#[derive(Debug)]
pub struct Photo {
    pub ext: &'static str,
    pub bytes: Vec<u8>,
}

/// Reads an uploaded photo: a `data:` URL of a JPEG, PNG, WebP or GIF image
/// whose base64 payload decodes to at most 5 MiB.
pub fn decode_photo(data_url: &str) -> (r: Result<Photo, ApiError>)
    ensures
        match data_url_parts(data_url@) {
            Err(reason) => r matches Err(e) && is_validation(e, "data_url"@, reason),
            Ok((mime, payload)) => match photo_ext(mime) {
                None => r matches Err(e) && is_validation(
                    e,
                    "data_url"@,
                    "unsupported mime type: "@ + mime,
                ),
                Some(ext) => match b64std_decode(payload) {
                    Err(m) => r matches Err(e) && is_validation(
                        e,
                        "data_url"@,
                        "invalid base64: "@ + m,
                    ),
                    Ok(bytes) => if bytes.len() > MAX_PHOTO_BYTES {
                        r matches Err(e) && is_validation(
                            e,
                            "data_url"@,
                            "payload too large ("@ + digits(bytes.len()) + " bytes; max 5242880)"@,
                        )
                    } else {
                        r matches Ok(p) && p.ext@ == ext && p.bytes@ == bytes
                    },
                },
            },
        },
{
    let (mime, payload) = parse_data_url(data_url)?;
    let ext = match mime_extension(mime.as_str()) {
        Ok(x) => x,
        Err(e) => {
            return Err(e);
        },
    };
    let bytes = match base64_std_decode(payload.as_str()) {
        Ok(b) => b,
        Err(m) => {
            let mut reason = String::from_str("invalid base64: ");
            reason.append(m.as_str());
            return Err(ApiError::Validation { field: String::from_str("data_url"), reason });
        },
    };
    if bytes.len() > MAX_PHOTO_BYTES {
        let mut reason = String::from_str("payload too large (");
        push_digits(&mut reason, bytes.len() as u128);
        reason.append(" bytes; max 5242880)");
        return Err(ApiError::Validation { field: String::from_str("data_url"), reason });
    }
    Ok(Photo { ext, bytes })
}

/// The stored file name of a user's photo: `<user>.<ext>`, so that a new
/// upload replaces the previous one of the same type.
pub fn photo_file_name(user_id: &str, ext: &str) -> (r: String)
    ensures
        r@ == user_id@ + "."@ + ext@,
{
    let mut s = String::from_str(user_id);
    s.append(".");
    s.append(ext);
    s
}

/// The URL under which a photo file is served.
pub fn photo_url(file_name: &str) -> (r: String)
    ensures
        r@ == "/uploads/u/"@ + file_name@,
{
    let mut s = String::from_str("/uploads/u/");
    s.append(file_name);
    s
}

} // verus!
