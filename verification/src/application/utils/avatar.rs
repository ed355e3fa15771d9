//! Avatar pictures: any image format that decodes, re-encoded as PNG, at
//! most 512 pixels on a side.
use vstd::prelude::*;
use crate::application::dto::apperror::{AppError, Fault};
use crate::text::join;

verus! {

/// The width and height of the picture that `image::load_from_memory`
/// decodes from the bytes (it guesses the format); `None` when they do not
/// decode.
pub uninterp spec fn decoded_size(bytes: Seq<u8>) -> Option<(u32, u32)>;

/// What `DynamicImage::write_to` gives in PNG for the picture decoded from
/// the bytes: the encoded bytes, or the error's message.
pub uninterp spec fn png_of(bytes: Seq<u8>) -> Result<Seq<u8>, Seq<char>>;

/// What `DynamicImage::write_to` gives in PNG for the picture decoded from
/// the bytes once `DynamicImage::thumbnail` has scaled it to fit the box.
pub uninterp spec fn thumbnail_png_of(bytes: Seq<u8>, width: u32, height: u32) -> Result<Seq<u8>, Seq<char>>;

/// `image::load_from_memory`, then the decoded picture's `width` and
/// `height`.
#[verifier::external_body]
fn image_size(bytes: &[u8]) -> (r: Option<(u32, u32)>)
    ensures
        r == decoded_size(bytes@),
{
    image::load_from_memory(bytes).ok().map(|img| (img.width(), img.height()))
}

/// `image::load_from_memory`, then `DynamicImage::write_to` a buffer in PNG;
/// the error's message on failure.
#[verifier::external_body]
fn encode_png(bytes: &[u8]) -> (r: Result<Vec<u8>, String>)
    ensures
        match r {
            Ok(v) => png_of(bytes@) == Ok::<Seq<u8>, Seq<char>>(v@),
            Err(m) => png_of(bytes@) == Err::<Seq<u8>, Seq<char>>(m@),
        },
{
    let img = image::load_from_memory(bytes).map_err(|e| e.to_string())?;
    let mut cursor = std::io::Cursor::new(Vec::new());
    img.write_to(&mut cursor, image::ImageFormat::Png).map_err(|e| e.to_string())?;
    Ok(cursor.into_inner())
}

/// `image::load_from_memory`, then `DynamicImage::thumbnail` (the picture
/// scaled to fit the box, keeping its proportions), then
/// `DynamicImage::write_to` a buffer in PNG; the error's message on failure.
#[verifier::external_body]
fn encode_png_thumbnail(bytes: &[u8], width: u32, height: u32) -> (r: Result<Vec<u8>, String>)
    ensures
        match r {
            Ok(v) => thumbnail_png_of(bytes@, width, height) == Ok::<Seq<u8>, Seq<char>>(v@),
            Err(m) => thumbnail_png_of(bytes@, width, height) == Err::<Seq<u8>, Seq<char>>(m@),
        },
{
    let img = image::load_from_memory(bytes).map_err(|e| e.to_string())?;
    let mut cursor = std::io::Cursor::new(Vec::new());
    img.thumbnail(width, height).write_to(&mut cursor, image::ImageFormat::Png).map_err(|e| e.to_string())?;
    Ok(cursor.into_inner())
}

/// The largest avatar upload, in bytes (5 MiB).
pub open spec fn max_upload() -> int {
    5242880
}

/// The PNG of a decoded picture: as it is when it fits 512 by 512, scaled
/// down to fit otherwise.
pub open spec fn avatar_png(bytes: Seq<u8>, size: (u32, u32)) -> Result<Seq<u8>, Seq<char>> {
    if size.0 > 512 || size.1 > 512 {
        thumbnail_png_of(bytes, 512, 512)
    } else {
        png_of(bytes)
    }
}

/// The answer to an upload: between 1 byte and 5 MiB, a picture that
/// decodes, then its PNG (scaled to fit 512 by 512 when larger); a failure
/// of the PNG encoder is an internal error.
pub open spec fn avatar_verdict(bytes: Seq<u8>) -> Result<Seq<u8>, Fault> {
    if bytes.len() == 0 || bytes.len() > max_upload() {
        Err(Fault::BadRequest("Image size invalid (max 5MB)"@))
    } else {
        match decoded_size(bytes) {
            None => Err(Fault::BadRequest("Invalid image format"@)),
            Some(size) => match avatar_png(bytes, size) {
                Ok(png) => Ok(png),
                Err(m) => Err(Fault::InternalServerError("Failed to convert image to PNG: "@ + m)),
            },
        }
    }
}

/// The PNG to store for an uploaded picture.
pub fn prepare_avatar(bytes: &[u8]) -> (r: Result<Vec<u8>, AppError>)
    ensures
        match r {
            Ok(v) => avatar_verdict(bytes@) == Ok::<Seq<u8>, Fault>(v@),
            Err(e) => avatar_verdict(bytes@) == Err::<Seq<u8>, Fault>(e@),
        },
{
    if bytes.len() == 0 || bytes.len() > 5 * 1024 * 1024 {
        return Err(AppError::BadRequest("Image size invalid (max 5MB)".to_owned()));
    }
    let (width, height) = match image_size(bytes) {
        Some(size) => size,
        None => {
            return Err(AppError::BadRequest("Invalid image format".to_owned()));
        },
    };
    let png = if width > 512 || height > 512 {
        encode_png_thumbnail(bytes, 512, 512)
    } else {
        encode_png(bytes)
    };
    match png {
        Ok(v) => Ok(v),
        Err(m) => Err(AppError::InternalServerError(join("Failed to convert image to PNG: ", m.as_str()))),
    }
}

/// The lowercase hexadecimal digit of a value below 16.
pub open spec fn hex_digit(n: int) -> char {
    if n < 10 {
        (48 + n) as char
    } else {
        (87 + n) as char
    }
}

/// The last `count` hexadecimal digits of `x`, most significant first.
pub open spec fn hex_digits(x: int, count: nat) -> Seq<char>
    decreases count,
{
    if count == 0 {
        Seq::empty()
    } else {
        hex_digits(x / 16, (count - 1) as nat).push(hex_digit(x % 16))
    }
}

/// The text of a UUID: the 32 lowercase hexadecimal digits of its value, most
/// significant first, in groups of 8, 4, 4, 4 and 12 joined by hyphens.
pub open spec fn uuid_text(x: u128) -> Seq<char> {
    let h = hex_digits(x as int, 32);
    h.subrange(0, 8) + "-"@ + h.subrange(8, 12) + "-"@ + h.subrange(12, 16) + "-"@ + h.subrange(16, 20) + "-"@
        + h.subrange(20, 32)
}

/// `uuid::Uuid::from_u128(x).to_string()`: the value's 16 bytes, most
/// significant first, printed as lowercase hexadecimal in the hyphenated form.
#[verifier::external_body]
pub(crate) fn uuid_string(x: u128) -> (r: String)
    ensures
        r@ == uuid_text(x),
{
    uuid::Uuid::from_u128(x).to_string()
}

/// The file name of an avatar: "avatar_" and the UUID, then ".png".
pub open spec fn avatar_file(x: u128) -> Seq<char> {
    "avatar_"@ + uuid_text(x) + ".png"@
}

/// Where an avatar is stored and the URL it is served at.
#[derive(Debug)]
pub struct AvatarPlace {
    pub file_path: String,
    pub url: String,
}

/// The place of the avatar named by `x`: the file under "./uploads/avatars/"
/// and the URL under "/uploads/avatars/".
pub fn avatar_place_for(x: u128) -> (r: AvatarPlace)
    ensures
        r.file_path@ == "./uploads/avatars/"@ + avatar_file(x),
        r.url@ == "/uploads/avatars/"@ + avatar_file(x),
{
    let id = uuid_string(x);
    let name = join(join("avatar_", id.as_str()).as_str(), ".png");
    let file_path = join("./uploads/avatars/", name.as_str());
    let url = join("/uploads/avatars/", name.as_str());
    proof {
        assert("avatar_"@ + uuid_text(x) + ".png"@ =~= avatar_file(x));
    }
    AvatarPlace { file_path, url }
}

/// The place of a new avatar, under a fresh random name.
pub fn new_avatar_place() -> (r: AvatarPlace)
    ensures
        exists|x: u128| r.file_path@ == "./uploads/avatars/"@ + avatar_file(x) && r.url@ == "/uploads/avatars/"@ + avatar_file(x),
{
    avatar_place_for(crate::application::utils::ids::fresh_id())
}

} // verus!
