//! Stored images: the names they are stored under, and which stored file a
//! public address names.

use crate::ids::{fresh_id, is_lower_hex, is_uuid_text};
use crate::text::{chars_of, starts_with_at};
use vstd::prelude::*;
use vstd::string::StringExecFns;

verus! {

/// The path under which stored images are served: `/uploads/`.
pub open spec fn upload_prefix() -> Seq<char> {
    seq!['/', 'u', 'p', 'l', 'o', 'a', 'd', 's', '/']
}

/// Whether `name` holds two dots in a row.
pub open spec fn has_double_dot(name: Seq<char>) -> bool {
    exists|i: int| 0 <= i && i + 1 < name.len() && #[trigger] name[i] == '.' && name[i + 1] == '.'
}

/// Whether `name` can only name a file of the upload directory itself: it
/// holds no path separator and no step to a parent directory.
pub open spec fn is_plain_name(name: Seq<char>) -> bool {
    !has_double_dot(name) && !name.contains('/') && !name.contains('\\')
}

/// An address under the upload path whose file name could leave the upload
/// directory.
#[derive(Debug, Clone, Copy, PartialEq, Eq, Structural)]
pub struct InvalidFilename;

/// A decoded image of the `image` crate. Nothing here looks inside it.
#[verifier::external_type_specification]
#[verifier::external_body]
pub struct ExDynamicImage(image::DynamicImage);

/// The error of the `image` crate. Nothing here looks inside it.
#[verifier::external_type_specification]
#[verifier::external_body]
pub struct ExImageError(image::ImageError);

/// `image::load_from_memory`: guesses the format of `data` and decodes it.
/// Nothing is claimed of the outcome: besides the bytes it depends on the
/// formats and decoders that the process has registered with the crate.
#[verifier::external_body]
fn decode_image(data: &[u8]) -> (r: Result<image::DynamicImage, image::ImageError>) {
    image::load_from_memory(data)
}

/// The text that `image::ImageError` displays. Nothing is claimed of it.
#[verifier::external_body]
fn image_error_text(error: &image::ImageError) -> (text: String) {
    error.to_string()
}

/// Why an upload is turned down.
#[derive(Debug)]
pub enum UploadError {
    /// The request body could not be read as a form; with the reason.
    MalformedBody(String),
    /// The bytes of the image field could not be read; with the reason.
    UnreadableField(String),
    /// The bytes are no image in a known format; with the decoder's reason.
    InvalidImage(String),
    /// The image could not be written; with the reason.
    SaveFailed(String),
    /// The form holds no field named `image`.
    MissingImage,
}

impl UploadError {
    /// The HTTP status that answers the request: 400 where the request is at
    /// fault, 500 where the server is.
    pub open spec fn status_code(&self) -> u16 {
        match self {
            UploadError::MalformedBody(_) => 400,
            UploadError::UnreadableField(_) => 500,
            UploadError::InvalidImage(_) => 400,
            UploadError::SaveFailed(_) => 500,
            UploadError::MissingImage => 400,
        }
    }

    /// The text that answers the request.
    pub open spec fn message_text(&self) -> Seq<char> {
        match self {
            UploadError::MalformedBody(reason) => reason@,
            UploadError::UnreadableField(reason) => reason@,
            UploadError::InvalidImage(reason) => "Invalid image format: "@ + reason@,
            UploadError::SaveFailed(reason) => "Failed to save image: "@ + reason@,
            UploadError::MissingImage => "No image field found"@,
        }
    }

    /// The HTTP status that answers the request.
    pub fn status(&self) -> (code: u16)
        ensures
            code == self.status_code(),
    {
        match self {
            UploadError::MalformedBody(_) => 400,
            UploadError::UnreadableField(_) => 500,
            UploadError::InvalidImage(_) => 400,
            UploadError::SaveFailed(_) => 500,
            UploadError::MissingImage => 400,
        }
    }

    /// The text that answers the request.
    pub fn message(&self) -> (text: String)
        ensures
            text@ == self.message_text(),
    {
        match self {
            UploadError::MalformedBody(reason) => reason.clone(),
            UploadError::UnreadableField(reason) => reason.clone(),
            UploadError::InvalidImage(reason) => String::from_str("Invalid image format: ").concat(
                reason.as_str(),
            ),
            UploadError::SaveFailed(reason) => String::from_str("Failed to save image: ").concat(
                reason.as_str(),
            ),
            UploadError::MissingImage => String::from_str("No image field found"),
        }
    }
}

/// The answer to an upload: the address under which the image is served.
#[derive(Debug)]
pub struct UploadResponse {
    url: String,
}

impl UploadResponse {
    /// The address under which the image is served.
    pub closed spec fn address(&self) -> Seq<char> {
        self.url@
    }

    /// The address under which the image is served.
    pub fn url(&self) -> (url: &String)
        ensures
            url@ == self.address(),
    {
        &self.url
    }
}

/// An image that is ready to be stored.
pub struct StoredImage {
    /// The decoded image, free of the metadata that came with the bytes.
    pub image: image::DynamicImage,
    /// Where to write it, relative to the working directory.
    pub file_path: String,
    /// What to answer once it is written.
    pub response: UploadResponse,
}

/// The extension under which every image is stored: `.jpg`.
pub open spec fn stored_extension() -> Seq<char> {
    seq!['.', 'j', 'p', 'g']
}

/// The file name of the image with identifier `id`.
pub open spec fn stored_name(id: Seq<char>) -> Seq<char> {
    id + stored_extension()
}

/// The path of that file: the upload path without its leading separator,
/// then the file name.
pub open spec fn stored_path(id: Seq<char>) -> Seq<char> {
    upload_prefix().skip(1) + stored_name(id)
}

/// The address under which that file is served.
pub open spec fn stored_address(id: Seq<char>) -> Seq<char> {
    upload_prefix() + stored_name(id)
}

/// Whether a form field of this name holds the image.
pub fn is_image_field(name: &str) -> (b: bool)
    ensures
        b == (name@ == seq!['i', 'm', 'a', 'g', 'e']),
{
    let text = chars_of(name);
    let b = text.len() == 5 && text[0] == 'i' && text[1] == 'm' && text[2] == 'a' && text[3] == 'g'
        && text[4] == 'e';
    proof {
        if b {
            assert(name@ =~= seq!['i', 'm', 'a', 'g', 'e']);
        }
    }
    b
}

/// Names the image `id` and says what becomes of it, given what decoding its
/// bytes gave: the image, or the decoder's reason for giving none.
///
/// A decoded image is to be stored under `stored_path(id)` and answered with
/// `stored_address(id)`. A decoding error turns the upload down as an invalid
/// image, with the decoder's reason.
pub fn stored_image(id: &str, decoded: Result<image::DynamicImage, String>) -> (r: Result<
    StoredImage,
    UploadError,
>)
    ensures
        decoded is Ok ==> (r matches Ok(stored) && stored.image == decoded->Ok_0
            && stored.file_path@ == stored_path(id@) && stored.response.address()
            == stored_address(id@)),
        decoded is Err ==> (r matches Err(UploadError::InvalidImage(reason)) && reason
            == decoded->Err_0),
{
    match decoded {
        Err(reason) => Err(UploadError::InvalidImage(reason)),
        Ok(image) => {
            proof {
                reveal_strlit("uploads/");
                reveal_strlit("/uploads/");
                reveal_strlit(".jpg");
                assert("uploads/"@ =~= upload_prefix().skip(1));
                assert("/uploads/"@ =~= upload_prefix());
                assert(".jpg"@ =~= stored_extension());
            }
            let file_path = String::from_str("uploads/").concat(id).concat(".jpg");
            let url = String::from_str("/uploads/").concat(id).concat(".jpg");
            assert(file_path@ =~= stored_path(id@));
            assert(url@ =~= stored_address(id@));
            Ok(StoredImage { image, file_path, response: UploadResponse { url } })
        },
    }
}

/// Takes the bytes of an uploaded image: decodes them and names the image
/// with a fresh identifier.
///
/// The decoder decides whether the bytes are an image. Where they are, the
/// image is to be stored under the path and the address of some identifier;
/// where they are not, the upload is turned down as an invalid image, and in
/// no other way.
pub fn upload_image(data: &[u8]) -> (r: Result<StoredImage, UploadError>)
    ensures
        r matches Ok(stored) ==> exists|id: Seq<char>|
            is_uuid_text(id) && stored.file_path@ == #[trigger] stored_path(id)
                && stored.response.address() == stored_address(id),
        r matches Err(error) ==> error matches UploadError::InvalidImage(_),
{
    let id = fresh_id();
    let decoded = match decode_image(data) {
        Ok(image) => Ok(image),
        Err(error) => Err(image_error_text(&error)),
    };
    stored_image(id.as_str(), decoded)
}

/// Whether the part of `text` from `from` on is a plain name.
fn plain_from(text: &Vec<char>, from: usize) -> (b: bool)
    requires
        from <= text@.len(),
    ensures
        b == is_plain_name(text@.skip(from as int)),
{
    let n: usize = text.len();
    let ghost name = text@.skip(from as int);
    let mut i: usize = from;
    while i < n
        invariant
            from <= i <= n,
            n == text@.len(),
            name == text@.skip(from as int),
            forall|j: int| 0 <= j < i - from ==> name[j] != '/' && name[j] != '\\',
            forall|j: int|
                0 <= j < i - from && j + 1 < name.len() ==> !(#[trigger] name[j] == '.' && name[j
                    + 1] == '.'),
        decreases n - i,
    {
        let c = text[i];
        assert(name[i - from] == c);
        if c == '/' || c == '\\' {
            assert(name.contains(c));
            return false;
        }
        if c == '.' && i + 1 < n && text[i + 1] == '.' {
            assert(name[i - from + 1] == '.');
            assert(has_double_dot(name));
            return false;
        }
        i += 1;
    }
    true
}

/// Says which stored file the address `url` names.
///
/// An address outside the upload path names none: `Ok(None)`. One under it
/// names the file whose name follows the path, `Ok(Some(name))`, unless that
/// name holds a path separator or two dots in a row: such an address is
/// refused.
pub fn delete_image(url: &str) -> (r: Result<Option<String>, InvalidFilename>)
    ensures
        !upload_prefix().is_prefix_of(url@) ==> r matches Ok(None),
        upload_prefix().is_prefix_of(url@) && !is_plain_name(url@.skip(9)) ==> r is Err,
        upload_prefix().is_prefix_of(url@) && is_plain_name(url@.skip(9)) ==> (r matches Ok(
            Some(name),
        ) && name@ == url@.skip(9)),
{
    let text = chars_of(url);
    let prefix = chars_of("/uploads/");
    proof {
        reveal_strlit("/uploads/");
        assert(prefix@ =~= upload_prefix());
        assert(text@.skip(0) =~= text@);
    }
    if !starts_with_at(&text, 0, &prefix) {
        return Ok(None);
    }
    if !plain_from(&text, 9) {
        return Err(InvalidFilename);
    }
    let name = url.substring_char(9, text.len());
    Ok(Some(name.to_owned()))
}

/// The address that an upload answers with names the file that the upload
/// stored: `delete_image` refuses no such address, and finds the file name.
pub proof fn lemma_stored_address_names_stored_file(id: Seq<char>)
    requires
        is_uuid_text(id),
    ensures
        upload_prefix().is_prefix_of(stored_address(id)),
        stored_address(id).skip(9) == stored_name(id),
        is_plain_name(stored_name(id)),
{
    let name = stored_name(id);
    assert(stored_address(id).subrange(0, 9) =~= upload_prefix());
    assert(stored_address(id).skip(9) =~= name);
    assert(name.len() == 40);
    assert forall|i: int| 0 <= i < 40 implies #[trigger] name[i] != '/' && name[i] != '\\' && !(
    name[i] == '.' && i + 1 < 40 && name[i + 1] == '.') by {
        if i < 36 {
            assert(name[i] == id[i]);
            assert(id[i] == '-' || is_lower_hex(id[i]));
        } else if i == 36 {
            assert(name[i] == '.');
            assert(name[i + 1] == 'j');
        }
    }
    assert(!has_double_dot(name));
}

} // verus!
