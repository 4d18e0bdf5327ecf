use vstd::prelude::*;
use vstd::string::*;

use crate::error::AppError;
use crate::text::{joined, text_equals};

verus! {

/// The largest image accepted, in bytes (10MB).
pub const MAX_IMAGE_BYTES: usize = 10 * 1024 * 1024;

/// The directory that images are stored under.
pub const DEFAULT_STORAGE_DIR: &'static str = "./uploads";

/// The prefix of the API path that serves a stored image.
pub const IMAGE_URL_PREFIX: &'static str = "/api/images/";

pub const EMPTY_IMAGE_MESSAGE: &'static str = "Empty image data";

pub const IMAGE_TOO_LARGE_MESSAGE: &'static str = "Image too large (max 10MB)";

pub const UNSUPPORTED_FORMAT_MESSAGE: &'static str =
    "Unsupported image format. Supported formats: JPEG, PNG, WebP";

pub const IMAGE_NOT_FOUND_MESSAGE: &'static str = "Image not found";

/// The content types accepted for upload.
pub open spec fn supported_content_type(ct: Seq<char>) -> bool {
    ct == "image/jpeg"@ || ct == "image/jpg"@ || ct == "image/png"@ || ct == "image/webp"@
}

/// Whether an image of `len` bytes and content type `ct` may be stored.
pub open spec fn image_accepted(len: nat, ct: Seq<char>) -> bool {
    0 < len && len <= MAX_IMAGE_BYTES && supported_content_type(ct)
}

/// The file extension, dot included, under which an image of type `ct` is stored.
pub open spec fn extension_for(ct: Seq<char>) -> Seq<char> {
    if ct == "image/jpeg"@ || ct == "image/jpg"@ {
        ".jpg"@
    } else if ct == "image/png"@ {
        ".png"@
    } else if ct == "image/webp"@ {
        ".webp"@
    } else {
        ".bin"@
    }
}

/// The content type served for a file with extension `ext` (no dot).
pub open spec fn content_type_for(ext: Option<Seq<char>>) -> Seq<char> {
    match ext {
        Some(e) => if e == "jpg"@ || e == "jpeg"@ {
            "image/jpeg"@
        } else if e == "png"@ {
            "image/png"@
        } else if e == "webp"@ {
            "image/webp"@
        } else {
            "application/octet-stream"@
        },
        None => "application/octet-stream"@,
    }
}

/// The single name of each supported content type ("image/jpg" is "image/jpeg").
pub open spec fn canonical_content_type(ct: Seq<char>) -> Seq<char> {
    if ct == "image/jpg"@ {
        "image/jpeg"@
    } else {
        ct
    }
}

pub open spec fn is_lower_hex_digit(c: char) -> bool {
    ('0' <= c && c <= '9') || ('a' <= c && c <= 'f')
}

/// The 36-character lower-case hyphenated form of a UUID.
pub open spec fn is_hyphenated_id(s: Seq<char>) -> bool {
    &&& s.len() == 36
    &&& forall|i: int|
        0 <= i < 36 ==> if i == 8 || i == 13 || i == 18 || i == 23 {
            s[i] == '-'
        } else {
            is_lower_hex_digit(#[trigger] s[i])
        }
}

/// `s` is a single path component, not "..", whose last '.' stands at `i > 0`.
pub open spec fn plain_name_with_last_dot(s: Seq<char>, i: int) -> bool {
    &&& 0 < i < s.len()
    &&& s[i] == '.'
    &&& forall|j: int| 0 <= j < s.len() ==> #[trigger] s[j] != '/'
    &&& forall|j: int| i < j < s.len() ==> #[trigger] s[j] != '.'
    &&& s != seq!['.', '.']
}

/// The extension that `std::path::Path::extension` finds in `path`.
pub uninterp spec fn path_extension_of(path: Seq<char>) -> Option<Seq<char>>;

pub open spec fn option_view(o: Option<String>) -> Option<Seq<char>> {
    match o {
        Some(s) => Some(s@),
        None => None,
    }
}

/// Relies on std::path::Path::extension (and OsStr::to_str, which cannot fail on
/// text that came from a str): as documented, the part of the file name after
/// its last '.', none when the name holds no '.' or only a leading one.
#[verifier::external_body]
fn path_extension(path: &str) -> (r: Option<String>)
    ensures
        option_view(r) == path_extension_of(path@),
        (forall|j: int| 0 <= j < path@.len() ==> path@[j] != '.') ==> r is None,
        forall|i: int|
            plain_name_with_last_dot(path@, i) ==> option_view(r) == Some(
                path@.subrange(i + 1, path@.len() as int),
            ),
{
    std::path::Path::new(path).extension().and_then(|e| e.to_str()).map(|e| e.to_string())
}

/// Relies on uuid::Uuid::new_v4 (a random version-4 id; it panics only when the
/// system offers no randomness) and on Uuid's Display, which writes the
/// lower-case hyphenated form.
#[verifier::external_body]
fn new_file_id() -> (r: String)
    ensures
        is_hyphenated_id(r@),
{
    uuid::Uuid::new_v4().to_string()
}

/// A name that an upload of type `ct` is stored under (a hyphenated id, then
/// the type's extension) is a plain file name whose last '.' opens its
/// extension, and that extension gives back the type the image was uploaded
/// with (in its single spelling).
pub proof fn lemma_stored_name_keeps_content_type(name: Seq<char>, ct: Seq<char>)
    requires
        supported_content_type(ct),
        name.len() == 36 + extension_for(ct).len(),
        is_hyphenated_id(name.subrange(0, 36)),
        name.subrange(36, name.len() as int) == extension_for(ct),
    ensures
        plain_name_with_last_dot(name, 36),
        content_type_for(Some(name.subrange(37, name.len() as int))) == canonical_content_type(
            ct,
        ),
{
    reveal_strlit("image/jpeg");
    reveal_strlit("image/jpg");
    reveal_strlit("image/png");
    reveal_strlit("image/webp");
    reveal_strlit(".jpg");
    reveal_strlit(".png");
    reveal_strlit(".webp");
    reveal_strlit("jpg");
    reveal_strlit("jpeg");
    reveal_strlit("png");
    reveal_strlit("webp");
    let ext = extension_for(ct);
    let id = name.subrange(0, 36);
    let n = name;
    assert(n =~= id + ext);
    assert forall|j: int| 0 <= j < n.len() implies #[trigger] n[j] != '/' by {
        if j < 36 {
            assert(n[j] == id[j]);
        }
    }
    assert forall|j: int| 36 < j < n.len() implies #[trigger] n[j] != '.' by {
        assert(n[j] == ext[j - 36]);
    }
    assert(n[36] == '.');
    assert(n[0] == id[0]);
    let tail = n.subrange(37, n.len() as int);
    assert(tail =~= ext.subrange(1, ext.len() as int));
    assert("image/png"@[6] != "image/jpg"@[6]);
    assert("image/png"@.len() != "image/jpeg"@.len());
    assert("image/webp"@[6] != "image/jpeg"@[6]);
    assert("image/webp"@.len() != "image/jpg"@.len());
    assert("png"@[0] != "jpg"@[0]);
    assert("png"@.len() != "jpeg"@.len());
    assert("webp"@[0] != "jpeg"@[0]);
    assert("webp"@.len() != "jpg"@.len());
    assert("webp"@.len() != "png"@.len());
    if ct == "image/png"@ {
        assert(tail =~= "png"@);
    } else if ct == "image/webp"@ {
        assert(tail =~= "webp"@);
    } else {
        assert(tail =~= "jpg"@);
    }
}

/// Where a validated upload is to be written.
pub struct UploadTarget {
    /// The name the image is stored and served under.
    pub storage_filename: String,
    /// The path of the file, under the storage directory.
    pub storage_path: String,
}

/// Stores images as files in one local directory.
#[derive(Clone)]
pub struct StorageService {
    pub storage_path: String,
}

impl StorageService {
    /// A service over the default directory; the caller creates the directory.
    pub fn new() -> (s: StorageService)
        ensures
            s.storage_path@ == DEFAULT_STORAGE_DIR@,
    {
        StorageService { storage_path: String::from_str(DEFAULT_STORAGE_DIR) }
    }

    /// A service over the directory `storage_path`.
    pub fn with_path(storage_path: String) -> (s: StorageService)
        ensures
            s.storage_path@ == storage_path@,
    {
        StorageService { storage_path }
    }

    pub open spec fn path_of(&self, name: Seq<char>) -> Seq<char> {
        self.storage_path@ + "/"@ + name
    }

    /// The path of the stored file `storage_filename`.
    pub fn file_path(&self, storage_filename: &str) -> (p: String)
        ensures
            p@ == self.path_of(storage_filename@),
    {
        let dir = joined(self.storage_path.as_str(), "/");
        let p = joined(dir.as_str(), storage_filename);
        proof { reveal_strlit("/"); }
        p
    }

    /// Accepts an upload of `data` with `content_type` and picks where it is
    /// stored: a fresh random id followed by the type's extension.
    pub fn upload_image(&self, data: &[u8], content_type: &str) -> (r: Result<UploadTarget, AppError>)
        ensures
            r is Ok <==> image_accepted(data@.len(), content_type@),
            r is Err ==> Self::rejection(r->Err_0, data@.len(), content_type@),
            r matches Ok(t) ==> {
                let n = t.storage_filename@;
                &&& n.len() == 36 + extension_for(content_type@).len()
                &&& is_hyphenated_id(n.subrange(0, 36))
                &&& n.subrange(36, n.len() as int) == extension_for(content_type@)
                &&& t.storage_path@ == self.path_of(n)
            },
    {
        let file_id = new_file_id();
        let extension = self.get_file_extension(content_type);
        let storage_filename = joined(file_id.as_str(), extension);
        let storage_path = self.file_path(storage_filename.as_str());
        match self.validate_image(data, content_type) {
            Err(e) => Err(e),
            Ok(()) => {
                assert(storage_filename@.subrange(0, 36) == file_id@);
                assert(storage_filename@.subrange(36, storage_filename@.len() as int) == extension@);
                Ok(UploadTarget { storage_filename, storage_path })
            },
        }
    }

    /// The error with which an image of `len` bytes and type `ct` is refused.
    pub open spec fn rejection(e: AppError, len: nat, ct: Seq<char>) -> bool {
        &&& e is BadRequest
        &&& len == 0 ==> e.message_view() == EMPTY_IMAGE_MESSAGE@
        &&& len > MAX_IMAGE_BYTES ==> e.message_view() == IMAGE_TOO_LARGE_MESSAGE@
        &&& (0 < len <= MAX_IMAGE_BYTES && !supported_content_type(ct)) ==> e.message_view()
            == UNSUPPORTED_FORMAT_MESSAGE@
    }

    /// Checks that an image is non-empty, at most 10MB and of a supported type.
    pub fn validate_image(&self, data: &[u8], content_type: &str) -> (r: Result<(), AppError>)
        ensures
            r is Ok <==> image_accepted(data@.len(), content_type@),
            r is Err ==> Self::rejection(r->Err_0, data@.len(), content_type@),
    {
        if data.len() == 0 {
            return Err(AppError::bad_request(EMPTY_IMAGE_MESSAGE));
        }
        if data.len() > MAX_IMAGE_BYTES {
            return Err(AppError::bad_request(IMAGE_TOO_LARGE_MESSAGE));
        }
        if is_supported_content_type(content_type) {
            Ok(())
        } else {
            Err(AppError::bad_request(UNSUPPORTED_FORMAT_MESSAGE))
        }
    }

    /// The extension, dot included, for a content type; ".bin" when unknown.
    pub fn get_file_extension(&self, content_type: &str) -> (r: &'static str)
        ensures
            r@ == extension_for(content_type@),
    {
        proof {
            reveal_strlit("image/jpeg");
            reveal_strlit("image/jpg");
            reveal_strlit("image/png");
            reveal_strlit("image/webp");
        }
        if text_equals(content_type, "image/jpeg") || text_equals(content_type, "image/jpg") {
            ".jpg"
        } else if text_equals(content_type, "image/png") {
            ".png"
        } else if text_equals(content_type, "image/webp") {
            ".webp"
        } else {
            ".bin"
        }
    }

    /// The content type of a stored file, from its extension.
    pub fn get_content_type_from_filename(&self, filename: &str) -> (r: String)
        ensures
            r@ == content_type_for(path_extension_of(filename@)),
            forall|i: int|
                plain_name_with_last_dot(filename@, i) ==> r@ == content_type_for(
                    Some(filename@.subrange(i + 1, filename@.len() as int)),
                ),
    {
        let ext = path_extension(filename);
        match ext {
            Some(e) => content_type_for_extension(Some(e.as_str())),
            None => content_type_for_extension(None),
        }
    }

    /// The API path under which a stored image is served.
    pub fn get_image_url(&self, storage_filename: &str) -> (r: String)
        ensures
            r@ == IMAGE_URL_PREFIX@ + storage_filename@,
    {
        joined(IMAGE_URL_PREFIX, storage_filename)
    }
}

/// Whether `content_type` is one that uploads accept.
pub fn is_supported_content_type(content_type: &str) -> (r: bool)
    ensures
        r == supported_content_type(content_type@),
{
    text_equals(content_type, "image/jpeg") || text_equals(content_type, "image/jpg")
        || text_equals(content_type, "image/png") || text_equals(content_type, "image/webp")
}

/// The content type served for a file extension (without its dot).
pub fn content_type_for_extension(ext: Option<&str>) -> (r: String)
    ensures
        r@ == content_type_for(
            match ext {
                Some(e) => Some(e@),
                None => None,
            },
        ),
{
    match ext {
        Some(e) => if text_equals(e, "jpg") || text_equals(e, "jpeg") {
            String::from_str("image/jpeg")
        } else if text_equals(e, "png") {
            String::from_str("image/png")
        } else if text_equals(e, "webp") {
            String::from_str("image/webp")
        } else {
            String::from_str("application/octet-stream")
        },
        None => String::from_str("application/octet-stream"),
    }
}

} // verus!
