//! Files the bot keeps: where downloaded attachments and rotated images go,
//! their names and extensions, and the limits on what is downloaded.

use vstd::prelude::*;
use crate::text::{has_char, text_eq};

verus! {

/// The largest attachment that is downloaded, in bytes.
pub const MAX_ATTACHMENT_BYTES: u64 = 50_000_000;
/// The largest image that is rotated, in bytes.
pub const MAX_IMAGE_BYTES: u64 = 50_000_000;

/// The index of the last `c` in `s`, if any.
pub open spec fn last_index_of(s: Seq<char>, c: char) -> Option<int> {
    if has_char(s, c) {
        Some(choose|i: int| 0 <= i < s.len() && s[i] == c && forall|j: int| i < j < s.len() ==> s[j] != c)
    } else {
        None
    }
}

/// The extension of a file name without `/`, as `Path::extension` has it: the
/// text after the last `.`, unless there is no `.`, the only `.` the name has
/// is its first character, or the name is `..`.
pub open spec fn file_extension(name: Seq<char>) -> Option<Seq<char>> {
    if name == ".."@ {
        None
    } else {
        match last_index_of(name, '.') {
            Some(i) => if i == 0 { None } else { Some(name.skip(i + 1)) },
            None => None,
        }
    }
}

/// What `Path::extension` gives for a path; for a name without `/`, this is
/// `file_extension`.
pub uninterp spec fn path_extension_of(path: Seq<char>) -> Option<Seq<char>>;

/// `Path::extension` of std on Unix (with `OsStr::to_str`, which cannot fail
/// on text that came from a `&str`). On Unix a path without `/` has the whole
/// path as its file name, so std's rule gives `file_extension`; for other
/// paths only the name `path_extension_of` is stated.
#[verifier::external_body]
fn path_extension(path: &str) -> (res: Option<String>)
    ensures
        res matches Some(e) ==> path_extension_of(path@) == Some(e@),
        res is None ==> path_extension_of(path@) is None,
        !has_char(path@, '/') ==> (match res {
            Some(e) => file_extension(path@) == Some(e@),
            None => file_extension(path@) is None,
        }),
{
    std::path::Path::new(path).extension().and_then(|ext| ext.to_str()).map(|ext| ext.to_string())
}

/// Whether `c` is an ASCII letter or digit.
pub open spec fn is_ascii_alphanumeric(c: char) -> bool {
    ('0' <= c && c <= '9') || ('A' <= c && c <= 'Z') || ('a' <= c && c <= 'z')
}

/// Whether an extension is kept for a saved attachment: one to eight ASCII
/// letters or digits.
pub open spec fn kept_extension(ext: Seq<char>) -> bool {
    1 <= ext.len() <= 8 && forall|i: int| 0 <= i < ext.len() ==> is_ascii_alphanumeric(#[trigger] ext[i])
}

/// The extension that a saved attachment keeps, with its dot, or nothing.
pub open spec fn saved_extension(ext: Option<Seq<char>>) -> Seq<char> {
    match ext {
        Some(e) => if kept_extension(e) { "."@ + e } else { Seq::empty() },
        None => Seq::empty(),
    }
}

/// A file named `stem.ext` (a non-empty stem, and an extension without a dot)
/// is saved with `.ext` exactly when the extension is one to eight ASCII
/// letters or digits (so `photo.jpeg` keeps `.jpeg`), and with no extension
/// otherwise.
pub proof fn lemma_saved_extension_of_name(stem: Seq<char>, ext: Seq<char>)
    requires
        stem.len() >= 1,
        ext.len() >= 1,
        !has_char(ext, '.'),
    ensures
        file_extension(stem + "."@ + ext) == Some(ext),
        saved_extension(file_extension(stem + "."@ + ext)) == if ext.len() <= 8 && forall|i: int|
            0 <= i < ext.len() ==> #[trigger] is_ascii_alphanumeric(ext[i]) {
            "."@ + ext
        } else {
            Seq::<char>::empty()
        },
{
    reveal_strlit(".");
    reveal_strlit("..");
    let name = stem + "."@ + ext;
    let k = stem.len() as int;
    assert(name[k] == '.');
    assert(has_char(name, '.'));
    assert(name != ".."@) by {
        assert(name.len() >= 3);
    }
    let c = choose|i: int| 0 <= i < name.len() && name[i] == '.' && forall|j: int| i < j < name.len() ==> name[j] != '.';
    assert forall|j: int| k < j < name.len() implies name[j] != '.' by {
        assert(name[j] == ext[j - k - 1]);
    }
    assert(c == k) by {
        if c < k {
            assert(name[k] != '.');
        } else if c > k {
            assert(name[c] == ext[c - k - 1]);
        }
    }
    assert(name.skip(k + 1) =~= ext);
}

fn is_kept_extension(ext: &str) -> (res: bool)
    ensures
        res == kept_extension(ext@),
{
    let n = ext.unicode_len();
    if n < 1 || n > 8 {
        return false;
    }
    let mut i: usize = 0;
    while i < n
        invariant
            n == ext@.len(),
            i <= n,
            forall|j: int| 0 <= j < i ==> is_ascii_alphanumeric(#[trigger] ext@[j]),
        decreases n - i,
    {
        let c = ext.get_char(i);
        if !(('0' <= c && c <= '9') || ('A' <= c && c <= 'Z') || ('a' <= c && c <= 'z')) {
            return false;
        }
        i = i + 1;
    }
    true
}

/// The extension, with its dot, that an attachment named `filename` is saved
/// with: the file name's extension when it is one to eight ASCII letters or
/// digits, or else none.
pub fn attachment_file_extension(filename: &str) -> (res: String)
    ensures
        res@ == saved_extension(path_extension_of(filename@)),
        !has_char(filename@, '/') ==> res@ == saved_extension(file_extension(filename@)),
{
    match path_extension(filename) {
        Some(ext) => {
            if is_kept_extension(ext.as_str()) {
                let mut res = String::from_str(".");
                res.append(ext.as_str());
                res
            } else {
                String::new()
            }
        },
        None => String::new(),
    }
}

/// `base` joined with `part` as `Path::join` does on Unix: a `part` that
/// starts with `/` replaces `base`; otherwise a `/` goes between them unless
/// `base` is empty or already ends with one.
pub open spec fn joined_path(base: Seq<char>, part: Seq<char>) -> Seq<char> {
    if part.len() > 0 && part[0] == '/' {
        part
    } else if base.len() == 0 || base.last() == '/' {
        base + part
    } else {
        base + "/"@ + part
    }
}

/// `base` joined with `part` by `Path::join`'s rule on Unix.
pub fn join_path(base: &str, part: &str) -> (res: String)
    ensures
        res@ == joined_path(base@, part@),
{
    let base_len = base.unicode_len();
    if part.unicode_len() > 0 && part.get_char(0) == '/' {
        return String::from_str(part);
    }
    let mut res = String::from_str(base);
    if base_len > 0 && base.get_char(base_len - 1) != '/' {
        res.append("/");
    }
    res.append(part);
    res
}

/// The file extension of an image of a content type: `jpg` for JPEG, `png`
/// for anything else.
pub open spec fn image_extension_of(content_type: Seq<char>) -> Seq<char> {
    if content_type == "image/jpeg"@ { "jpg"@ } else { "png"@ }
}

/// The file extension of an image of a content type.
pub fn image_extension(content_type: &str) -> (res: String)
    ensures
        res@ == image_extension_of(content_type@),
{
    if text_eq(content_type, "image/jpeg") {
        String::from_str("jpg")
    } else {
        String::from_str("png")
    }
}

/// The name of a downloaded image: the message id, a dot and the extension
/// of its content type.
pub fn generate_file_name(file_name: String, content_type: &str) -> (res: String)
    ensures
        res@ == file_name@ + "."@ + image_extension_of(content_type@),
{
    let mut res = file_name;
    res.append(".");
    let extension = image_extension(content_type);
    res.append(extension.as_str());
    res
}

/// What the image crate gives for an image file's bytes, read in the format
/// of a file extension, turned by 180 degrees and written back in that format;
/// `None` when the extension names no format or the bytes do not decode or
/// encode.
pub uninterp spec fn rotated_image(bytes: Seq<u8>, extension: Seq<char>) -> Option<Seq<u8>>;

/// The image crate's `ImageFormat::from_extension`, `load_from_memory_with_format`,
/// `DynamicImage::rotate180` and `write_to`, run one after the other; only the
/// name `rotated_image` is stated of the result.
#[verifier::external_body]
fn rotate_image_180(bytes: &[u8], extension: &str) -> (res: Option<Vec<u8>>)
    ensures
        res matches Some(out) ==> rotated_image(bytes@, extension@) == Some(out@),
        res is None ==> rotated_image(bytes@, extension@) is None,
{
    let format = image::ImageFormat::from_extension(extension)?;
    let decoded = image::load_from_memory_with_format(bytes, format).ok()?;
    let mut out = std::io::Cursor::new(Vec::new());
    decoded.rotate180().write_to(&mut out, format).ok()?;
    Some(out.into_inner())
}

/// A downloaded image of a content type turned upside down, in the same file
/// format as its saved name has (`None` when it cannot be read or written).
pub fn rotate_image(bytes: &[u8], content_type: &str) -> (res: Option<Vec<u8>>)
    ensures
        res matches Some(out) ==> rotated_image(bytes@, image_extension_of(content_type@)) == Some(out@),
        res is None ==> rotated_image(bytes@, image_extension_of(content_type@)) is None,
{
    let extension = image_extension(content_type);
    rotate_image_180(bytes, extension.as_str())
}

/// Whether the image folders are all there: the root, `original` and `rotated`.
pub fn check_folders(root_exists: bool, original_exists: bool, rotate_exists: bool) -> (res: bool)
    ensures
        res == (root_exists && original_exists && rotate_exists),
{
    let mut status = true;
    if !root_exists {
        status = false;
    }
    if !original_exists {
        status = false;
    }
    if !rotate_exists {
        status = false;
    }
    status
}

/// The folder that downloaded images are kept in.
pub fn original_folder() -> (res: String)
    ensures
        res@ == joined_path("data/discord_images"@, "original"@),
{
    join_path("data/discord_images", "original")
}

/// The folder that rotated images are kept in.
pub fn rotated_folder() -> (res: String)
    ensures
        res@ == joined_path("data/discord_images"@, "rotated"@),
{
    join_path("data/discord_images", "rotated")
}

/// Where the image of message `message_id` is saved as downloaded and as
/// rotated.
pub fn image_file_paths(message_id: String, content_type: &str) -> (res: (String, String))
    ensures
        ({
            let name = message_id@ + "."@ + image_extension_of(content_type@);
            &&& res.0@ == joined_path(joined_path("data/discord_images"@, "original"@), name)
            &&& res.1@ == joined_path(joined_path("data/discord_images"@, "rotated"@), name)
        }),
{
    let file_name = generate_file_name(message_id, content_type);
    let original = original_folder();
    let rotated = rotated_folder();
    (join_path(original.as_str(), file_name.as_str()), join_path(rotated.as_str(), file_name.as_str()))
}

/// Whether an attachment's content type is one the bot rotates: PNG or JPEG.
pub fn is_supported_image(content_type: Option<&str>) -> (res: bool)
    ensures
        res == (match content_type {
            Some(t) => t@ == "image/png"@ || t@ == "image/jpeg"@,
            None => false,
        }),
{
    match content_type {
        Some(t) => text_eq(t, "image/png") || text_eq(t, "image/jpeg"),
        None => false,
    }
}

/// Whether an image download of this announced length goes ahead: the
/// length must be announced and at most the limit.
pub fn picture_size_allowed(content_length: Option<u64>) -> (res: bool)
    ensures
        res == (match content_length {
            Some(len) => len <= MAX_IMAGE_BYTES,
            None => false,
        }),
{
    match content_length {
        Some(len) => len <= MAX_IMAGE_BYTES,
        None => false,
    }
}

/// Whether a size in bytes is over the limit for attachments.
pub fn exceeds_attachment_limit(size: u64) -> (res: bool)
    ensures
        res == (size > MAX_ATTACHMENT_BYTES),
{
    size > MAX_ATTACHMENT_BYTES
}

/// The address an attachment is downloaded from: its URL, or its proxy URL
/// when the URL is empty.
pub fn download_url(url: &str, proxy_url: &str) -> (res: String)
    ensures
        res@ == (if url@.len() == 0 { proxy_url@ } else { url@ }),
{
    if url.unicode_len() == 0 {
        String::from_str(proxy_url)
    } else {
        String::from_str(url)
    }
}

/// Where the attachments of message `message_id` go, and the file that
/// attachment `attachment_id` named `filename` is saved as.
pub fn attachment_paths(message_id: &str, attachment_id: &str, filename: &str) -> (res: (String, String))
    ensures
        res.0@ == joined_path("data/message_attachments"@, message_id@),
        res.1@ == joined_path(res.0@, attachment_id@ + saved_extension(path_extension_of(filename@))),
        !has_char(filename@, '/') ==> res.1@ == joined_path(res.0@, attachment_id@ + saved_extension(
            file_extension(filename@),
        )),
{
    let extension = attachment_file_extension(filename);
    let dir = join_path("data/message_attachments", message_id);
    let mut name = String::from_str(attachment_id);
    name.append(extension.as_str());
    let path = join_path(dir.as_str(), name.as_str());
    (dir, path)
}

} // verus!
