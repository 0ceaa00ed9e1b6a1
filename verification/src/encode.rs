//! Turning clipboard content into upload payloads: PNG encoding of raw pixels,
//! content sniffing, and the extension of a file path.

use vstd::prelude::*;
use vstd::string::StringExecFns;
use crate::snapshot::{text_model, ImageModel, RawImage};

verus! {

/// Why an image could not be encoded.
#[derive(Debug, Clone, Copy, PartialEq, Eq, Structural)]
pub enum EncodeError {
    /// The pixel buffer does not hold `width * height * 4` bytes.
    BufferSize,
    /// A dimension does not fit the 32 bits that a PNG header gives it.
    Dimensions,
    /// The PNG encoder refused the image.
    Rejected,
}

/// The error of the `png` crate's encoder, carried as an opaque value.
#[verifier::external_type_specification]
#[verifier::external_body]
pub struct ExPngEncodeError(png::EncodingError);

/// The PNG file that the `png` crate's encoder, at its default settings,
/// writes for an 8-bit RGBA image; `None` where it reports an error.
pub uninterp spec fn png_rgba8(width: u32, height: u32, pixels: Seq<u8>) -> Option<Seq<u8>>;

/// The first eight bytes identify a PNG file.
pub open spec fn has_png_signature(file: Seq<u8>) -> bool {
    &&& file.len() >= 8
    &&& file[0] == 137
    &&& file[1] == 80
    &&& file[2] == 78
    &&& file[3] == 71
    &&& file[4] == 13
    &&& file[5] == 10
    &&& file[6] == 26
    &&& file[7] == 10
}

/// Runs `png::Encoder` on an 8-bit RGBA image: `Encoder::new`, `set_color`,
/// `write_header`, then `Writer::write_image_data`, collecting the output in
/// memory. The encoder keeps no state between calls and reads nothing but its
/// arguments, so its outcome is what [`png_rgba8`] names: the file on
/// success, `None` when either step returns an error. It is handed buffers of
/// the right length only, which keeps its row arithmetic within `usize`. For
/// such a buffer the encoder refuses exactly a width or a height of zero, and
/// the first thing it writes is the eight bytes of the PNG signature.
#[verifier::external_body]
fn encode_rgba8(width: u32, height: u32, pixels: &[u8]) -> (r: Result<Vec<u8>, png::EncodingError>)
    requires
        pixels@.len() == width * height * 4,
    ensures
        match r {
            Ok(file) => png_rgba8(width, height, pixels@) == Some(file@),
            Err(_) => png_rgba8(width, height, pixels@) is None,
        },
        r matches Ok(file) ==> has_png_signature(file@),
        r is Ok <==> (width > 0 && height > 0),
{
    let mut cursor = std::io::Cursor::new(Vec::new());
    {
        let mut encoder = png::Encoder::new(&mut cursor, width, height);
        encoder.set_color(png::ColorType::Rgba);
        let mut writer = encoder.write_header()?;
        writer.write_image_data(pixels)?;
    }
    Ok(cursor.into_inner())
}

impl ImageModel {
    /// Both dimensions fit a PNG header.
    pub open spec fn fits_png(self) -> bool {
        self.width <= u32::MAX && self.height <= u32::MAX
    }

    /// The image can be encoded: its buffer has the right length and both
    /// dimensions are at least one and fit a PNG header.
    pub open spec fn encodable(self) -> bool {
        self.consistent() && self.fits_png() && self.width > 0 && self.height > 0
    }

    /// What encoding this image gives.
    pub open spec fn encoded(self) -> Result<Seq<u8>, EncodeError> {
        if !self.consistent() {
            Err(EncodeError::BufferSize)
        } else if !self.fits_png() {
            Err(EncodeError::Dimensions)
        } else {
            match png_rgba8(self.width as u32, self.height as u32, self.pixels) {
                Some(file) => Ok(file),
                None => Err(EncodeError::Rejected),
            }
        }
    }
}

/// Whether `len` equals `width * height * 4`, computed without overflow.
pub fn buffer_matches(width: usize, height: usize, len: usize) -> (r: bool)
    ensures
        r == (len == width * height * 4),
{
    match width.checked_mul(height) {
        Some(pixels) => match pixels.checked_mul(4) {
            Some(expected) => expected == len,
            None => false,
        },
        None => {
            assert(width * height * 4 > usize::MAX) by (nonlinear_arith)
                requires
                    width * height > usize::MAX,
            ;
            false
        },
    }
}

/// Serialises raw RGBA pixels as a PNG file.
///
/// Fails with `BufferSize` when the buffer length disagrees with the
/// dimensions, with `Dimensions` when a dimension exceeds 32 bits, and with
/// `Rejected` when the encoder refuses the image, which it does exactly when
/// a dimension is zero. Every other image is encoded, and the file starts
/// with the PNG signature.
pub fn image_to_png_bytes(image: &RawImage) -> (r: Result<Vec<u8>, EncodeError>)
    ensures
        match r {
            Ok(file) => image@.encoded() == Ok::<Seq<u8>, EncodeError>(file@)
                && has_png_signature(file@),
            Err(e) => image@.encoded() == Err::<Seq<u8>, EncodeError>(e),
        },
        r is Ok <==> image@.encodable(),
        r == Err::<Vec<u8>, EncodeError>(EncodeError::Rejected) <==> image@.consistent()
            && image@.fits_png() && (image@.width == 0 || image@.height == 0),
{
    if !buffer_matches(image.width, image.height, image.bytes.len()) {
        return Err(EncodeError::BufferSize);
    }
    if image.width > u32::MAX as usize || image.height > u32::MAX as usize {
        return Err(EncodeError::Dimensions);
    }
    match encode_rgba8(image.width as u32, image.height as u32, image.bytes.as_slice()) {
        Ok(file) => Ok(file),
        Err(_) => Err(EncodeError::Rejected),
    }
}

/// The first four bytes are those by which a PNG file is recognised.
pub open spec fn starts_like_png(bytes: Seq<u8>) -> bool {
    bytes.len() > 3 && bytes[0] == 0x89 && bytes[1] == 0x50 && bytes[2] == 0x4E && bytes[3] == 0x47
}

/// Bytes 60 to 67 spell `BOOKMOBI`, by which a Mobipocket book is recognised.
pub open spec fn spells_bookmobi(bytes: Seq<u8>) -> bool {
    &&& bytes.len() > 67
    &&& bytes[60] == 0x42
    &&& bytes[61] == 0x4F
    &&& bytes[62] == 0x4F
    &&& bytes[63] == 0x4B
    &&& bytes[64] == 0x4D
    &&& bytes[65] == 0x4F
    &&& bytes[66] == 0x42
    &&& bytes[67] == 0x49
}

/// The extension that content which starts like a PNG file is sniffed as:
/// `png`, unless it also carries the mark of a Mobipocket book, which is
/// looked for first.
pub open spec fn png_sniffed_as(bytes: Seq<u8>) -> Seq<char> {
    if spells_bookmobi(bytes) {
        seq!['m', 'o', 'b', 'i']
    } else {
        seq!['p', 'n', 'g']
    }
}

/// Calls `infer::get`, which tries the entries of its fixed table of magic
/// numbers in order and returns the first that matches, and `Type::extension`
/// on what it found. It is called on content that starts like a PNG file
/// only: of the entries before `png`, each of which tests bytes at fixed
/// places, such content can match `mobi` alone, and `png` matches it, so an
/// entry is always found and no later one is tried.
#[verifier::external_body]
pub(crate) fn sniff(bytes: &[u8]) -> (r: Option<String>)
    requires
        starts_like_png(bytes@),
    ensures
        text_model(r) == Some(png_sniffed_as(bytes@)),
{
    match infer::get(bytes) {
        Some(kind) => Some(kind.extension().to_string()),
        None => None,
    }
}

/// `ext` holds no dot and stands in `path` directly behind a dot that is not
/// the first character.
pub open spec fn follows_dot(path: Seq<char>, ext: Seq<char>) -> bool {
    &&& forall|k: int| 0 <= k < ext.len() ==> ext[k] != '.'
    &&& exists|i: int|
        0 < i < path.len() && #[trigger] path[i] == '.' && i + 1 + ext.len() <= path.len()
            && path.subrange(i + 1, i + 1 + ext.len()) == ext
}

/// A path that every platform splits alike: `/` separates its components,
/// and it holds no backslash, no colon and no doubled slash at its start,
/// which elsewhere separate components or open the path with a prefix.
pub open spec fn is_portable(path: Seq<char>) -> bool {
    &&& forall|i: int| 0 <= i < path.len() ==> path[i] != '\\' && path[i] != ':'
    &&& !(path.len() >= 2 && path[0] == '/' && path[1] == '/')
}

/// `path` without what trails its final component: separators, and the
/// components `.` that a separator precedes.
pub open spec fn without_trailing(path: Seq<char>) -> Seq<char>
    decreases path.len(),
{
    if path.len() > 0 && path.last() == '/' {
        without_trailing(path.drop_last())
    } else if path.len() >= 2 && path.last() == '.' && path[path.len() - 2] == '/' {
        without_trailing(path.drop_last())
    } else {
        path
    }
}

/// The characters behind the last `/` of `path`; all of it where it holds none.
pub open spec fn last_segment(path: Seq<char>) -> Seq<char>
    decreases path.len(),
{
    if path.len() == 0 || path.last() == '/' {
        Seq::empty()
    } else {
        last_segment(path.drop_last()).push(path.last())
    }
}

/// The place of the last dot of `name`; -1 where it holds none.
pub open spec fn last_dot(name: Seq<char>) -> int
    decreases name.len(),
{
    if name.len() == 0 {
        -1
    } else if name.last() == '.' {
        name.len() - 1
    } else {
        last_dot(name.drop_last())
    }
}

/// The extension of a final component: what stands behind its last dot,
/// unless the component is `..`, holds no dot, or holds none but a leading
/// one.
pub open spec fn name_extension(name: Seq<char>) -> Option<Seq<char>> {
    if name == seq!['.', '.'] || last_dot(name) < 1 {
        None
    } else {
        Some(name.subrange(last_dot(name) + 1, name.len() as int))
    }
}

/// The extension of a portable path: that of its final component.
pub open spec fn portable_extension(path: Seq<char>) -> Option<Seq<char>> {
    name_extension(last_segment(without_trailing(path)))
}

/// Calls `std::path::Path::extension`. How a path splits into components
/// depends on the platform, so the result gets no name. The documentation
/// gives the extension as the part of the final component behind its last
/// dot, and none where there is no such component or it has no dot or only a
/// leading one: so an extension holds no dot and stands in the path behind a
/// dot that does not open it. The final component is what is left once
/// trailing separators and `.` components are set aside, and there is none
/// where the path ends in `..`; for a path that every platform splits alike
/// this gives the extension exactly.
#[verifier::external_body]
fn path_extension(path: &str) -> (r: Option<String>)
    ensures
        r matches Some(ext) ==> follows_dot(path@, ext@),
        is_portable(path@) ==> text_model(r) == portable_extension(path@),
{
    let ext = std::path::Path::new(path).extension()?;
    Some(ext.to_str()?.to_string())
}

/// The extension under which a file without one is uploaded.
pub open spec fn default_extension() -> Seq<char> {
    seq!['t', 'x', 't']
}

/// The extension found, or the default where none was.
pub fn extension_or_default(found: Option<String>) -> (ext: String)
    ensures
        ext@ == match found {
            Some(e) => e@,
            None => default_extension(),
        },
{
    match found {
        Some(e) => e,
        None => {
            proof {
                reveal_strlit("txt");
            }
            assert("txt"@ =~= default_extension());
            String::from_str("txt")
        },
    }
}

/// The extension that a portable path is uploaded under: that of its final
/// component, or the default where it has none.
pub open spec fn portable_upload_extension(path: Seq<char>) -> Seq<char> {
    match portable_extension(path) {
        Some(ext) => ext,
        None => default_extension(),
    }
}

/// `ext` is an extension that the file at `path` may be uploaded under: the
/// default or one that its name carries behind a dot, and for a portable path
/// the one that its final component determines.
pub open spec fn extension_for(path: Seq<char>, ext: Seq<char>) -> bool {
    &&& ext == default_extension() || follows_dot(path, ext)
    &&& is_portable(path) ==> ext == portable_upload_extension(path)
}

/// The extension under which the file at `path` is uploaded: the one its name
/// carries, or `txt`.
pub fn file_extension(path: &str) -> (ext: String)
    ensures
        extension_for(path@, ext@),
        (forall|i: int| 0 < i < path@.len() ==> path@[i] != '.') ==> ext@ == default_extension(),
{
    extension_or_default(path_extension(path))
}

} // verus!
