//! Which container a file is, told by its extension alone.
//!
//! No byte of the file is read for it. A file that is named for another
//! format than it holds is classified by its name.

use crate::error::{ErrorKind, MetadataError};
use crate::text::{ascii_lowercase, ascii_lowered, str_eq};
use vstd::prelude::*;
use vstd::utf8::is_ascii_chars;

verus! {

/// The supported containers.
#[derive(Debug, PartialEq)]
pub enum ContainerType {
    /// MP4, the ISO base media file format.
    Mp4,
    /// Matroska.
    Mkv,
    /// An image that may carry an EXIF block; the text is the file's extension
    /// in lower case.
    Exif(String),
}

/// A container type with its extension as plain text.
pub enum ContainerKind {
    Mp4,
    Mkv,
    Exif(Seq<char>),
}

impl View for ContainerType {
    type V = ContainerKind;

    open spec fn view(&self) -> ContainerKind {
        match *self {
            ContainerType::Mp4 => ContainerKind::Mp4,
            ContainerType::Mkv => ContainerKind::Mkv,
            ContainerType::Exif(extension) => ContainerKind::Exif(extension@),
        }
    }
}

/// The extensions, in lower case, of the images that may carry an EXIF block.
pub open spec fn is_image_extension(extension: Seq<char>) -> bool {
    ||| extension == "jpg"@
    ||| extension == "jpeg"@
    ||| extension == "tiff"@
    ||| extension == "tif"@
    ||| extension == "webp"@
    ||| extension == "heif"@
    ||| extension == "heic"@
    ||| extension == "dng"@
    ||| extension == "cr2"@
    ||| extension == "cr3"@
    ||| extension == "nef"@
    ||| extension == "arw"@
    ||| extension == "raf"@
    ||| extension == "rw2"@
    ||| extension == "orf"@
}

/// Whether a lower-case extension names a supported container.
pub open spec fn is_supported_extension(extension: Seq<char>) -> bool {
    extension == "mp4"@ || extension == "mkv"@ || is_image_extension(extension)
}

/// The container that a lower-case extension names, or the failure for one
/// that names none.
pub open spec fn classified(lowered: Seq<char>) -> Result<ContainerKind, ErrorKind> {
    if lowered == "mp4"@ {
        Ok(ContainerKind::Mp4)
    } else if lowered == "mkv"@ {
        Ok(ContainerKind::Mkv)
    } else if is_image_extension(lowered) {
        Ok(ContainerKind::Exif(lowered))
    } else {
        Err(ErrorKind::UnsupportedContainerType(lowered))
    }
}

/// An outcome of classification with its texts as plain text.
pub open spec fn classification(outcome: Result<ContainerType, MetadataError>) -> Result<
    ContainerKind,
    ErrorKind,
> {
    match outcome {
        Ok(container) => Ok(container@),
        Err(failure) => Err(failure@),
    }
}

/// `text` in lower case, as `str::to_lowercase` of the standard library gives it.
pub uninterp spec fn lowercase_of(text: Seq<char>) -> Seq<char>;

/// An extension in lower case. One of ASCII characters alone is lower-cased
/// letter by letter; any other is lower-cased by the rules of Unicode, which
/// the standard library knows.
pub open spec fn lowered_extension(extension: Seq<char>) -> Seq<char> {
    if is_ascii_chars(extension) {
        ascii_lowered(extension)
    } else {
        lowercase_of(extension)
    }
}

/// Calls `str::to_lowercase`, which lower-cases by the rules of Unicode.
///
/// Nothing is proved of it. The contract claims only that the outcome depends
/// on the text alone.
#[verifier::external_body]
fn to_lowercase(text: &str) -> (lowered: String)
    ensures
        lowered@ == lowercase_of(text@),
{
    text.to_lowercase()
}

/// The extension of `file_path` read as a path, as `std::path::Path::extension`
/// gives it: the part of the path's file name after its last dot; `None` for a
/// path without a file name, and for a file name without a dot or with none
/// but the one it begins with. What the file name of a path is follows the
/// platform that the library is built for.
pub uninterp spec fn extension_of(file_path: Seq<char>) -> Option<Seq<char>>;

/// The extension by which a path is classified: that of the path, and the
/// empty text for a path without one.
pub open spec fn deciding_extension(file_path: Seq<char>) -> Seq<char> {
    match extension_of(file_path) {
        Some(extension) => extension,
        None => Seq::empty(),
    }
}

/// Calls `std::path::Path::extension` on `file_path` read as a path.
///
/// Nothing is proved of it. The contract claims only that the outcome depends
/// on the text of the path alone.
#[verifier::external_body]
fn path_extension(file_path: &str) -> (extension: Option<&str>)
    ensures
        match extension {
            Some(found) => extension_of(file_path@) == Some(found@),
            None => extension_of(file_path@) is None,
        },
{
    std::path::Path::new(file_path).extension()?.to_str()
}

/// Whether `extension` is one of the image extensions.
fn names_image(extension: &str) -> (image: bool)
    ensures
        image == is_image_extension(extension@),
{
    str_eq(extension, "jpg") || str_eq(extension, "jpeg") || str_eq(extension, "tiff") || str_eq(
        extension,
        "tif",
    ) || str_eq(extension, "webp") || str_eq(extension, "heif") || str_eq(extension, "heic")
        || str_eq(extension, "dng") || str_eq(extension, "cr2") || str_eq(extension, "cr3")
        || str_eq(extension, "nef") || str_eq(extension, "arw") || str_eq(extension, "raf")
        || str_eq(extension, "rw2") || str_eq(extension, "orf")
}

/// Classifies an extension that is in lower case already.
pub fn classify_lowered(lowered: String) -> (outcome: Result<ContainerType, MetadataError>)
    ensures
        classification(outcome) == classified(lowered@),
{
    if str_eq(lowered.as_str(), "mp4") {
        Ok(ContainerType::Mp4)
    } else if str_eq(lowered.as_str(), "mkv") {
        Ok(ContainerType::Mkv)
    } else if names_image(lowered.as_str()) {
        Ok(ContainerType::Exif(lowered))
    } else {
        Err(MetadataError::UnsupportedContainerType(lowered))
    }
}

/// Classifies an extension, whatever its case.
pub fn container_type_of_extension(extension: &str) -> (outcome: Result<
    ContainerType,
    MetadataError,
>)
    ensures
        classification(outcome) == classified(lowered_extension(extension@)),
{
    let lowered = if extension.is_ascii() {
        ascii_lowercase(extension)
    } else {
        to_lowercase(extension)
    };
    classify_lowered(lowered)
}

/// Classifies a file by the extension of its path. A path without an
/// extension is classified as the empty extension is, which names nothing.
pub fn get_container_type(file_path: &str) -> (outcome: Result<ContainerType, MetadataError>)
    ensures
        classification(outcome) == classified(lowered_extension(deciding_extension(file_path@))),
{
    let extension = match path_extension(file_path) {
        Some(extension) => extension,
        None => {
            proof {
                reveal_strlit("");
            }
            assert(""@ =~= Seq::<char>::empty());
            ""
        },
    };
    container_type_of_extension(extension)
}

/// Classification goes by the lower-case extension alone: `mp4` and `mkv` name
/// their containers, each image extension names the EXIF container and is kept
/// with it, and every other extension is refused and reported.
pub proof fn classification_by_extension(lowered: Seq<char>)
    ensures
        classified(lowered) is Ok <==> is_supported_extension(lowered),
        is_image_extension(lowered) ==> classified(lowered) == Ok::<ContainerKind, ErrorKind>(
            ContainerKind::Exif(lowered),
        ),
        !is_supported_extension(lowered) ==> classified(lowered) == Err::<
            ContainerKind,
            ErrorKind,
        >(ErrorKind::UnsupportedContainerType(lowered)),
{
    reveal_strlit("mp4");
    reveal_strlit("mkv");
    reveal_strlit("jpg");
    reveal_strlit("jpeg");
    reveal_strlit("tiff");
    reveal_strlit("tif");
    reveal_strlit("webp");
    reveal_strlit("heif");
    reveal_strlit("heic");
    reveal_strlit("dng");
    reveal_strlit("cr2");
    reveal_strlit("cr3");
    reveal_strlit("nef");
    reveal_strlit("arw");
    reveal_strlit("raf");
    reveal_strlit("rw2");
    reveal_strlit("orf");
    if is_image_extension(lowered) {
        assert(lowered != "mp4"@) by {
            if lowered == "mp4"@ {
                assert(lowered[2] == '4');
            }
        }
        assert(lowered != "mkv"@) by {
            if lowered == "mkv"@ {
                assert(lowered[0] == 'm');
            }
        }
    }
}

/// A path without an extension names no container.
pub proof fn no_extension_is_refused(file_path: Seq<char>)
    requires
        extension_of(file_path) is None,
    ensures
        classified(lowered_extension(deciding_extension(file_path))) == Err::<
            ContainerKind,
            ErrorKind,
        >(ErrorKind::UnsupportedContainerType(Seq::empty())),
{
    let nothing = Seq::<char>::empty();
    assert(ascii_lowered(nothing) =~= nothing);
    classification_by_extension(nothing);
    reveal_strlit("mp4");
    reveal_strlit("mkv");
    reveal_strlit("jpg");
    reveal_strlit("jpeg");
    reveal_strlit("tiff");
    reveal_strlit("tif");
    reveal_strlit("webp");
    reveal_strlit("heif");
    reveal_strlit("heic");
    reveal_strlit("dng");
    reveal_strlit("cr2");
    reveal_strlit("cr3");
    reveal_strlit("nef");
    reveal_strlit("arw");
    reveal_strlit("raf");
    reveal_strlit("rw2");
    reveal_strlit("orf");
}

/// Case does not matter: extensions of ASCII characters that are the same but
/// for the case of their letters are classified alike, and an image extension
/// in any case names the EXIF container and is kept with it in lower case.
pub proof fn classification_ignores_case(one: Seq<char>, other: Seq<char>)
    requires
        is_ascii_chars(one),
        is_ascii_chars(other),
        ascii_lowered(one) == ascii_lowered(other),
    ensures
        classified(lowered_extension(one)) == classified(lowered_extension(other)),
        is_image_extension(ascii_lowered(one)) ==> classified(lowered_extension(one)) == Ok::<
            ContainerKind,
            ErrorKind,
        >(ContainerKind::Exif(ascii_lowered(one))),
        !is_supported_extension(ascii_lowered(one)) ==> classified(lowered_extension(one)) is Err,
{
    classification_by_extension(ascii_lowered(one));
}

} // verus!
