//! Classification of a clipboard snapshot.
//!
//! The order is fixed: image, then URL, then file path, then plain text, and
//! `Empty` for whatever is left.

use vstd::prelude::*;
use crate::snapshot::{ClassModel, ClipboardSnapshot, ContentClass, SnapshotModel};

verus! {

/// The error of `url::Url::parse`, carried as an opaque value.
#[verifier::external_type_specification]
#[verifier::external_body]
pub struct ExUrlParseError(url::ParseError);

/// What `url::Url::parse` makes of `text`: `None` where it reports an error,
/// otherwise whether the URL it returns has a host.
pub uninterp spec fn parsed_url_has_host(text: Seq<char>) -> Option<bool>;

/// Calls `url::Url::parse` and, on the URL it returns, `Url::has_host`. The
/// parser takes no base here, so it accepts only text that starts with a
/// scheme. Its verdict depends on the text alone and is what
/// [`parsed_url_has_host`] names.
#[verifier::external_body]
fn parse_for_host(text: &str) -> (r: Result<bool, url::ParseError>)
    ensures
        match r {
            Ok(has_host) => parsed_url_has_host(text@) == Some(has_host),
            Err(_) => parsed_url_has_host(text@) is None,
        },
{
    let parsed = url::Url::parse(text)?;
    Ok(parsed.has_host())
}

/// Calls `std::path::Path::exists`. The answer depends on the file system at
/// the moment of the call, so nothing is claimed of it; failures to stat come
/// back as `false`.
#[verifier::external_body]
fn path_exists(path: &str) -> bool {
    std::path::Path::new(path).exists()
}

/// `text` is an absolute URL: it is not empty, the URL parser accepts it, and
/// the URL has a scheme and a host.
pub open spec fn is_absolute_url(text: Seq<char>) -> bool {
    text.len() > 0 && parsed_url_has_host(text) == Some(true)
}

/// Decides from the parser's answer whether text is an absolute URL: it is
/// when the text is not empty and parsed to a URL with a host.
pub fn accepts_as_url(is_empty: bool, has_host: Option<bool>) -> (r: bool)
    ensures
        r == (!is_empty && has_host == Some(true)),
{
    if is_empty {
        return false;
    }
    match has_host {
        Some(found) => found,
        None => false,
    }
}

/// Whether `content` is an absolute URL.
pub fn is_url(content: &str) -> (r: bool)
    ensures
        r == is_absolute_url(content@),
{
    let has_host = match parse_for_host(content) {
        Ok(found) => Some(found),
        Err(_) => None,
    };
    accepts_as_url(content.is_empty(), has_host)
}

/// Whether `content` names something that exists in the file system right now.
///
/// The empty string names nothing. For any other string the answer is the file
/// system's; a path that cannot be examined counts as absent.
pub fn is_file_path(content: &str) -> (r: bool)
    ensures
        content@.len() == 0 ==> !r,
{
    let found = if content.is_empty() {
        None
    } else {
        Some(path_exists(content))
    };
    file_path_verdict(found)
}

/// Decides from the file system's answer whether text is a file path: it is
/// when the file system was asked and found something. `None` stands for
/// text that the file system is not asked about.
pub fn file_path_verdict(found: Option<bool>) -> (r: bool)
    ensures
        r == (found == Some(true)),
{
    match found {
        Some(exists) => exists,
        None => false,
    }
}

/// The class of text, given the verdicts of the two probes.
pub open spec fn text_class(text: Seq<char>, is_url: bool, on_disk: bool) -> ClassModel {
    if is_url {
        ClassModel::UrlLink(text)
    } else if on_disk {
        ClassModel::FilePath(text)
    } else if text.len() > 0 {
        ClassModel::PlainText(text)
    } else {
        ClassModel::Empty
    }
}

/// The class of a snapshot, given the verdicts of the two probes on its text.
pub open spec fn classification(snapshot: SnapshotModel, is_url: bool, on_disk: bool)
    -> ClassModel {
    if snapshot.image is Some {
        ClassModel::Image
    } else {
        match snapshot.text {
            Some(text) => text_class(text, is_url, on_disk),
            None => ClassModel::Empty,
        }
    }
}

/// Classifies text from the verdicts of the two probes: a URL wins over a file
/// path, a file path over plain text, and empty text that is neither is `Empty`.
pub fn classify_text(text: &str, is_url: bool, on_disk: bool) -> (class: ContentClass)
    ensures
        class@ == text_class(text@, is_url, on_disk),
{
    if is_url {
        ContentClass::UrlLink(text.to_owned())
    } else if on_disk {
        ContentClass::FilePath(text.to_owned())
    } else if !text.is_empty() {
        ContentClass::PlainText(text.to_owned())
    } else {
        ContentClass::Empty
    }
}

/// The text of a snapshot; the empty string where it carries none.
pub open spec fn text_of(snapshot: SnapshotModel) -> Seq<char> {
    match snapshot.text {
        Some(text) => text,
        None => Seq::empty(),
    }
}

/// What the file system may have answered about `text`: nothing exists under
/// the empty path.
pub open spec fn disk_answer(text: Seq<char>, on_disk: bool) -> bool {
    text.len() == 0 ==> !on_disk
}

/// The class of a snapshot, given the file system's answer about its text.
pub open spec fn class_of(snapshot: SnapshotModel, on_disk: bool) -> ClassModel {
    classification(snapshot, is_absolute_url(text_of(snapshot)), on_disk)
}

/// `class` is the class of `snapshot` under some answer that the file system
/// may have given.
pub open spec fn classifies(snapshot: SnapshotModel, class: ClassModel) -> bool {
    exists|on_disk: bool| #[trigger]
        disk_answer(text_of(snapshot), on_disk) && class == class_of(snapshot, on_disk)
}

/// Classifies a snapshot.
///
/// The file system is consulted only for text that is not a URL, and never for
/// empty text. Whatever it answers, an image is classified `Image`, text that
/// is an absolute URL `UrlLink`, and a snapshot without content `Empty`.
pub fn classify(snapshot: &ClipboardSnapshot) -> (class: ContentClass)
    ensures
        classifies(snapshot@, class@),
        snapshot@.image is Some ==> class@ == ClassModel::Image,
        snapshot@.image is None && is_absolute_url(text_of(snapshot@)) ==> class@
            == ClassModel::UrlLink(text_of(snapshot@)),
        snapshot@.image is None && text_of(snapshot@).len() == 0 ==> class@ == ClassModel::Empty,
{
    if snapshot.image.is_some() {
        assert(disk_answer(text_of(snapshot@), false));
        return ContentClass::Image;
    }
    match &snapshot.text {
        Some(text) => {
            let url = is_url(text.as_str());
            let on_disk = !url && is_file_path(text.as_str());
            assert(disk_answer(text_of(snapshot@), on_disk));
            classify_text(text.as_str(), url, on_disk)
        },
        None => {
            assert(disk_answer(text_of(snapshot@), false));
            ContentClass::Empty
        },
    }
}

/// An image wins over everything: a snapshot that carries an image is of
/// class `Image`, whatever text accompanies it and whatever the probes say of
/// that text.
pub proof fn law_image_first(snapshot: SnapshotModel, is_url: bool, on_disk: bool)
    requires
        snapshot.image is Some,
    ensures
        classification(snapshot, is_url, on_disk) == ClassModel::Image,
{
}

/// A URL wins over a file path: text that parses as an absolute URL is of
/// class `UrlLink` even where a file of that name exists.
pub proof fn law_url_before_path(snapshot: SnapshotModel, on_disk: bool)
    requires
        snapshot.image is None,
        snapshot.text is Some,
        is_absolute_url(text_of(snapshot)),
    ensures
        classification(snapshot, is_absolute_url(text_of(snapshot)), on_disk)
            == ClassModel::UrlLink(text_of(snapshot)),
{
}

/// Nothing on the clipboard, or empty text, is of class `Empty`: empty text
/// is no URL, and nothing exists under the empty path.
pub proof fn law_empty_is_empty(snapshot: SnapshotModel, on_disk: bool)
    requires
        snapshot.image is None,
        text_of(snapshot).len() == 0,
        text_of(snapshot).len() == 0 ==> !on_disk,
    ensures
        classification(snapshot, is_absolute_url(text_of(snapshot)), on_disk)
            == ClassModel::Empty,
{
}

/// Each class tells what was found: a class that carries a string carries
/// the snapshot's text and tells what the probes said of it, and `Empty` is
/// left only for a snapshot without text or with empty text that neither
/// probe accepted.
pub proof fn law_class_carries_text(snapshot: SnapshotModel, is_url: bool, on_disk: bool)
    ensures
        match classification(snapshot, is_url, on_disk) {
            ClassModel::Image => snapshot.image is Some,
            ClassModel::UrlLink(t) => snapshot.image is None && snapshot.text == Some(t) && is_url,
            ClassModel::FilePath(t) => snapshot.image is None && snapshot.text == Some(t)
                && !is_url && on_disk,
            ClassModel::PlainText(t) => snapshot.image is None && snapshot.text == Some(t)
                && !is_url && !on_disk && t.len() > 0,
            ClassModel::Empty => snapshot.image is None && (snapshot.text is None || (!is_url
                && !on_disk && text_of(snapshot).len() == 0)),
        },
{
}

} // verus!
