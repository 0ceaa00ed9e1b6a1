//! The clipboard snapshot and the classes a snapshot falls into.

use vstd::prelude::*;

verus! {

/// Raw RGBA8 pixels as the clipboard hands them out: four bytes per pixel,
/// rows from top to bottom.
#[derive(Debug, Clone, PartialEq, Eq)]
pub struct RawImage {
    pub width: usize,
    pub height: usize,
    pub bytes: Vec<u8>,
}

/// Mathematical model of a [`RawImage`].
pub struct ImageModel {
    pub width: nat,
    pub height: nat,
    pub pixels: Seq<u8>,
}

impl View for RawImage {
    type V = ImageModel;

    open spec fn view(&self) -> ImageModel {
        ImageModel { width: self.width as nat, height: self.height as nat, pixels: self.bytes@ }
    }
}

impl ImageModel {
    /// The pixel buffer holds exactly four bytes for each of `width * height` pixels.
    pub open spec fn consistent(self) -> bool {
        self.pixels.len() == self.width * self.height * 4
    }
}

/// An optional string, as an optional sequence of characters.
pub open spec fn text_model(text: Option<String>) -> Option<Seq<char>> {
    match text {
        Some(t) => Some(t@),
        None => None,
    }
}

/// What the clipboard held at one instant.
///
/// A capture fills at most one of the two payloads; see [`ClipboardSnapshot::wf`].
/// Classification is nevertheless defined for every value, and looks at the
/// image first.
#[derive(Debug, Clone, PartialEq, Eq)]
pub struct ClipboardSnapshot {
    pub image: Option<RawImage>,
    pub text: Option<String>,
}

/// Mathematical model of a [`ClipboardSnapshot`].
pub struct SnapshotModel {
    pub image: Option<ImageModel>,
    pub text: Option<Seq<char>>,
}

impl View for ClipboardSnapshot {
    type V = SnapshotModel;

    open spec fn view(&self) -> SnapshotModel {
        SnapshotModel {
            image: match self.image {
                Some(img) => Some(img@),
                None => None,
            },
            text: text_model(self.text),
        }
    }
}

impl ClipboardSnapshot {
    /// At most one payload kind is present.
    pub open spec fn wf(&self) -> bool {
        self.image is None || self.text is None
    }

    /// A snapshot of a clipboard that holds an image.
    pub fn from_image(image: RawImage) -> (s: ClipboardSnapshot)
        ensures
            s.wf(),
            s@.image == Some(image@),
            s@.text is None,
    {
        ClipboardSnapshot { image: Some(image), text: None }
    }

    /// A snapshot of a clipboard that holds text.
    pub fn from_text(text: String) -> (s: ClipboardSnapshot)
        ensures
            s.wf(),
            s@.image is None,
            s@.text == Some(text@),
    {
        ClipboardSnapshot { image: None, text: Some(text) }
    }

    /// A snapshot of a clipboard that holds neither.
    pub fn empty() -> (s: ClipboardSnapshot)
        ensures
            s.wf(),
            s@.image is None,
            s@.text is None,
    {
        ClipboardSnapshot { image: None, text: None }
    }
}

/// The class of a snapshot. Every snapshot has exactly one.
#[derive(Debug, Clone, PartialEq, Eq)]
pub enum ContentClass {
    Image,
    UrlLink(String),
    FilePath(String),
    PlainText(String),
    Empty,
}

/// Mathematical model of a [`ContentClass`].
pub enum ClassModel {
    Image,
    UrlLink(Seq<char>),
    FilePath(Seq<char>),
    PlainText(Seq<char>),
    Empty,
}

impl View for ContentClass {
    type V = ClassModel;

    open spec fn view(&self) -> ClassModel {
        match self {
            ContentClass::Image => ClassModel::Image,
            ContentClass::UrlLink(t) => ClassModel::UrlLink(t@),
            ContentClass::FilePath(t) => ClassModel::FilePath(t@),
            ContentClass::PlainText(t) => ClassModel::PlainText(t@),
            ContentClass::Empty => ClassModel::Empty,
        }
    }
}

} // verus!
