//! Why a cover could not be retrieved.

use vstd::prelude::*;

verus! {

/// The step at which retrieving an EPUB book's cover failed.
#[derive(Clone, Copy, Debug, PartialEq, Eq, Structural)]
pub enum EpubError {
    /// The book's file could not be read.
    Unreadable,
    /// The book is not a ZIP archive.
    Archive,
    /// The archive has no `META-INF/container.xml`.
    ContainerIndex,
    /// The container entry could not be opened.
    ContainerOpen,
    /// The container entry could not be read as UTF-8 text.
    ContainerRead,
    /// The container entry is not well-formed XML.
    ContainerXml,
    /// The container names no rootfile with a `full-path` attribute.
    RootfilePath,
    /// The archive has no entry at the rootfile's path.
    RootfileIndex,
    /// The rootfile entry could not be opened.
    RootfileOpen,
    /// The rootfile entry could not be read as UTF-8 text.
    RootfileRead,
    /// The rootfile entry is not well-formed XML.
    RootfileXml,
    /// The rootfile names no cover item with an `href` attribute.
    CoverPath,
    /// The rootfile's path has no parent directory.
    RootfileParent,
    /// The archive has no entry at the cover's path.
    CoverIndex,
    /// The cover entry could not be opened.
    CoverOpen,
    /// The cover entry could not be read.
    CoverRead,
    /// The cover entry is not an image that can be decoded.
    CoverDecode,
}

/// The step at which retrieving a PDF book's cover failed.
#[derive(Clone, Copy, Debug, PartialEq, Eq, Structural)]
pub enum PdfError {
    /// The book's file could not be read.
    Unreadable,
    /// The data is not a PDF document that can be loaded.
    Load,
    /// The document has no page.
    NoPage,
    /// The rendered page does not form an image.
    Image,
}

/// Why a book's cover could not be retrieved.
#[derive(Debug, PartialEq, Eq)]
pub enum CoverError {
    /// The book's path has no extension.
    NoExtension,
    /// The book's extension is neither `epub` nor `pdf`.
    UnsupportedExtension(String),
    /// Retrieving the cover of an EPUB book failed.
    Epub(EpubError),
    /// Retrieving the cover of a PDF book failed.
    Pdf(PdfError),
}

} // verus!
