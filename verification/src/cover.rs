//! Which books a directory offers, and the dispatch from a book's path to
//! the way its cover is retrieved.

use crate::epub::{epub_cover_outcome, retrieve_epub_cover};
use crate::error::{CoverError, EpubError, PdfError};
use crate::paths::{path_extension, path_extension_of};
use crate::pdf::{pdf_cover_outcome, retrieve_pdf_cover};
use crate::picture::{ColorLayout, ImageModel, Picture, PictureSize};
use crate::text::same_text;
use vstd::prelude::*;

verus! {

/// The kinds of book whose cover can be retrieved.
#[derive(Clone, Copy, Debug, PartialEq, Eq, Structural)]
pub enum BookFormat {
    Epub,
    Pdf,
}

/// The format that a file extension stands for.
pub open spec fn format_of_extension(ext: Seq<char>) -> Option<BookFormat> {
    if ext == "epub"@ {
        Some(BookFormat::Epub)
    } else if ext == "pdf"@ {
        Some(BookFormat::Pdf)
    } else {
        None
    }
}

/// The format that a file extension stands for, if any.
pub fn extension_format(ext: &str) -> (r: Option<BookFormat>)
    ensures
        r == format_of_extension(ext@),
{
    if same_text(ext, "epub") {
        Some(BookFormat::Epub)
    } else if same_text(ext, "pdf") {
        Some(BookFormat::Pdf)
    } else {
        None
    }
}

/// The format of the book at `book`, told by its extension: a path without
/// an extension, and one whose extension is neither `epub` nor `pdf`, are
/// refused.
pub fn book_format(book: &str) -> (r: Result<BookFormat, CoverError>)
    ensures
        match path_extension_of(book@) {
            None => r == Err::<BookFormat, CoverError>(CoverError::NoExtension),
            Some(ext) => match format_of_extension(ext) {
                Some(f) => r == Ok::<BookFormat, CoverError>(f),
                None => r matches Err(CoverError::UnsupportedExtension(e)) && e@ == ext,
            },
        },
{
    let ext = match path_extension(book) {
        Some(ext) => ext,
        None => {
            return Err(CoverError::NoExtension);
        },
    };
    match extension_format(ext.as_str()) {
        Some(f) => Ok(f),
        None => Err(CoverError::UnsupportedExtension(ext)),
    }
}

/// Whether `m` is what retrieving the cover of the book at `book`, whose
/// file holds `data`, gives: for an EPUB book the decoded cover itself, in
/// one of the image crate's layouts; for a PDF book an RGBA picture of the
/// first page's size (its pixels come from rasterization, which the library
/// does not model).
pub open spec fn cover_matches(book: Seq<char>, data: Seq<u8>, m: ImageModel) -> bool {
    match path_extension_of(book) {
        None => false,
        Some(ext) => match format_of_extension(ext) {
            Some(BookFormat::Epub) => epub_cover_outcome(data) == Ok::<ImageModel, EpubError>(m) && m.layout
                != ColorLayout::Other,
            Some(BookFormat::Pdf) => pdf_cover_outcome(data) == Ok::<PictureSize, PdfError>(
                PictureSize { width: m.width, height: m.height },
            ) && m.layout == ColorLayout::Rgba8 && m.samples.len() == 4 * m.width * m.height,
            None => false,
        },
    }
}

/// Whether retrieving the cover of the book at `book`, whose file holds
/// `data`, fails.
pub open spec fn cover_fails(book: Seq<char>, data: Seq<u8>) -> bool {
    match path_extension_of(book) {
        None => true,
        Some(ext) => match format_of_extension(ext) {
            Some(BookFormat::Epub) => epub_cover_outcome(data) is Err,
            Some(BookFormat::Pdf) => pdf_cover_outcome(data) is Err,
            None => true,
        },
    }
}

/// Retrieves the cover of the book at `book`, whose file holds `data`: the
/// book's extension says whether it is an EPUB or a PDF book.
pub fn retrieve_cover(book: &str, data: Vec<u8>) -> (r: Result<Picture, CoverError>)
    ensures
        r is Err == cover_fails(book@, data@),
        r matches Ok(p) ==> cover_matches(book@, data@, p@),
        match path_extension_of(book@) {
            None => r matches Err(CoverError::NoExtension),
            Some(ext) => match format_of_extension(ext) {
                Some(BookFormat::Epub) => match r {
                    Ok(p) => epub_cover_outcome(data@) == Ok::<ImageModel, EpubError>(p@),
                    Err(CoverError::Epub(e)) => epub_cover_outcome(data@) == Err::<ImageModel, EpubError>(e),
                    Err(_) => false,
                },
                Some(BookFormat::Pdf) => match r {
                    Ok(p) => pdf_cover_outcome(data@) == Ok::<PictureSize, PdfError>(
                        PictureSize { width: p@.width, height: p@.height },
                    ) && p@.layout == ColorLayout::Rgba8 && p@.samples.len() == 4 * p@.width * p@.height,
                    Err(CoverError::Pdf(e)) => pdf_cover_outcome(data@) == Err::<PictureSize, PdfError>(e),
                    Err(_) => false,
                },
                None => r matches Err(CoverError::UnsupportedExtension(e)) && e@ == ext,
            },
        },
{
    match book_format(book)? {
        BookFormat::Epub => match retrieve_epub_cover(data) {
            Ok(p) => Ok(p),
            Err(e) => Err(CoverError::Epub(e)),
        },
        BookFormat::Pdf => match retrieve_pdf_cover(data) {
            Ok(p) => Ok(p),
            Err(e) => Err(CoverError::Pdf(e)),
        },
    }
}

/// A directory entry: its path and whether it is a regular file.
pub struct BookEntry {
    pub path: String,
    pub is_file: bool,
}

impl View for BookEntry {
    type V = (Seq<char>, bool);

    open spec fn view(&self) -> (Seq<char>, bool) {
        (self.path@, self.is_file)
    }
}

/// Whether an entry is a book: a regular file whose extension is `epub` or
/// `pdf`.
pub open spec fn is_book(entry: (Seq<char>, bool)) -> bool {
    &&& entry.1
    &&& path_extension_of(entry.0) matches Some(ext)
    &&& format_of_extension(ext) is Some
}

/// The paths of the books among the entries, in the entries' order.
pub open spec fn books_among(entries: Seq<(Seq<char>, bool)>) -> Seq<Seq<char>>
    decreases entries.len(),
{
    if entries.len() == 0 {
        Seq::empty()
    } else {
        let rest = books_among(entries.drop_last());
        if is_book(entries.last()) {
            rest.push(entries.last().0)
        } else {
            rest
        }
    }
}

/// The model of a list of texts.
pub open spec fn texts_view(v: Seq<String>) -> Seq<Seq<char>> {
    v.map_values(|s: String| s@)
}

/// The model of a list of entries.
pub open spec fn entries_view(v: Seq<BookEntry>) -> Seq<(Seq<char>, bool)> {
    v.map_values(|e: BookEntry| e@)
}

/// Whether the entry is a book.
pub fn entry_is_book(entry: &BookEntry) -> (r: bool)
    ensures
        r == is_book(entry@),
{
    if !entry.is_file {
        return false;
    }
    match path_extension(entry.path.as_str()) {
        Some(ext) => extension_format(ext.as_str()).is_some(),
        None => false,
    }
}

/// The paths of the books among the entries of a directory, in the
/// entries' order.
pub fn select_books(entries: &Vec<BookEntry>) -> (books: Vec<String>)
    ensures
        texts_view(books@) == books_among(entries_view(entries@)),
{
    let ghost all = entries_view(entries@);
    let mut books: Vec<String> = Vec::new();
    let mut i: usize = 0;
    while i < entries.len()
        invariant
            i <= entries@.len(),
            all == entries_view(entries@),
            texts_view(books@) == books_among(all.take(i as int)),
        decreases entries@.len() - i,
    {
        let entry = &entries[i];
        assert(all.take(i + 1).drop_last() =~= all.take(i as int));
        assert(all.take(i + 1).last() == entry@);
        if entry_is_book(entry) {
            books.push(entry.path.clone());
            assert(texts_view(books@) =~= books_among(all.take(i as int)).push(entry.path@));
        }
        i = i + 1;
    }
    assert(all.take(entries@.len() as int) =~= all);
    books
}

/// The entry that the `i`-th selected book comes from.
proof fn lemma_selected_source(entries: Seq<(Seq<char>, bool)>, i: int) -> (j: int)
    requires
        0 <= i < books_among(entries).len(),
    ensures
        0 <= j < entries.len(),
        is_book(entries[j]),
        entries[j].0 == books_among(entries)[i],
    decreases entries.len(),
{
    let rest = entries.drop_last();
    if i < books_among(rest).len() {
        let j = lemma_selected_source(rest, i);
        assert(entries[j] == rest[j]);
        j
    } else {
        (entries.len() - 1) as int
    }
}

/// Where an entry that is a book stands among the selected books.
proof fn lemma_book_selected(entries: Seq<(Seq<char>, bool)>, j: int) -> (i: int)
    requires
        0 <= j < entries.len(),
        is_book(entries[j]),
    ensures
        0 <= i < books_among(entries).len(),
        books_among(entries)[i] == entries[j].0,
    decreases entries.len(),
{
    let rest = entries.drop_last();
    if j < entries.len() - 1 {
        assert(rest[j] == entries[j]);
        lemma_book_selected(rest, j)
    } else {
        (books_among(entries).len() - 1) as int
    }
}

/// Whether `book` is the path of an entry that is a book.
pub open spec fn is_book_among(entries: Seq<(Seq<char>, bool)>, book: Seq<char>) -> bool {
    exists|j: int| 0 <= j < entries.len() && is_book(#[trigger] entries[j]) && entries[j].0 == book
}

/// Every book selected from a directory's entries is the path of an entry
/// that is a book, and every entry that is a book is selected.
pub proof fn lemma_selection_is_exact(entries: Seq<(Seq<char>, bool)>)
    ensures
        forall|i: int| 0 <= i < books_among(entries).len() ==> is_book_among(entries, #[trigger] books_among(entries)[i]),
        forall|j: int| 0 <= j < entries.len() && is_book(entries[j]) ==> books_among(entries).contains(#[trigger] entries[j].0),
{
    assert forall|i: int| 0 <= i < books_among(entries).len() implies is_book_among(
        entries,
        #[trigger] books_among(entries)[i],
    ) by {
        let j = lemma_selected_source(entries, i);
        assert(is_book(entries[j]));
    }
    assert forall|j: int| 0 <= j < entries.len() && is_book(entries[j]) implies books_among(entries).contains(
        #[trigger] entries[j].0,
    ) by {
        let i = lemma_book_selected(entries, j);
        assert(books_among(entries)[i] == entries[j].0);
    }
}

} // verus!
