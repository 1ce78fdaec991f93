use pb_covers::cover::{book_format, extension_format, retrieve_cover, select_books, BookEntry, BookFormat};
use pb_covers::error::{CoverError, EpubError, PdfError};

fn entry(path: &str, is_file: bool) -> BookEntry {
    BookEntry { path: path.to_string(), is_file }
}

#[test]
fn books_are_epub_and_pdf_files_in_order() {
    let entries = vec![
        entry("/b/z.pdf", true),
        entry("/b/notes.txt", true),
        entry("/b/a.epub", true),
        entry("/b/dir.epub", false),
        entry("/b/README", true),
        entry("/b/.epub", true),
        entry("/b/x.EPUB", true),
        entry("/b/y.tar.pdf", true),
    ];
    assert_eq!(select_books(&entries), vec!["/b/z.pdf".to_string(), "/b/a.epub".to_string(), "/b/y.tar.pdf".to_string()]);
}

#[test]
fn no_entries_no_books() {
    assert!(select_books(&Vec::new()).is_empty());
}

#[test]
fn format_by_extension() {
    assert_eq!(book_format("/books/a.epub"), Ok(BookFormat::Epub));
    assert_eq!(book_format("b.pdf"), Ok(BookFormat::Pdf));
    assert_eq!(book_format("/books/readme"), Err(CoverError::NoExtension));
    assert_eq!(book_format("/books/.epub"), Err(CoverError::NoExtension));
    assert_eq!(book_format("c.txt"), Err(CoverError::UnsupportedExtension("txt".to_string())));
    assert_eq!(book_format("d.Pdf"), Err(CoverError::UnsupportedExtension("Pdf".to_string())));
    assert_eq!(extension_format("epub"), Some(BookFormat::Epub));
    assert_eq!(extension_format("mobi"), None);
}

#[test]
fn retrieve_cover_dispatches_on_extension() {
    assert_eq!(retrieve_cover("a.epub", b"junk".to_vec()).err(), Some(CoverError::Epub(EpubError::Archive)));
    assert_eq!(retrieve_cover("a.pdf", b"junk".to_vec()).err(), Some(CoverError::Pdf(PdfError::Load)));
    assert_eq!(retrieve_cover("a", Vec::new()).err(), Some(CoverError::NoExtension));
    assert_eq!(
        retrieve_cover("a.cbz", Vec::new()).err(),
        Some(CoverError::UnsupportedExtension("cbz".to_string()))
    );
}
