//! The cover of a PDF book: its first page, rendered on a white background.

use crate::error::PdfError;
use crate::picture::{rgba_picture_from_raw, ColorLayout, Picture, PictureSize};
use vstd::prelude::*;

verus! {

#[verifier::external_type_specification]
#[verifier::external_body]
pub struct ExPdf(hayro::hayro_syntax::Pdf);

#[verifier::external_type_specification]
#[verifier::external_body]
pub struct ExLoadPdfError(hayro::hayro_syntax::LoadPdfError);

/// The bytes a loaded document was read from.
pub uninterp spec fn pdf_bytes(pdf: hayro::hayro_syntax::Pdf) -> Seq<u8>;

/// Whether `Pdf::new` loads these bytes as a document.
pub uninterp spec fn pdf_loads(data: Seq<u8>) -> bool;

/// The number of pages of the document loaded from `data`.
pub uninterp spec fn pdf_page_total(data: Seq<u8>) -> nat;

/// The width and height, in pixels, of page `page` of the document loaded
/// from `data` when it is rendered at scale 1.
pub uninterp spec fn pdf_page_size(data: Seq<u8>, page: nat) -> (u16, u16);

/// Calls `hayro::hayro_syntax::Pdf::new`. Whether it succeeds depends on the
/// bytes alone, and the document holds them.
#[verifier::external_body]
fn pdf_load(data: Vec<u8>) -> (r: Result<hayro::hayro_syntax::Pdf, hayro::hayro_syntax::LoadPdfError>)
    ensures
        r is Ok == pdf_loads(data@),
        r matches Ok(p) ==> pdf_bytes(p) == data@,
{
    hayro::hayro_syntax::Pdf::new(data)
}

/// Calls `Pdf::pages` and counts them.
#[verifier::external_body]
fn pdf_page_count(pdf: &hayro::hayro_syntax::Pdf) -> (n: usize)
    ensures
        n == pdf_page_total(pdf_bytes(*pdf)),
{
    pdf.pages().len()
}

/// Calls `hayro::render` on page `page` at scale 1 with default settings,
/// on a background of the given 8-bit red, green, blue and alpha
/// (`AlphaColor::from_rgba8`), and hands out the pixmap's width, height and
/// premultiplied RGBA bytes (four per pixel). The size depends on the
/// document and the page alone. The pixels are not stated: the rasterizer
/// picks its SIMD code path by the machine it runs on.
#[verifier::external_body]
fn pdf_render_page(
    pdf: &hayro::hayro_syntax::Pdf,
    page: usize,
    background: (u8, u8, u8, u8),
) -> (r: (u16, u16, Vec<u8>))
    requires
        page < pdf_page_total(pdf_bytes(*pdf)),
    ensures
        (r.0, r.1) == pdf_page_size(pdf_bytes(*pdf), page as nat),
        r.2@.len() == 4 * r.0 * r.1,
{
    let pixmap = hayro::render(
        &pdf.pages()[page],
        &hayro::RenderCache::new(),
        &hayro::hayro_interpret::InterpreterSettings::default(),
        &hayro::RenderSettings::default(),
        &hayro::PixmapSettings {
            bg_color: hayro::vello_cpu::color::AlphaColor::from_rgba8(background.0, background.1, background.2, background.3),
            ..Default::default()
        },
    );
    (pixmap.width(), pixmap.height(), pixmap.data_as_u8_slice().to_vec())
}

/// What retrieving the cover of the PDF book held in `data` gives: the size
/// of its first page, or the step that failed.
pub open spec fn pdf_cover_outcome(data: Seq<u8>) -> Result<PictureSize, PdfError> {
    if !pdf_loads(data) {
        Err(PdfError::Load)
    } else if pdf_page_total(data) == 0 {
        Err(PdfError::NoPage)
    } else {
        let (w, h) = pdf_page_size(data, 0);
        Ok(PictureSize { width: w as nat, height: h as nat })
    }
}

/// Retrieves the cover of the PDF book held in `data`: its first page,
/// rendered on white.
pub fn retrieve_pdf_cover(data: Vec<u8>) -> (r: Result<Picture, PdfError>)
    ensures
        match r {
            Ok(p) => pdf_cover_outcome(data@) == Ok::<PictureSize, PdfError>(
                PictureSize { width: p@.width, height: p@.height },
            ) && p@.layout == ColorLayout::Rgba8 && p@.samples.len() == 4 * p@.width * p@.height,
            Err(e) => pdf_cover_outcome(data@) == Err::<PictureSize, PdfError>(e),
        },
{
    let ghost bytes = data@;
    let pdf = match pdf_load(data) {
        Ok(pdf) => pdf,
        Err(_) => {
            return Err(PdfError::Load);
        },
    };
    if pdf_page_count(&pdf) == 0 {
        return Err(PdfError::NoPage);
    }
    let (w, h, pixels) = pdf_render_page(&pdf, 0, (255, 255, 255, 255));
    match rgba_picture_from_raw(w as u32, h as u32, pixels) {
        Some(p) => Ok(p),
        None => Err(PdfError::Image),
    }
}

/// A document that loads and has a page always yields a cover, of the size
/// of its first page: rendering never produces a pixmap too small for an
/// image.
pub proof fn lemma_paged_pdf_has_cover(data: Seq<u8>)
    requires
        pdf_loads(data),
        pdf_page_total(data) > 0,
    ensures
        pdf_cover_outcome(data) == Ok::<PictureSize, PdfError>(
            PictureSize { width: pdf_page_size(data, 0).0 as nat, height: pdf_page_size(data, 0).1 as nat },
        ),
{
}

} // verus!
