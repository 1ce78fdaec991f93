use pb_covers::error::PdfError;
use pb_covers::pdf::retrieve_pdf_cover;

fn one_page_pdf() -> Vec<u8> {
    let objects = [
        "<< /Type /Catalog /Pages 2 0 R >>",
        "<< /Type /Pages /Kids [3 0 R] /Count 1 >>",
        "<< /Type /Page /Parent 2 0 R /MediaBox [0 0 20 30] >>",
    ];
    let mut out = String::from("%PDF-1.4\n");
    let mut offsets = Vec::new();
    for (i, o) in objects.iter().enumerate() {
        offsets.push(out.len());
        out.push_str(&format!("{} 0 obj\n{}\nendobj\n", i + 1, o));
    }
    let xref = out.len();
    out.push_str(&format!("xref\n0 {}\n0000000000 65535 f \n", objects.len() + 1));
    for off in offsets {
        out.push_str(&format!("{:010} 00000 n \n", off));
    }
    out.push_str(&format!("trailer\n<< /Size {} /Root 1 0 R >>\nstartxref\n{}\n%%EOF\n", objects.len() + 1, xref));
    out.into_bytes()
}

#[test]
fn pdf_cover_is_first_page() {
    let cover = retrieve_pdf_cover(one_page_pdf()).unwrap();
    assert_eq!((cover.width(), cover.height()), (20, 30));
}

#[test]
fn pdf_not_a_document() {
    assert_eq!(retrieve_pdf_cover(b"hello".to_vec()).err(), Some(PdfError::Load));
}
