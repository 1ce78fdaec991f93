use std::io::{Cursor, Write};
use pb_covers::orientation::Orientation;
use pb_covers::state::{Size, State, ViewerAction, ViewerEvent};

fn viewer(books: &[&str]) -> State {
    State::new("/books".to_string(), books.iter().map(|b| b.to_string()).collect())
}

#[test]
fn new_viewer_shows_first_book_upright() {
    let s = viewer(&["/books/a.epub", "/books/b.pdf"]);
    assert_eq!(s.pos(), 0);
    assert!(!s.overlay());
    assert_eq!(s.orientation(), Orientation::Portrait0Deg);
    assert_eq!(s.current_book(), Some("/books/a.epub"));
}

#[test]
fn overlay_toggles_back() {
    let mut s = viewer(&[]);
    assert!(s.toggle_overlay());
    assert!(s.overlay());
    assert!(!s.toggle_overlay());
    assert!(!s.overlay());
}

#[test]
fn orientation_cycles() {
    let mut s = viewer(&[]);
    assert_eq!(s.orientation_cycle_forward(), Orientation::Landscape270Deg);
    assert_eq!(s.orientation_cycle_forward(), Orientation::Portrait180Deg);
    assert_eq!(s.orientation_cycle_forward(), Orientation::Landscape90Deg);
    assert_eq!(s.orientation_cycle_forward(), Orientation::Portrait0Deg);
    assert_eq!(s.orientation_cycle_backward(), Orientation::Landscape90Deg);
    assert_eq!(s.orientation_cycle_backward(), Orientation::Portrait180Deg);
    assert_eq!(s.orientation_cycle_forward(), Orientation::Landscape90Deg);
    assert_eq!(s.orientation_cycle_backward(), Orientation::Portrait180Deg);
    assert_eq!(s.orientation_cycle_backward(), Orientation::Landscape270Deg);
    assert_eq!(s.orientation_cycle_backward(), Orientation::Portrait0Deg);
    assert_eq!(Orientation::default(), Orientation::Portrait0Deg);
}

#[test]
fn position_cycles_forward_through_all_books() {
    let mut s = viewer(&["a.epub", "b.epub", "c.epub"]);
    assert_eq!(s.pos_cycle_forward(), 1);
    assert_eq!(s.pos_cycle_forward(), 2);
    assert_eq!(s.current_book(), Some("c.epub"));
    assert_eq!(s.pos_cycle_forward(), 0);
    assert_eq!(s.pos_cycle_forward(), 1);
}

#[test]
fn position_cycles_backward_skipping_first() {
    let mut s = viewer(&["a.epub", "b.epub", "c.epub"]);
    assert_eq!(s.pos_cycle_backward(), 2);
    assert_eq!(s.pos_cycle_backward(), 1);
    assert_eq!(s.pos_cycle_backward(), 2);
}

#[test]
fn position_without_books_stays_at_zero() {
    let mut s = viewer(&[]);
    assert_eq!(s.pos_cycle_forward(), 0);
    assert_eq!(s.pos_cycle_backward(), 0);
    assert_eq!(s.current_book(), None);
    let mut one = viewer(&["only.pdf"]);
    assert_eq!(one.pos_cycle_forward(), 0);
    assert_eq!(one.pos_cycle_backward(), 0);
    assert_eq!(one.current_book(), Some("only.pdf"));
}

#[test]
fn overlay_text_names_current_book() {
    let s = viewer(&["/books/my \"book\".epub"]);
    assert_eq!(s.overlay_text(), "pos: 0, book: \"my \\\"book\\\".epub\"");
    let empty = viewer(&[]);
    assert_eq!(empty.overlay_text(), "pos: 0, book: \"<unavailable>\"");
}

#[test]
fn cover_without_book_or_data_is_none() {
    let mut empty = viewer(&[]);
    assert!(empty.cover_image(|_: &str| -> Option<Vec<u8>> { panic!("nothing to read") }).is_none());
    let mut s = viewer(&["a.epub"]);
    assert!(s.cover_image(|_: &str| None).is_none());
    assert!(s.cover_image(|_: &str| Some(b"junk".to_vec())).is_none());
    let mut t = viewer(&["a.txt"]);
    assert!(t.cover_image_buf(Size { width: 4, height: 4 }, |_: &str| Some(Vec::new())).is_none());
}

fn one_page_pdf(width: u32, height: u32) -> Vec<u8> {
    let objects = [
        "<< /Type /Catalog /Pages 2 0 R >>".to_string(),
        "<< /Type /Pages /Kids [3 0 R] /Count 1 >>".to_string(),
        format!("<< /Type /Page /Parent 2 0 R /MediaBox [0 0 {} {}] >>", width, height),
    ];
    let mut out = String::from("%PDF-1.4\n");
    let mut offsets = Vec::new();
    for (i, o) in objects.iter().enumerate() {
        offsets.push(out.len());
        out.push_str(&format!("{} 0 obj\n{}\nendobj\n", i + 1, o));
    }
    let xref = out.len();
    out.push_str(&format!("xref\n0 {}\n0000000000 65535 f \n", objects.len() + 1));
    for off in offsets {
        out.push_str(&format!("{:010} 00000 n \n", off));
    }
    out.push_str(&format!("trailer\n<< /Size {} /Root 1 0 R >>\nstartxref\n{}\n%%EOF\n", objects.len() + 1, xref));
    out.into_bytes()
}

#[test]
fn cover_is_cached_until_position_changes() {
    let mut s = viewer(&["a.pdf", "b.pdf"]);
    let size = s.cover_image(|p: &str| {
        assert_eq!(p, "a.pdf");
        Some(one_page_pdf(20, 30))
    }).map(|c| (c.width(), c.height()));
    assert_eq!(size, Some((20, 30)));
    let again = s.cover_image(|_: &str| -> Option<Vec<u8>> { panic!("cached cover is read again") }).map(|c| (c.width(), c.height()));
    assert_eq!(again, Some((20, 30)));
    s.pos_cycle_forward();
    let next = s.cover_image(|p: &str| {
        assert_eq!(p, "b.pdf");
        Some(one_page_pdf(10, 10))
    }).map(|c| (c.width(), c.height()));
    assert_eq!(next, Some((10, 10)));
}

#[test]
fn screen_frame_fills_screen_and_is_cached() {
    let mut s = viewer(&["a.pdf"]);
    let screen = Size { width: 12, height: 8 };
    let frame = s.cover_image_buf(screen, |_: &str| Some(one_page_pdf(20, 30))).map(|f| (f.width, f.height, f.pixels.len()));
    let (w, h, n) = frame.unwrap();
    assert!(w <= 12 && h <= 8);
    assert_eq!(n, (w * h) as usize);
    let again = s.cover_image_buf(screen, |_: &str| -> Option<Vec<u8>> { panic!("cached frame recomputed") }).map(|f| (f.width, f.height));
    assert_eq!(again, Some((w, h)));
    s.orientation_cycle_forward();
    let turned = s.cover_image_buf(screen, |_: &str| -> Option<Vec<u8>> { panic!("cached cover is read again") }).map(|f| (f.width, f.height));
    assert!(turned.is_some());
}

fn two_pixel_epub() -> Vec<u8> {
    let img = image::DynamicImage::ImageLuma8(image::GrayImage::from_raw(2, 1, vec![0, 255]).unwrap());
    let mut png = Cursor::new(Vec::new());
    img.write_to(&mut png, image::ImageFormat::Png).unwrap();
    let container = r#"<container><rootfiles><rootfile full-path="c.opf"/></rootfiles></container>"#;
    let package = r#"<package><metadata><meta name="cover" content="c"/></metadata><manifest><item id="c" href="c.png"/></manifest></package>"#;
    let mut w = zip::ZipWriter::new(Cursor::new(Vec::new()));
    for (name, data) in [
        ("META-INF/container.xml", container.as_bytes().to_vec()),
        ("c.opf", package.as_bytes().to_vec()),
        ("c.png", png.into_inner()),
    ] {
        w.start_file(name, zip::write::SimpleFileOptions::default()).unwrap();
        w.write_all(&data).unwrap();
    }
    w.finish().unwrap().into_inner()
}

#[test]
fn frame_is_turned_by_orientation() {
    let mut s = viewer(&["a.epub"]);
    let tall = Size { width: 1, height: 2 };
    assert_eq!(s.orientation_cycle_backward(), Orientation::Landscape90Deg);
    let quarter = s.cover_image_buf(tall, |_: &str| Some(two_pixel_epub())).map(|f| f.pixels.clone());
    assert_eq!(quarter, Some(vec![0, 255]));
    s.orientation_cycle_backward();
    assert_eq!(s.orientation_cycle_backward(), Orientation::Landscape270Deg);
    let three_quarters = s.cover_image_buf(tall, |_: &str| -> Option<Vec<u8>> { panic!("cover is cached") }).map(|f| f.pixels.clone());
    assert_eq!(three_quarters, Some(vec![255, 0]));
}

#[test]
fn frame_upright_and_upside_down() {
    let wide = Size { width: 2, height: 1 };
    let mut s = viewer(&["a.epub"]);
    let upright = s.cover_image_buf(wide, |_: &str| Some(two_pixel_epub())).map(|f| f.pixels.clone());
    assert_eq!(upright, Some(vec![0, 255]));
    s.orientation_cycle_forward();
    assert_eq!(s.orientation_cycle_forward(), Orientation::Portrait180Deg);
    let half = s.cover_image_buf(wide, |_: &str| -> Option<Vec<u8>> { panic!("cover is cached") }).map(|f| f.pixels.clone());
    assert_eq!(half, Some(vec![255, 0]));
}

#[test]
fn overlay_text_shows_position_in_decimal() {
    let mut s = viewer(&["a.pdf", "b.pdf", "c.pdf", "d.pdf", "e.pdf", "f.pdf", "g.pdf", "h.pdf", "i.pdf", "j.pdf", "k.pdf", "l.pdf"]);
    for _ in 0..11 {
        s.pos_cycle_forward();
    }
    assert_eq!(s.overlay_text(), "pos: 11, book: \"l.pdf\"");
}

#[test]
fn failed_cover_is_fetched_again() {
    let mut s = viewer(&["a.epub"]);
    assert!(s.cover_image(|_: &str| Some(b"not yet a book".to_vec())).is_none());
    let cover = s.cover_image(|_: &str| Some(two_pixel_epub())).map(|c| (c.width(), c.height()));
    assert_eq!(cover, Some((2, 1)));
    assert_eq!(s.pos(), 0);
}

#[test]
fn page_keys_step_or_turn_by_overlay() {
    let mut s = viewer(&["a.pdf", "b.pdf", "c.pdf"]);
    assert_eq!(s.handle_event(ViewerEvent::Next), ViewerAction::Render);
    assert_eq!(s.pos(), 1);
    assert_eq!(s.handle_event(ViewerEvent::Prev), ViewerAction::Render);
    assert_eq!(s.pos(), 2);
    assert_eq!(s.handle_event(ViewerEvent::Menu), ViewerAction::Render);
    assert!(s.overlay());
    assert_eq!(s.handle_event(ViewerEvent::Next), ViewerAction::Render);
    assert_eq!(s.orientation(), Orientation::Landscape270Deg);
    assert_eq!(s.handle_event(ViewerEvent::Prev), ViewerAction::Render);
    assert_eq!(s.handle_event(ViewerEvent::Prev), ViewerAction::Render);
    assert_eq!(s.orientation(), Orientation::Landscape90Deg);
    assert_eq!(s.pos(), 2);
}

#[test]
fn other_events_set_up_draw_stop_or_wait() {
    let mut s = viewer(&["a.pdf", "b.pdf"]);
    assert_eq!(s.handle_event(ViewerEvent::Init), ViewerAction::Setup);
    assert_eq!(s.handle_event(ViewerEvent::Show), ViewerAction::Render);
    assert_eq!(s.handle_event(ViewerEvent::Repaint), ViewerAction::Render);
    assert_eq!(s.handle_event(ViewerEvent::Ignored), ViewerAction::Idle);
    assert_eq!(s.pos(), 0);
    assert_eq!(s.handle_event(ViewerEvent::CycleTimer), ViewerAction::Render);
    assert_eq!(s.pos(), 1);
    assert_eq!(s.handle_event(ViewerEvent::OtherKey), ViewerAction::Stop);
    assert_eq!(s.handle_event(ViewerEvent::Exit), ViewerAction::Stop);
    assert_eq!(s.pos(), 1);
}

#[test]
fn decimal_text_matches_to_string() {
    for n in [0usize, 7, 9, 10, 42, 100, 12345, usize::MAX] {
        assert_eq!(pb_covers::text::decimal_text(n), n.to_string());
    }
}
