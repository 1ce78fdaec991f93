use pb_covers::epub::{cover_href, retrieve_epub_cover, rootfile_path};
use pb_covers::error::EpubError;
use pb_covers::xml::{XmlAttribute, XmlNode};
use std::io::{Cursor, Write};

fn png(width: u32, height: u32) -> Vec<u8> {
    let img = image::DynamicImage::ImageRgb8(image::RgbImage::new(width, height));
    let mut out = Cursor::new(Vec::new());
    img.write_to(&mut out, image::ImageFormat::Png).unwrap();
    out.into_inner()
}

fn archive(entries: &[(&str, Vec<u8>)]) -> Vec<u8> {
    let mut w = zip::ZipWriter::new(Cursor::new(Vec::new()));
    for (name, data) in entries {
        w.start_file(*name, zip::write::SimpleFileOptions::default()).unwrap();
        w.write_all(data).unwrap();
    }
    w.finish().unwrap().into_inner()
}

const CONTAINER: &str = r#"<?xml version="1.0"?>
<container version="1.0" xmlns="urn:oasis:names:tc:opendocument:xmlns:container">
  <rootfiles>
    <rootfile full-path="OEBPS/content.opf" media-type="application/oebps-package+xml"/>
  </rootfiles>
</container>"#;

const PACKAGE: &str = r#"<?xml version="1.0"?>
<package xmlns="http://www.idpf.org/2007/opf" version="2.0">
  <metadata>
    <meta name="cover" content="my-cover-image"/>
  </metadata>
  <manifest>
    <item id="my-cover-image" href="images/cover.png" media-type="image/png"/>
  </manifest>
</package>"#;

fn book() -> Vec<u8> {
    archive(&[
        ("META-INF/container.xml", CONTAINER.as_bytes().to_vec()),
        ("OEBPS/content.opf", PACKAGE.as_bytes().to_vec()),
        ("OEBPS/images/cover.png", png(7, 5)),
    ])
}

#[test]
fn epub_cover_is_found_and_decoded() {
    let cover = retrieve_epub_cover(book()).unwrap();
    assert_eq!((cover.width(), cover.height()), (7, 5));
}

#[test]
fn epub_rootfile_at_top_level() {
    let container = CONTAINER.replace("OEBPS/content.opf", "content.opf");
    let data = archive(&[
        ("META-INF/container.xml", container.into_bytes()),
        ("content.opf", PACKAGE.as_bytes().to_vec()),
        ("images/cover.png", png(3, 9)),
    ]);
    let cover = retrieve_epub_cover(data).unwrap();
    assert_eq!((cover.width(), cover.height()), (3, 9));
}

#[test]
fn epub_not_an_archive() {
    assert_eq!(retrieve_epub_cover(b"not a zip file".to_vec()).err(), Some(EpubError::Archive));
}

#[test]
fn epub_without_container() {
    let data = archive(&[("OEBPS/content.opf", PACKAGE.as_bytes().to_vec())]);
    assert_eq!(retrieve_epub_cover(data).err(), Some(EpubError::ContainerIndex));
}

#[test]
fn epub_container_not_text() {
    let data = archive(&[("META-INF/container.xml", vec![0xff, 0xfe, 0x00])]);
    assert_eq!(retrieve_epub_cover(data).err(), Some(EpubError::ContainerRead));
}

#[test]
fn epub_container_not_xml() {
    let data = archive(&[("META-INF/container.xml", b"<container><rootfiles>".to_vec())]);
    assert_eq!(retrieve_epub_cover(data).err(), Some(EpubError::ContainerXml));
}

#[test]
fn epub_container_without_full_path() {
    let container = CONTAINER.replace("full-path=", "path=");
    let data = archive(&[("META-INF/container.xml", container.into_bytes())]);
    assert_eq!(retrieve_epub_cover(data).err(), Some(EpubError::RootfilePath));
}

#[test]
fn epub_missing_rootfile() {
    let data = archive(&[("META-INF/container.xml", CONTAINER.as_bytes().to_vec())]);
    assert_eq!(retrieve_epub_cover(data).err(), Some(EpubError::RootfileIndex));
}

#[test]
fn epub_rootfile_not_xml() {
    let data = archive(&[
        ("META-INF/container.xml", CONTAINER.as_bytes().to_vec()),
        ("OEBPS/content.opf", b"<package>".to_vec()),
    ]);
    assert_eq!(retrieve_epub_cover(data).err(), Some(EpubError::RootfileXml));
}

#[test]
fn epub_without_cover_meta() {
    let package = PACKAGE.replace("name=\"cover\"", "name=\"author\"");
    let data = archive(&[
        ("META-INF/container.xml", CONTAINER.as_bytes().to_vec()),
        ("OEBPS/content.opf", package.into_bytes()),
    ]);
    assert_eq!(retrieve_epub_cover(data).err(), Some(EpubError::CoverPath));
}

#[test]
fn epub_missing_cover_entry() {
    let data = archive(&[
        ("META-INF/container.xml", CONTAINER.as_bytes().to_vec()),
        ("OEBPS/content.opf", PACKAGE.as_bytes().to_vec()),
    ]);
    assert_eq!(retrieve_epub_cover(data).err(), Some(EpubError::CoverIndex));
}

#[test]
fn epub_cover_not_an_image() {
    let data = archive(&[
        ("META-INF/container.xml", CONTAINER.as_bytes().to_vec()),
        ("OEBPS/content.opf", PACKAGE.as_bytes().to_vec()),
        ("OEBPS/images/cover.png", b"no image".to_vec()),
    ]);
    assert_eq!(retrieve_epub_cover(data).err(), Some(EpubError::CoverDecode));
}

/// An archive whose entries marked `true` are encrypted with a password.
fn locked_archive(entries: &[(&str, Vec<u8>, bool)]) -> Vec<u8> {
    let mut w = zip::ZipWriter::new(Cursor::new(Vec::new()));
    for (name, data, locked) in entries {
        let options = zip::write::SimpleFileOptions::default();
        let options = if *locked { options.with_aes_encryption(zip::AesMode::Aes256, "secret") } else { options };
        w.start_file(*name, options).unwrap();
        w.write_all(data).unwrap();
    }
    w.finish().unwrap().into_inner()
}

#[test]
fn epub_container_cannot_be_opened() {
    let data = locked_archive(&[("META-INF/container.xml", CONTAINER.as_bytes().to_vec(), true)]);
    assert_eq!(retrieve_epub_cover(data).err(), Some(EpubError::ContainerOpen));
}

#[test]
fn epub_rootfile_cannot_be_opened() {
    let data = locked_archive(&[
        ("META-INF/container.xml", CONTAINER.as_bytes().to_vec(), false),
        ("OEBPS/content.opf", PACKAGE.as_bytes().to_vec(), true),
    ]);
    assert_eq!(retrieve_epub_cover(data).err(), Some(EpubError::RootfileOpen));
}

#[test]
fn epub_cover_cannot_be_opened() {
    let data = locked_archive(&[
        ("META-INF/container.xml", CONTAINER.as_bytes().to_vec(), false),
        ("OEBPS/content.opf", PACKAGE.as_bytes().to_vec(), false),
        ("OEBPS/images/cover.png", png(2, 2), true),
    ]);
    assert_eq!(retrieve_epub_cover(data).err(), Some(EpubError::CoverOpen));
}

#[test]
fn epub_cover_cannot_be_read() {
    let mut data = book();
    // The last central directory record is the cover's; a wrong checksum
    // there makes reading the entry to its end fail.
    let record = data.windows(4).rposition(|w| w == [0x50, 0x4b, 0x01, 0x02]).unwrap();
    data[record + 16] ^= 0xff;
    assert_eq!(retrieve_epub_cover(data).err(), Some(EpubError::CoverRead));
}

fn node(parent: Option<usize>, name: &str, attrs: &[(&str, &str)]) -> XmlNode {
    XmlNode {
        is_element: !name.is_empty(),
        name: name.to_string(),
        attributes: attrs
            .iter()
            .map(|(k, v)| XmlAttribute { name: k.to_string(), value: v.to_string() })
            .collect(),
        parent,
    }
}

#[test]
fn rootfile_path_takes_first_rootfile_with_full_path() {
    let nodes = vec![
        node(None, "", &[]),
        node(Some(0), "container", &[]),
        node(Some(1), "rootfiles", &[]),
        node(Some(2), "rootfile", &[("media-type", "x")]),
        node(Some(2), "rootfile", &[("full-path", "a.opf")]),
        node(Some(2), "rootfile", &[("full-path", "b.opf")]),
    ];
    assert_eq!(rootfile_path(&nodes), Some("a.opf".to_string()));
}

#[test]
fn rootfile_path_ignores_rootfile_outside_rootfiles() {
    let nodes = vec![
        node(None, "", &[]),
        node(Some(0), "container", &[]),
        node(Some(1), "rootfile", &[("full-path", "a.opf")]),
        node(Some(1), "rootfiles", &[]),
    ];
    assert_eq!(rootfile_path(&nodes), None);
}

#[test]
fn cover_href_skips_cover_meta_without_matching_item() {
    let nodes = vec![
        node(None, "", &[]),
        node(Some(0), "package", &[]),
        node(Some(1), "meta", &[("name", "cover"), ("content", "missing")]),
        node(Some(1), "meta", &[("name", "cover"), ("content", "img")]),
        node(Some(1), "item", &[("id", "img"), ("href", "c.jpg")]),
    ];
    assert_eq!(cover_href(&nodes), Some("c.jpg".to_string()));
}

#[test]
fn cover_href_needs_href_on_item() {
    let nodes = vec![
        node(None, "", &[]),
        node(Some(0), "package", &[]),
        node(Some(1), "meta", &[("name", "cover"), ("content", "img")]),
        node(Some(1), "item", &[("id", "img")]),
        node(Some(1), "item", &[("id", "img"), ("href", "late.jpg")]),
    ];
    assert_eq!(cover_href(&nodes), None);
}

fn gray_png(width: u32, height: u32, pixels: Vec<u8>) -> Vec<u8> {
    let img = image::DynamicImage::ImageLuma8(image::GrayImage::from_raw(width, height, pixels).unwrap());
    let mut out = Cursor::new(Vec::new());
    img.write_to(&mut out, image::ImageFormat::Png).unwrap();
    out.into_inner()
}

#[test]
fn epub_href_is_relative_to_rootfile_directory() {
    let data = archive(&[
        ("META-INF/container.xml", b"<container><rootfiles><rootfile full-path='O/p.opf'/></rootfiles></container>".to_vec()),
        ("O/p.opf", b"<package><meta name='cover' content='c'/><item id='c' href='i/c.png'/></package>".to_vec()),
        ("O/i/c.png", gray_png(1, 1, vec![7])),
        ("i/c.png", gray_png(2, 2, vec![0, 0, 0, 0])),
    ]);
    let cover = retrieve_epub_cover(data).unwrap();
    let expected = image::DynamicImage::ImageLuma8(image::GrayImage::from_raw(1, 1, vec![7]).unwrap());
    assert!(*cover.image() == expected);
    assert_eq!(cover.layout(), pb_covers::picture::ColorLayout::Luma8);
}

#[test]
fn epub_cover_format_is_guessed_from_bytes() {
    let data = archive(&[
        ("META-INF/container.xml", b"<container><rootfiles><rootfile full-path='O/p.opf'/></rootfiles></container>".to_vec()),
        ("O/p.opf", b"<package><meta name='cover' content='c'/><item id='c' href='c.jpg'/></package>".to_vec()),
        ("O/c.jpg", gray_png(1, 1, vec![7])),
    ]);
    let cover = retrieve_epub_cover(data).unwrap();
    let expected = image::DynamicImage::ImageLuma8(image::GrayImage::from_raw(1, 1, vec![7]).unwrap());
    assert!(*cover.image() == expected);
}
