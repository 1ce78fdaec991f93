//! The cover of an EPUB book: the archive's container names the package
//! document (the rootfile), whose metadata names the manifest item that
//! holds the cover image.

use crate::error::EpubError;
use crate::paths::{path_join, path_join_of, path_parent, path_parent_of};
use crate::picture::{decode_picture, decoded_image, ColorLayout, ImageModel, Picture};
use crate::xml::{accepts, attribute, parse_xml, xml_document, attribute_of, find_node, first_accepted, nodes_view, NodeFilter, NodeFilterView, XmlNode, XmlNodeView};
use vstd::prelude::*;
use vstd::utf8::{decode_utf8, valid_utf8};

verus! {

#[verifier::external_type_specification]
#[verifier::external_body]
#[verifier::reject_recursive_types(R)]
pub struct ExZipArchive<R>(zip::ZipArchive<R>);

#[verifier::external_type_specification]
#[verifier::external_body]
#[verifier::reject_recursive_types(T)]
pub struct ExCursor<T>(std::io::Cursor<T>);

#[verifier::external_type_specification]
#[verifier::external_body]
pub struct ExZipError(zip::result::ZipError);

/// A ZIP archive read from bytes in memory.
pub type Archive = zip::ZipArchive<std::io::Cursor<Vec<u8>>>;

/// The bytes an archive reads from.
pub uninterp spec fn archive_bytes(archive: Archive) -> Seq<u8>;

/// Whether `zip::ZipArchive::new` reads these bytes as an archive.
pub uninterp spec fn zip_opens(data: Seq<u8>) -> bool;

/// What `ZipArchive::index_for_path` gives for the archive read from `data`.
pub uninterp spec fn zip_lookup(data: Seq<u8>, path: Seq<char>) -> Option<usize>;

/// Whether `ZipArchive::by_index` opens entry `index` of the archive read
/// from `data`.
pub uninterp spec fn zip_entry_opens(data: Seq<u8>, index: usize) -> bool;

/// The decompressed content of entry `index` of the archive read from
/// `data`, or `None` where the entry cannot be read to its end.
pub uninterp spec fn zip_entry(data: Seq<u8>, index: usize) -> Option<Seq<u8>>;

/// Why an archive entry could not be had.
enum EntryFailure {
    /// The entry could not be opened.
    Open,
    /// The opened entry could not be read to its end.
    Read,
}

/// Calls `zip::ZipArchive::new` on a cursor over the bytes. Whether it
/// succeeds depends on the bytes alone, and the archive reads from them.
#[verifier::external_body]
fn zip_open(data: Vec<u8>) -> (r: Result<Archive, zip::result::ZipError>)
    ensures
        r is Ok == zip_opens(data@),
        r matches Ok(a) ==> archive_bytes(a) == data@,
{
    zip::ZipArchive::new(std::io::Cursor::new(data))
}

/// Calls `ZipArchive::index_for_path`, which normalizes the path and looks
/// the entry up by name. The result depends on the archive's bytes and the
/// path alone.
#[verifier::external_body]
fn zip_index_for_path(archive: &Archive, path: &str) -> (r: Option<usize>)
    ensures
        r == zip_lookup(archive_bytes(*archive), path@),
{
    archive.index_for_path(path)
}

/// Calls `ZipArchive::by_index` and reads the whole entry with
/// `Read::read_to_end`, telling apart the entry that cannot be opened from
/// the one that cannot be read. The entry is located from the start of the
/// data each time, so the result depends on the archive's bytes and the
/// index alone, and the bytes stay the same.
#[verifier::external_body]
fn zip_read_entry(archive: &mut Archive, index: usize) -> (r: Result<Vec<u8>, EntryFailure>)
    ensures
        archive_bytes(*final(archive)) == archive_bytes(*old(archive)),
        match r {
            Ok(b) => zip_entry_opens(archive_bytes(*old(archive)), index)
                && zip_entry(archive_bytes(*old(archive)), index) == Some(b@),
            Err(EntryFailure::Open) => !zip_entry_opens(archive_bytes(*old(archive)), index),
            Err(EntryFailure::Read) => zip_entry_opens(archive_bytes(*old(archive)), index)
                && zip_entry(archive_bytes(*old(archive)), index) is None,
        },
{
    let mut file = match archive.by_index(index) {
        Ok(file) => file,
        Err(_) => return Err(EntryFailure::Open),
    };
    let mut buf = Vec::new();
    match std::io::Read::read_to_end(&mut file, &mut buf) {
        Ok(_) => Ok(buf),
        Err(_) => Err(EntryFailure::Read),
    }
}

/// Calls `String::from_utf8`, which accepts exactly the valid UTF-8 byte
/// sequences and decodes them.
#[verifier::external_body]
fn utf8_text(bytes: Vec<u8>) -> (r: Option<String>)
    ensures
        r is Some == valid_utf8(bytes@),
        r matches Some(s) ==> s@ == decode_utf8(bytes@),
{
    String::from_utf8(bytes).ok()
}

/// The path of the container document inside an EPUB archive.
pub open spec fn container_path() -> Seq<char> {
    "META-INF/container.xml"@
}

/// The filter for the document's root element: the first element whose
/// parent is the document node.
pub open spec fn root_element_filter() -> NodeFilterView {
    NodeFilterView { parent: Some(0), element: true, name: None, has_attribute: None, attribute_equals: None }
}

/// The filter for a child element of `parent` with the local name `name`
/// that, where `attribute` is given, has that attribute.
pub open spec fn child_filter(parent: int, name: Seq<char>, attribute: Option<Seq<char>>) -> NodeFilterView {
    NodeFilterView {
        parent: Some(parent as usize),
        element: true,
        name: Some(name),
        has_attribute: attribute,
        attribute_equals: None,
    }
}

/// The filter for the nodes directly below the document node.
pub open spec fn top_level_filter() -> NodeFilterView {
    NodeFilterView { parent: Some(0), element: false, name: None, has_attribute: None, attribute_equals: None }
}

/// The filter for a node whose attribute `key` has the value `value`.
pub open spec fn attribute_filter(key: Seq<char>, value: Seq<char>) -> NodeFilterView {
    NodeFilterView { parent: None, element: false, name: None, has_attribute: None, attribute_equals: Some((key, value)) }
}

/// The index of the document's root element.
pub open spec fn root_element_of(nodes: Seq<XmlNodeView>) -> Option<int> {
    first_accepted(nodes, root_element_filter(), 0, nodes.len() as int)
}

/// Where the root element's subtree ends: at the next node directly below
/// the document node, or at the end of the document.
pub open spec fn subtree_end(nodes: Seq<XmlNodeView>, root: int) -> int {
    match first_accepted(nodes, top_level_filter(), root + 1, nodes.len() as int) {
        Some(e) => e,
        None => nodes.len() as int,
    }
}

/// The rootfile's path that a container document names: the `full-path`
/// attribute of the first `rootfile` child that has one, of the first
/// `rootfiles` child of the root element.
pub open spec fn container_rootfile_path(nodes: Seq<XmlNodeView>) -> Option<Seq<char>> {
    match root_element_of(nodes) {
        None => None,
        Some(root) => match first_accepted(nodes, child_filter(root, "rootfiles"@, None), 0, nodes.len() as int) {
            None => None,
            Some(list) => match first_accepted(
                nodes,
                child_filter(list, "rootfile"@, Some("full-path"@)),
                0,
                nodes.len() as int,
            ) {
                None => None,
                Some(entry) => attribute_of(nodes[entry], "full-path"@),
            },
        },
    }
}

/// The item that node `n` designates as the cover: where `n` has the
/// attribute `name="cover"` and a `content` attribute, the first node of the
/// root element's subtree (`root..end`) whose `id` is that content.
pub open spec fn cover_item_of(nodes: Seq<XmlNodeView>, root: int, end: int, n: XmlNodeView) -> Option<int> {
    if attribute_of(n, "name"@) == Some("cover"@) {
        match attribute_of(n, "content"@) {
            None => None,
            Some(id) => first_accepted(nodes, attribute_filter("id"@, id), root, end),
        }
    } else {
        None
    }
}

/// The first cover item that a node in `from..end` designates.
pub open spec fn cover_item_from(nodes: Seq<XmlNodeView>, root: int, end: int, from: int) -> Option<int>
    decreases end - from,
{
    if from < 0 || from >= end || from >= nodes.len() {
        None
    } else {
        match cover_item_of(nodes, root, end, nodes[from]) {
            Some(item) => Some(item),
            None => cover_item_from(nodes, root, end, from + 1),
        }
    }
}

/// The cover's path, relative to the rootfile, that a package document
/// names: the `href` of the item designated by the first node of the root
/// element's subtree that designates one.
pub open spec fn rootfile_cover_href(nodes: Seq<XmlNodeView>) -> Option<Seq<char>> {
    match root_element_of(nodes) {
        None => None,
        Some(root) => match cover_item_from(nodes, root, subtree_end(nodes, root), root) {
            None => None,
            Some(item) => attribute_of(nodes[item], "href"@),
        },
    }
}

/// The first node of the root element's subtree that designates a cover
/// item, and that item.
fn find_cover_item(nodes: &Vec<XmlNode>, root: usize, end: usize) -> (r: Option<usize>)
    requires
        root <= end <= nodes@.len(),
    ensures
        match r {
            Some(i) => cover_item_from(nodes_view(nodes@), root as int, end as int, root as int) == Some(i as int),
            None => cover_item_from(nodes_view(nodes@), root as int, end as int, root as int) is None,
        },
        r matches Some(i) ==> root <= i < end,
{
    let ghost all = nodes_view(nodes@);
    let mut i = root;
    while i < end
        invariant
            root <= i <= end,
            end <= nodes@.len(),
            all == nodes_view(nodes@),
            cover_item_from(all, root as int, end as int, root as int) == cover_item_from(
                all,
                root as int,
                end as int,
                i as int,
            ),
        decreases end - i,
    {
        let node = &nodes[i];
        assert(all[i as int] == node@);
        let name = attribute(node, "name");
        let is_cover = match name {
            Some(v) => crate::text::same_text(v, "cover"),
            None => false,
        };
        if is_cover {
            if let Some(id) = attribute(node, "content") {
                let f = NodeFilter {
                    parent: None,
                    element: false,
                    name: None,
                    has_attribute: None,
                    attribute_equals: Some(("id".to_string(), id.to_string())),
                };
                assert(f@ == attribute_filter("id"@, id@));
                let item = find_node(nodes, &f, root, end);
                if item.is_some() {
                    return item;
                }
            }
        }
        i = i + 1;
    }
    None
}

/// The rootfile's path that a container document names.
pub fn rootfile_path(nodes: &Vec<XmlNode>) -> (r: Option<String>)
    ensures
        match r {
            Some(p) => container_rootfile_path(nodes_view(nodes@)) == Some(p@),
            None => container_rootfile_path(nodes_view(nodes@)) is None,
        },
{
    let ghost all = nodes_view(nodes@);
    let n = nodes.len();
    let root_filter = NodeFilter { parent: Some(0), element: true, name: None, has_attribute: None, attribute_equals: None };
    let root = match find_node(nodes, &root_filter, 0, n) {
        Some(root) => root,
        None => {
            return None;
        },
    };
    let list_filter = NodeFilter {
        parent: Some(root),
        element: true,
        name: Some("rootfiles".to_string()),
        has_attribute: None,
        attribute_equals: None,
    };
    assert(list_filter@ == child_filter(root as int, "rootfiles"@, None));
    let list = match find_node(nodes, &list_filter, 0, n) {
        Some(list) => list,
        None => {
            return None;
        },
    };
    let entry_filter = NodeFilter {
        parent: Some(list),
        element: true,
        name: Some("rootfile".to_string()),
        has_attribute: Some("full-path".to_string()),
        attribute_equals: None,
    };
    assert(entry_filter@ == child_filter(list as int, "rootfile"@, Some("full-path"@)));
    let entry = match find_node(nodes, &entry_filter, 0, n) {
        Some(entry) => entry,
        None => {
            return None;
        },
    };
    assert(all[entry as int] == nodes@[entry as int]@);
    match attribute(&nodes[entry], "full-path") {
        Some(v) => Some(v.to_string()),
        None => None,
    }
}

/// The cover's path, relative to the rootfile, that a package document names.
pub fn cover_href(nodes: &Vec<XmlNode>) -> (r: Option<String>)
    ensures
        match r {
            Some(h) => rootfile_cover_href(nodes_view(nodes@)) == Some(h@),
            None => rootfile_cover_href(nodes_view(nodes@)) is None,
        },
{
    let ghost all = nodes_view(nodes@);
    let n = nodes.len();
    let root_filter = NodeFilter { parent: Some(0), element: true, name: None, has_attribute: None, attribute_equals: None };
    let root = match find_node(nodes, &root_filter, 0, n) {
        Some(root) => root,
        None => {
            return None;
        },
    };
    let top_filter = NodeFilter { parent: Some(0), element: false, name: None, has_attribute: None, attribute_equals: None };
    let end = if root < n {
        match find_node(nodes, &top_filter, root + 1, n) {
            Some(e) => e,
            None => n,
        }
    } else {
        n
    };
    assert(end as int == subtree_end(all, root as int));
    let item = match find_cover_item(nodes, root, end) {
        Some(item) => item,
        None => {
            return None;
        },
    };
    assert(all[item as int] == nodes@[item as int]@);
    match attribute(&nodes[item], "href") {
        Some(v) => Some(v.to_string()),
        None => None,
    }
}

/// What reading the archive entry at `path` as an XML document gives, with
/// the error for each step that can fail.
pub open spec fn xml_entry_outcome(
    data: Seq<u8>,
    path: Seq<char>,
    missing: EpubError,
    unopenable: EpubError,
    unreadable: EpubError,
    malformed: EpubError,
) -> Result<Seq<XmlNodeView>, EpubError> {
    match zip_lookup(data, path) {
        None => Err(missing),
        Some(index) => if !zip_entry_opens(data, index) {
            Err(unopenable)
        } else {
            match zip_entry(data, index) {
                None => Err(unreadable),
                Some(bytes) => if !valid_utf8(bytes) {
                    Err(unreadable)
                } else {
                    match xml_document(decode_utf8(bytes)) {
                        None => Err(malformed),
                        Some(nodes) => Ok(nodes),
                    }
                },
            }
        },
    }
}

/// The path of the cover entry: the cover's reference, taken relative to
/// the directory of the rootfile.
pub open spec fn cover_entry_path(rootfile: Seq<char>, href: Seq<char>) -> Option<Seq<char>> {
    match path_parent_of(rootfile) {
        None => None,
        Some(dir) => Some(path_join_of(dir, href)),
    }
}

/// What retrieving the cover of the EPUB book held in `data` gives: the
/// decoded cover, or the step that failed.
pub open spec fn epub_cover_outcome(data: Seq<u8>) -> Result<ImageModel, EpubError> {
    if !zip_opens(data) {
        Err(EpubError::Archive)
    } else {
        match xml_entry_outcome(
            data,
            container_path(),
            EpubError::ContainerIndex,
            EpubError::ContainerOpen,
            EpubError::ContainerRead,
            EpubError::ContainerXml,
        ) {
            Err(e) => Err(e),
            Ok(container) => match container_rootfile_path(container) {
                None => Err(EpubError::RootfilePath),
                Some(rootfile) => match xml_entry_outcome(
                    data,
                    rootfile,
                    EpubError::RootfileIndex,
                    EpubError::RootfileOpen,
                    EpubError::RootfileRead,
                    EpubError::RootfileXml,
                ) {
                    Err(e) => Err(e),
                    Ok(package) => match rootfile_cover_href(package) {
                        None => Err(EpubError::CoverPath),
                        Some(href) => match cover_entry_path(rootfile, href) {
                            None => Err(EpubError::RootfileParent),
                            Some(cover) => match zip_lookup(data, cover) {
                                None => Err(EpubError::CoverIndex),
                                Some(index) => if !zip_entry_opens(data, index) {
                                    Err(EpubError::CoverOpen)
                                } else {
                                    match zip_entry(data, index) {
                                        None => Err(EpubError::CoverRead),
                                        Some(bytes) => match decoded_image(bytes) {
                                            None => Err(EpubError::CoverDecode),
                                            Some(cover) => Ok(cover),
                                        },
                                    }
                                },
                            },
                        },
                    },
                },
            },
        }
    }
}

/// Reads the archive entry at `path` as an XML document.
fn read_xml_entry(
    archive: &mut Archive,
    path: &str,
    missing: EpubError,
    unopenable: EpubError,
    unreadable: EpubError,
    malformed: EpubError,
) -> (r: Result<Vec<XmlNode>, EpubError>)
    ensures
        archive_bytes(*final(archive)) == archive_bytes(*old(archive)),
        match r {
            Ok(nodes) => xml_entry_outcome(archive_bytes(*old(archive)), path@, missing, unopenable, unreadable, malformed)
                == Ok::<Seq<XmlNodeView>, EpubError>(nodes_view(nodes@)),
            Err(e) => xml_entry_outcome(archive_bytes(*old(archive)), path@, missing, unopenable, unreadable, malformed)
                == Err::<Seq<XmlNodeView>, EpubError>(e),
        },
{
    let index = match zip_index_for_path(archive, path) {
        Some(index) => index,
        None => {
            return Err(missing);
        },
    };
    let bytes = match zip_read_entry(archive, index) {
        Ok(bytes) => bytes,
        Err(EntryFailure::Open) => {
            return Err(unopenable);
        },
        Err(EntryFailure::Read) => {
            return Err(unreadable);
        },
    };
    let text = match utf8_text(bytes) {
        Some(text) => text,
        None => {
            return Err(unreadable);
        },
    };
    match parse_xml(text.as_str()) {
        Some(nodes) => Ok(nodes),
        None => Err(malformed),
    }
}

/// Retrieves the cover of the EPUB book held in `data`: the container names
/// the rootfile, the rootfile's metadata names the cover item, and the
/// item's entry, relative to the rootfile's directory, is decoded as an
/// image.
pub fn retrieve_epub_cover(data: Vec<u8>) -> (r: Result<Picture, EpubError>)
    ensures
        match r {
            Ok(p) => epub_cover_outcome(data@) == Ok::<ImageModel, EpubError>(p@),
            Err(e) => epub_cover_outcome(data@) == Err::<ImageModel, EpubError>(e),
        },
        r matches Ok(p) ==> p@.layout != ColorLayout::Other,
{
    let ghost bytes = data@;
    let mut archive = match zip_open(data) {
        Ok(archive) => archive,
        Err(_) => {
            return Err(EpubError::Archive);
        },
    };
    let container = read_xml_entry(
        &mut archive,
        "META-INF/container.xml",
        EpubError::ContainerIndex,
        EpubError::ContainerOpen,
        EpubError::ContainerRead,
        EpubError::ContainerXml,
    )?;
    let rootfile = match rootfile_path(&container) {
        Some(p) => p,
        None => {
            return Err(EpubError::RootfilePath);
        },
    };
    let package = read_xml_entry(
        &mut archive,
        rootfile.as_str(),
        EpubError::RootfileIndex,
        EpubError::RootfileOpen,
        EpubError::RootfileRead,
        EpubError::RootfileXml,
    )?;
    let href = match cover_href(&package) {
        Some(h) => h,
        None => {
            return Err(EpubError::CoverPath);
        },
    };
    let dir = match path_parent(rootfile.as_str()) {
        Some(d) => d,
        None => {
            return Err(EpubError::RootfileParent);
        },
    };
    let cover = path_join(dir.as_str(), href.as_str());
    let index = match zip_index_for_path(&archive, cover.as_str()) {
        Some(index) => index,
        None => {
            return Err(EpubError::CoverIndex);
        },
    };
    let image_bytes = match zip_read_entry(&mut archive, index) {
        Ok(b) => b,
        Err(EntryFailure::Open) => {
            return Err(EpubError::CoverOpen);
        },
        Err(EntryFailure::Read) => {
            return Err(EpubError::CoverRead);
        },
    };
    match decode_picture(image_bytes.as_slice()) {
        Ok(p) => Ok(p),
        Err(_) => Err(EpubError::CoverDecode),
    }
}

/// The first node in `from..end` that a filter accepts is `j` when `j`
/// is accepted and no node before it in the range is.
proof fn lemma_first_accepted_at(nodes: Seq<XmlNodeView>, f: NodeFilterView, from: int, end: int, j: int)
    requires
        0 <= from <= j < end <= nodes.len(),
        accepts(f, nodes[j]),
        forall|m: int| from <= m < j ==> !accepts(f, #[trigger] nodes[m]),
    ensures
        first_accepted(nodes, f, from, end) == Some(j),
    decreases j - from,
{
    if from < j {
        lemma_first_accepted_at(nodes, f, from + 1, end, j);
    }
}

/// No node in `from..end` is found when the filter accepts none of them.
proof fn lemma_first_accepted_none(nodes: Seq<XmlNodeView>, f: NodeFilterView, from: int, end: int)
    requires
        0 <= from,
        end <= nodes.len(),
        forall|m: int| from <= m < end ==> !accepts(f, #[trigger] nodes[m]),
    ensures
        first_accepted(nodes, f, from, end) is None,
    decreases end - from,
{
    if from < end {
        lemma_first_accepted_none(nodes, f, from + 1, end);
    }
}

/// The first node in `from..end` that designates an item gives that item.
proof fn lemma_cover_item_from_at(nodes: Seq<XmlNodeView>, root: int, end: int, from: int, k: int)
    requires
        0 <= from <= k < end <= nodes.len(),
        cover_item_of(nodes, root, end, nodes[k]) is Some,
        forall|i: int| from <= i < k ==> cover_item_of(nodes, root, end, #[trigger] nodes[i]) is None,
    ensures
        cover_item_from(nodes, root, end, from) == cover_item_of(nodes, root, end, nodes[k]),
    decreases k - from,
{
    if from < k {
        lemma_cover_item_from_at(nodes, root, end, from + 1, k);
    }
}

/// Where no node in `from..end` designates an item, none is found.
proof fn lemma_cover_item_from_none(nodes: Seq<XmlNodeView>, root: int, end: int, from: int)
    requires
        0 <= from,
        end <= nodes.len(),
        forall|i: int| from <= i < end ==> cover_item_of(nodes, root, end, #[trigger] nodes[i]) is None,
    ensures
        cover_item_from(nodes, root, end, from) is None,
    decreases end - from,
{
    if from < end {
        lemma_cover_item_from_none(nodes, root, end, from + 1);
    }
}

/// A node `n` designates an existing item of `root..end` when it has
/// `name="cover"` and a `content` that is the `id` of a node of the range.
pub open spec fn designates_item(nodes: Seq<XmlNodeView>, root: int, end: int, n: XmlNodeView) -> bool {
    &&& attribute_of(n, "name"@) == Some("cover"@)
    &&& attribute_of(n, "content"@) is Some
    &&& exists|m: int| root <= m < end && #[trigger] attribute_of(nodes[m], "id"@) == attribute_of(n, "content"@)
}

/// A node designates an item exactly when it has `name="cover"` and its
/// `content` is the `id` of a node of the subtree; the item it designates
/// is the first node of the subtree with that `id`, whatever nodes with
/// other ids come before it.
proof fn lemma_cover_item_of_node(nodes: Seq<XmlNodeView>, root: int, end: int, n: XmlNodeView)
    requires
        0 <= root <= end <= nodes.len(),
    ensures
        cover_item_of(nodes, root, end, n) is Some <==> designates_item(nodes, root, end, n),
        forall|j: int|
            root <= j < end && attribute_of(nodes[j], "id"@) == attribute_of(n, "content"@) && (forall|i: int|
                root <= i < j ==> attribute_of(#[trigger] nodes[i], "id"@) != attribute_of(n, "content"@))
                && designates_item(nodes, root, end, n) ==> cover_item_of(nodes, root, end, n) == Some(j),
{
    if attribute_of(n, "name"@) == Some("cover"@) {
        if let Some(id) = attribute_of(n, "content"@) {
            let f = attribute_filter("id"@, id);
            assert forall|m: int| #![trigger nodes[m]] root <= m < end implies (accepts(f, nodes[m]) <==> attribute_of(nodes[m], "id"@) == Some(id)) by {
            }
            if designates_item(nodes, root, end, n) {
                let m = choose|m: int| root <= m < end && #[trigger] attribute_of(nodes[m], "id"@) == Some(id);
                assert(accepts(f, nodes[m]));
                assert(first_accepted(nodes, f, root, end) is Some) by {
                    if first_accepted(nodes, f, root, end) is None {
                        lemma_first_exists(nodes, f, root, m);
                        let j1 = choose|j: int| root <= j <= m && accepts(f, #[trigger] nodes[j]) && forall|i: int| root <= i < j ==> !accepts(f, #[trigger] nodes[i]);
                        lemma_first_accepted_at(nodes, f, root, end, j1);
                    }
                }
                assert forall|j: int|
                    root <= j < end && attribute_of(nodes[j], "id"@) == Some(id) && (forall|i: int|
                        root <= i < j ==> attribute_of(#[trigger] nodes[i], "id"@) != Some(id)) implies cover_item_of(nodes, root, end, n) == Some(j) by {
                    lemma_first_accepted_at(nodes, f, root, end, j);
                }
            } else {
                lemma_first_accepted_none(nodes, f, root, end);
            }
        }
    }
}

/// Some node accepted in `from..=m` has a first one.
proof fn lemma_first_exists(nodes: Seq<XmlNodeView>, f: NodeFilterView, from: int, m: int)
    requires
        0 <= from <= m < nodes.len(),
        accepts(f, nodes[m]),
    ensures
        exists|j: int| from <= j <= m && accepts(f, #[trigger] nodes[j]) && forall|i: int| from <= i < j ==> !accepts(f, #[trigger] nodes[i]),
    decreases m - from,
{
    if !accepts(f, nodes[from]) {
        lemma_first_exists(nodes, f, from + 1, m);
        let j = choose|j: int| from + 1 <= j <= m && accepts(f, #[trigger] nodes[j]) && forall|i: int| from + 1 <= i < j ==> !accepts(f, #[trigger] nodes[i]);
        assert(forall|i: int| from <= i < j ==> !accepts(f, #[trigger] nodes[i]));
    } else {
        assert(forall|i: int| from <= i < from ==> !accepts(f, #[trigger] nodes[i]));
    }
}

/// The cover item found in a subtree is the one designated by the first
/// node with `name="cover"` whose `content` is the `id` of some node of the
/// subtree, whatever other nodes (other `meta` elements, nodes with other
/// ids) come before either; the item is the first node with that `id`.
pub proof fn lemma_cover_item_is_first_designated(nodes: Seq<XmlNodeView>, root: int, end: int, k: int, j: int)
    requires
        0 <= root <= k < end <= nodes.len(),
        root <= j < end,
        attribute_of(nodes[k], "name"@) == Some("cover"@),
        attribute_of(nodes[k], "content"@) is Some,
        attribute_of(nodes[j], "id"@) == attribute_of(nodes[k], "content"@),
        forall|i: int| root <= i < j ==> attribute_of(#[trigger] nodes[i], "id"@) != attribute_of(nodes[k], "content"@),
        forall|i: int| root <= i < k ==> !designates_item(nodes, root, end, #[trigger] nodes[i]),
    ensures
        cover_item_from(nodes, root, end, root) == Some(j),
{
    assert(designates_item(nodes, root, end, nodes[k]));
    lemma_cover_item_of_node(nodes, root, end, nodes[k]);
    assert forall|i: int| root <= i < k implies cover_item_of(nodes, root, end, #[trigger] nodes[i]) is None by {
        lemma_cover_item_of_node(nodes, root, end, nodes[i]);
    }
    lemma_cover_item_from_at(nodes, root, end, root, k);
}

/// Where no node of the subtree designates an item of it, no cover item is
/// found.
pub proof fn lemma_no_cover_item(nodes: Seq<XmlNodeView>, root: int, end: int)
    requires
        0 <= root <= end <= nodes.len(),
        forall|i: int| root <= i < end ==> !designates_item(nodes, root, end, #[trigger] nodes[i]),
    ensures
        cover_item_from(nodes, root, end, root) is None,
{
    assert forall|i: int| root <= i < end implies cover_item_of(nodes, root, end, #[trigger] nodes[i]) is None by {
        lemma_cover_item_of_node(nodes, root, end, nodes[i]);
    }
    lemma_cover_item_from_none(nodes, root, end, root);
}

/// The cover's reference that a package document names is the `href` of
/// the first node of the root element's subtree whose `id` is the `content`
/// of the first node of the subtree with `name="cover"` that designates an
/// item.
pub proof fn lemma_cover_href_of_first_designated(nodes: Seq<XmlNodeView>, root: int, k: int, j: int)
    requires
        root_element_of(nodes) == Some(root),
        root <= k < subtree_end(nodes, root),
        root <= j < subtree_end(nodes, root),
        attribute_of(nodes[k], "name"@) == Some("cover"@),
        attribute_of(nodes[k], "content"@) is Some,
        attribute_of(nodes[j], "id"@) == attribute_of(nodes[k], "content"@),
        forall|i: int| root <= i < j ==> attribute_of(#[trigger] nodes[i], "id"@) != attribute_of(nodes[k], "content"@),
        forall|i: int| root <= i < k ==> !designates_item(nodes, root, subtree_end(nodes, root), #[trigger] nodes[i]),
    ensures
        rootfile_cover_href(nodes) == attribute_of(nodes[j], "href"@),
{
    lemma_first_accepted_bounds(nodes, root_element_filter(), 0, nodes.len() as int);
    lemma_first_accepted_bounds(nodes, top_level_filter(), root + 1, nodes.len() as int);
    lemma_cover_item_is_first_designated(nodes, root, subtree_end(nodes, root), k, j);
}

/// What a filter finds lies in the range searched.
proof fn lemma_first_accepted_bounds(nodes: Seq<XmlNodeView>, f: NodeFilterView, from: int, end: int)
    ensures
        first_accepted(nodes, f, from, end) matches Some(i) ==> from <= i < end && i < nodes.len() && 0 <= i,
    decreases end - from,
{
    if !(from < 0 || from >= end || from >= nodes.len()) && !accepts(f, nodes[from]) {
        lemma_first_accepted_bounds(nodes, f, from + 1, end);
    }
}

/// The rootfile's path that a container document names is the `full-path`
/// of the first `rootfile` element that has one among the children of the
/// first `rootfiles` element among the children of the root element (the
/// first element directly below the document node), whatever other
/// elements and `rootfile` entries without a path come before it.
pub proof fn lemma_rootfile_path_of_first_entry(nodes: Seq<XmlNodeView>, root: int, list: int, entry: int)
    requires
        0 <= root < nodes.len(),
        0 <= list < nodes.len(),
        0 <= entry < nodes.len(),
        nodes[root].is_element && nodes[root].parent == Some(0usize),
        forall|i: int| 0 <= i < root ==> !(#[trigger] nodes[i].is_element && nodes[i].parent == Some(0usize)),
        nodes[list].is_element && nodes[list].name == "rootfiles"@ && nodes[list].parent == Some(root as usize),
        forall|i: int|
            0 <= i < list ==> !(#[trigger] nodes[i].is_element && nodes[i].name == "rootfiles"@ && nodes[i].parent
                == Some(root as usize)),
        nodes[entry].is_element && nodes[entry].name == "rootfile"@ && nodes[entry].parent == Some(list as usize),
        attribute_of(nodes[entry], "full-path"@) is Some,
        forall|i: int|
            0 <= i < entry ==> !(#[trigger] nodes[i].is_element && nodes[i].name == "rootfile"@ && nodes[i].parent
                == Some(list as usize) && attribute_of(nodes[i], "full-path"@) is Some),
    ensures
        container_rootfile_path(nodes) == attribute_of(nodes[entry], "full-path"@),
{
    let n = nodes.len() as int;
    lemma_first_accepted_at(nodes, root_element_filter(), 0, n, root);
    let lf = child_filter(root, "rootfiles"@, None);
    assert forall|m: int| 0 <= m < list implies !accepts(lf, #[trigger] nodes[m]) by {
        assert(!(nodes[m].is_element && nodes[m].name == "rootfiles"@ && nodes[m].parent == Some(root as usize)));
    }
    lemma_first_accepted_at(nodes, lf, 0, n, list);
    let ef = child_filter(list, "rootfile"@, Some("full-path"@));
    assert forall|m: int| 0 <= m < entry implies !accepts(ef, #[trigger] nodes[m]) by {
        assert(!(nodes[m].is_element && nodes[m].name == "rootfile"@ && nodes[m].parent == Some(list as usize)
            && attribute_of(nodes[m], "full-path"@) is Some));
    }
    lemma_first_accepted_at(nodes, ef, 0, n, entry);
}

/// A container document whose root element has no `rootfiles` child names
/// no rootfile.
pub proof fn lemma_no_rootfiles_no_path(nodes: Seq<XmlNodeView>, root: int)
    requires
        root_element_of(nodes) == Some(root),
        forall|i: int|
            0 <= i < nodes.len() ==> !(#[trigger] nodes[i].is_element && nodes[i].name == "rootfiles"@
                && nodes[i].parent == Some(root as usize)),
    ensures
        container_rootfile_path(nodes) is None,
{
    let lf = child_filter(root, "rootfiles"@, None);
    assert forall|m: int| 0 <= m < nodes.len() implies !accepts(lf, #[trigger] nodes[m]) by {
        assert(!(nodes[m].is_element && nodes[m].name == "rootfiles"@ && nodes[m].parent == Some(root as usize)));
    }
    lemma_first_accepted_none(nodes, lf, 0, nodes.len() as int);
}

} // verus!
