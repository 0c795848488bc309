use rspdf::{BuildError, RsPdf};
use rspdf::meta_data::MetaData;
use rspdf::page::{OrientationType, Page};
use rspdf::page_format::{PageFormat, PageSize};
use rspdf::units::Pt;

fn find(haystack: &[u8], needle: &[u8], from: usize) -> Option<usize> {
    if needle.is_empty() || haystack.len() < needle.len() {
        return None;
    }
    let mut i = from;
    while i + needle.len() <= haystack.len() {
        if &haystack[i..i + needle.len()] == needle {
            return Some(i);
        }
        i += 1;
    }
    None
}

#[test]
fn empty_document_exact_bytes() {
    // No pages and no fonts still produce a structurally complete
    // document: catalog, empty pages root, table and trailer.
    let mut pdf = RsPdf::new("empty");
    let out = pdf.build().unwrap();

    let header = "%PDF-1.3\n";
    let catalog = "1 0 obj\n<< /Type /Catalog /Pages 2 0 R >>\nendobj\n";
    let root = "2 0 obj\n<< /Type /Pages /Kids [] /Count 0 >>\nendobj\n";
    let xref_start = header.len() + catalog.len() + root.len();
    let expected = format!(
        "{}{}{}xref 0 3\n0000000000 65535 f\n{:010} 00000 n\n{:010} 00000 n\ntrailer\n<< /Root 1 0 R /Size 3 >>\nstartxref\n{}\n%%EOF",
        header,
        catalog,
        root,
        header.len(),
        header.len() + catalog.len(),
        xref_start,
    );
    assert_eq!(out, expected.into_bytes());
}

#[test]
fn kids_follow_insertion_order() {
    let mut pdf = RsPdf::new("pages");
    pdf.add_page(Page::new(OrientationType::Portrait, PageFormat::A4.get_format())).unwrap();
    pdf.add_page(Page::new(OrientationType::Portrait, PageFormat::Tabloid.get_format())).unwrap();
    let out = pdf.build().unwrap();
    // Catalog is 1, pages root is 2; the pages take 3 and 5, their
    // content streams 4 and 6.
    assert!(find(&out, b"/Kids [3 0 R 5 0 R] /Count 2", 0).is_some());
    assert!(find(&out, b"3 0 obj\n<< /Type /Page /Parent 2 0 R", 0).is_some());
    assert!(find(&out, b"5 0 obj\n<< /Type /Page /Parent 2 0 R", 0).is_some());
}

#[test]
fn xref_entries_point_at_their_objects() {
    let mut pdf = RsPdf::new("offsets");
    pdf.add_page(Page::new(OrientationType::Portrait, PageFormat::Letter.get_format())).unwrap();
    pdf.add_page(Page::new(OrientationType::Landscape, PageFormat::A5.get_format())).unwrap();
    let out = pdf.build().unwrap();

    let table = find(&out, b"xref 0 7\n0000000000 65535 f\n", 0).unwrap()
        + b"xref 0 7\n0000000000 65535 f\n".len();
    // Offsets are recorded in emission order: the catalog, the two
    // pages with their content streams, then the pages root, which was
    // allocated second but is emitted after the pages it references.
    let emitted_objects = [1usize, 3, 4, 5, 6, 2];
    for (position, object_number) in emitted_objects.iter().enumerate() {
        let entry = table + position * 19;
        let digits = std::str::from_utf8(&out[entry..entry + 10]).unwrap();
        let offset: usize = digits.parse().unwrap();
        assert_eq!(&out[entry + 10..entry + 19], b" 00000 n\n");
        let opening = format!("{} 0 obj\n", object_number);
        assert_eq!(&out[offset..offset + opening.len()], opening.as_bytes());
    }
}

#[test]
fn build_is_single_use() {
    let mut pdf = RsPdf::new("once");
    assert!(pdf.build().is_ok());
    assert_eq!(pdf.build(), Err(BuildError::InvalidState));
}

#[test]
fn add_page_after_build_is_rejected() {
    let mut pdf = RsPdf::new("frozen");
    pdf.build().unwrap();
    let page = Page::new(OrientationType::Portrait, PageFormat::A4.get_format());
    assert_eq!(pdf.add_page(page), Err(BuildError::InvalidState));
}

#[test]
fn version_header_is_written_at_construction() {
    let pdf = RsPdf::new("header");
    assert!(pdf.document.starts_with(b"%PDF-1.3\n"));

    let meta = MetaData::new("header", "someone", "1.4");
    let pdf = RsPdf::new_with_meta_data(meta);
    assert!(pdf.document.starts_with(b"%PDF-1.4\n"));
}

#[test]
fn media_box_trims_fraction_digits() {
    let mut pdf = RsPdf::new("sizes");
    pdf.add_page(Page::new(OrientationType::Portrait, PageFormat::A4.get_format())).unwrap();
    pdf.add_page(Page::new(OrientationType::Portrait, PageFormat::Letter.get_format())).unwrap();
    pdf.add_page(Page::new(
        OrientationType::Portrait,
        PageSize::new(Pt(10050), Pt(20010)).unwrap(),
    ))
        .unwrap();
    let out = pdf.build().unwrap();
    assert!(find(&out, b"/MediaBox [0 0 595.28 841.89]", 0).is_some());
    assert!(find(&out, b"/MediaBox [0 0 612 792]", 0).is_some());
    assert!(find(&out, b"/MediaBox [0 0 100.5 200.1]", 0).is_some());
}

#[test]
fn content_streams_declare_exact_lengths() {
    let mut pdf = RsPdf::new("streams");
    let mut page = Page::new(OrientationType::Portrait, PageFormat::A4.get_format());
    page.add_content(vec![0x42, 0x54, 0x0a]);
    page.add_content(vec![0x45, 0x54, 0x0a]);
    pdf.add_page(page).unwrap();
    let out = pdf.build().unwrap();
    let head = b"4 0 obj\n<< /Length 6 >>\nstream\n";
    let at = find(&out, head, 0).unwrap() + head.len();
    assert_eq!(&out[at..at + 6], &[0x42, 0x54, 0x0a, 0x45, 0x54, 0x0a]);
    assert_eq!(&out[at + 6..at + 17], b"\nendstream\n");
}
