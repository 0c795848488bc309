use rspdf::RsPdf;
use rspdf::font::FontError;
use rspdf::page::{OrientationType, Page};
use rspdf::page_format::PageFormat;

/// A smallest well-formed TrueType font: the offset table and the three
/// required tables (`head`, `hhea`, `maxp`), 156 bytes in all.
/// Metrics: units per em 1000, ascender 800, descender -200, bounding
/// box (-50, -200, 1000, 800), no OS/2 table (so no capital height) and
/// no post table (so italic angle 0).
fn minimal_font() -> Vec<u8> {
    let mut d = vec![0u8; 156];
    d[0..4].copy_from_slice(&[0x00, 0x01, 0x00, 0x00]);
    d[4..6].copy_from_slice(&[0x00, 0x03]);
    d[12..16].copy_from_slice(&[0x68, 0x65, 0x61, 0x64]); // head
    d[20..24].copy_from_slice(&60u32.to_be_bytes());
    d[24..28].copy_from_slice(&54u32.to_be_bytes());
    d[28..32].copy_from_slice(&[0x68, 0x68, 0x65, 0x61]); // hhea
    d[36..40].copy_from_slice(&114u32.to_be_bytes());
    d[40..44].copy_from_slice(&36u32.to_be_bytes());
    d[44..48].copy_from_slice(&[0x6d, 0x61, 0x78, 0x70]); // maxp
    d[52..56].copy_from_slice(&150u32.to_be_bytes());
    d[56..60].copy_from_slice(&6u32.to_be_bytes());
    // head table at 60
    d[78..80].copy_from_slice(&1000u16.to_be_bytes()); // units per em
    d[96..98].copy_from_slice(&(-50i16 as u16).to_be_bytes()); // x min
    d[98..100].copy_from_slice(&(-200i16 as u16).to_be_bytes()); // y min
    d[100..102].copy_from_slice(&1000u16.to_be_bytes()); // x max
    d[102..104].copy_from_slice(&800u16.to_be_bytes()); // y max
    // index-to-location format at 110..112 stays zero
    // hhea table at 114
    d[118..120].copy_from_slice(&800u16.to_be_bytes()); // ascender
    d[120..122].copy_from_slice(&(-200i16 as u16).to_be_bytes()); // descender
    d[148..150].copy_from_slice(&1u16.to_be_bytes()); // number of metrics
    // maxp table at 150
    d[150..154].copy_from_slice(&0x00005000u32.to_be_bytes());
    d[154..156].copy_from_slice(&1u16.to_be_bytes());
    d
}

fn find(haystack: &[u8], needle: &[u8], from: usize) -> Option<usize> {
    if needle.is_empty() || haystack.len() < needle.len() {
        return None;
    }
    let mut i = from;
    while i + needle.len() <= haystack.len() {
        if &haystack[i..i + needle.len()] == needle {
            return Some(i);
        }
        i += 1;
    }
    None
}

fn count(haystack: &[u8], needle: &[u8]) -> usize {
    let mut n = 0;
    let mut at = 0;
    while let Some(i) = find(haystack, needle, at) {
        n += 1;
        at = i + 1;
    }
    n
}

#[test]
fn first_registration_is_named_f1() {
    let mut pdf = RsPdf::new("fonts");
    let name = pdf.add_font(&minimal_font()).unwrap();
    assert_eq!(name, "F1");
    let font = pdf.get_font("F1").unwrap();
    assert_eq!(font.name, "F1");
    assert_eq!(font.units_per_em, 1000);
    assert_eq!(font.height_units, 1000);
    assert!(pdf.get_font("F9").is_none());
}

#[test]
fn malformed_font_is_rejected() {
    let mut pdf = RsPdf::new("fonts");
    assert_eq!(pdf.add_font(&[1, 2, 3]), Err(FontError::ParseFailed));
    assert_eq!(pdf.add_font(&[]), Err(FontError::ParseFailed));
}

#[test]
fn failed_parse_consumes_no_ordinal() {
    // Second registration fails; the third still receives the second
    // ordinal's short name.
    let mut pdf = RsPdf::new("fonts");
    assert_eq!(pdf.add_font(&minimal_font()).unwrap(), "F1");
    assert_eq!(pdf.add_font(&[0xde, 0xad]), Err(FontError::ParseFailed));
    assert_eq!(pdf.add_font(&minimal_font()).unwrap(), "F2");
}

#[test]
fn failed_parse_emits_nothing() {
    let mut pdf = RsPdf::new("fonts");
    assert_eq!(pdf.add_font(&[9, 9, 9]), Err(FontError::ParseFailed));
    assert_eq!(pdf.add_font(&minimal_font()).unwrap(), "F1");
    let out = pdf.build().unwrap();
    // Five objects: three for the font, the catalog, the pages root.
    assert_eq!(count(&out, b" 0 obj\n"), 5);
    assert!(find(&out, b"xref 0 6\n", 0).is_some());
}

#[test]
fn single_page_single_font_document_has_seven_objects() {
    let mut pdf = RsPdf::new("fonts");
    pdf.add_font(&minimal_font()).unwrap();
    pdf.add_page(Page::new(OrientationType::Portrait, PageFormat::A4.get_format())).unwrap();
    let out = pdf.build().unwrap();
    assert_eq!(count(&out, b" 0 obj\n"), 7);
    assert!(find(&out, b"xref 0 8\n", 0).is_some());
    assert!(find(&out, b"/Size 8 >>", 0).is_some());
    assert!(find(&out, b"/Font << /F1 1 0 R  >>", 0).is_some());
}

#[test]
fn descriptor_carries_parsed_metrics() {
    let mut pdf = RsPdf::new("fonts");
    pdf.add_font(&minimal_font()).unwrap();
    let out = pdf.build().unwrap();
    let descriptor = b"<< /Type /FontDescriptor /FontName /F1 /Flags 32 \
/FontBBox [ -50 -200 1000 800 ] /ItalicAngle 0 /Ascent 800 /Descent -200 \
/CapHeight 800 /StemV 80 /FontFile2 3 0 R >>";
    assert!(find(&out, descriptor, 0).is_some());
}

#[test]
fn font_stream_declares_exact_length() {
    let data = minimal_font();
    let mut pdf = RsPdf::new("fonts");
    pdf.add_font(&data).unwrap();
    let out = pdf.build().unwrap();
    let head = format!("3 0 obj\n<< /Length {} >>\nstream\n", data.len());
    let at = find(&out, head.as_bytes(), 0).unwrap();
    let payload_start = at + head.len();
    let payload = &out[payload_start..payload_start + data.len()];
    assert_eq!(payload, data.as_slice());
    let after = &out[payload_start + data.len()..payload_start + data.len() + 11];
    assert_eq!(after, b"\nendstream\n");
}

#[test]
fn registration_after_build_is_rejected() {
    let mut pdf = RsPdf::new("fonts");
    pdf.build().unwrap();
    assert_eq!(pdf.add_font(&minimal_font()), Err(FontError::InvalidState));
}
