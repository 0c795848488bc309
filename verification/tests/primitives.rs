use rspdf::font::Font;
use rspdf::line::Line;
use rspdf::meta_data::MetaData;
use rspdf::page::{OrientationType, Page};
use rspdf::page_format::{PageFormat, PageSize, PageSizeError};
use rspdf::paper_format::PaperFormat;
use rspdf::reference::Ref;
use rspdf::text::Text;
use rspdf::types::{Point, RGB};
use rspdf::units::Pt;

fn helvetica_like() -> Font {
    Font { name: String::from("F1"), font_ref: Ref::new(1), height_units: 1000, units_per_em: 1000 }
}

#[test]
fn landscape_swaps_width_and_height() {
    // 210 by 297 points, as hundredths.
    let size = PageSize::new(Pt(21000), Pt(29700)).unwrap();
    let page = Page::new(OrientationType::Landscape, size);
    assert_eq!(page.size().width_value(), 29700);
    assert_eq!(page.size().height_value(), 21000);

    let page = Page::new(OrientationType::Portrait, size);
    assert_eq!(page.size().width_value(), 21000);
    assert_eq!(page.size().height_value(), 29700);
}

#[test]
fn rotation_follows_orientation() {
    assert_eq!(OrientationType::Portrait.rotate(), 0);
    assert_eq!(OrientationType::Landscape.rotate(), 90);
}

#[test]
fn page_size_rejects_non_positive_dimensions() {
    assert_eq!(PageSize::new(Pt(0), Pt(100)), Err(PageSizeError::InvalidWidth(Pt(0))));
    assert_eq!(PageSize::new(Pt(-7), Pt(100)), Err(PageSizeError::InvalidWidth(Pt(-7))));
    assert_eq!(PageSize::new(Pt(100), Pt(0)), Err(PageSizeError::InvalidHeight(Pt(0))));
    let ok = PageSize::new(Pt(100), Pt(200)).unwrap();
    assert_eq!(ok.width(), Pt(100));
    assert_eq!(ok.height(), Pt(200));
    assert_eq!(PageSize::new_with_const(Pt(-1), Pt(0)).inverse(), PageSize::new_with_const(Pt(0), Pt(-1)));
}

#[test]
fn page_formats_match_their_tables() {
    let a4 = PageFormat::A4.get_format();
    assert_eq!((a4.width_value(), a4.height_value()), (59528, 84189));
    let tabloid = PageFormat::Tabloid.get_format();
    assert_eq!((tabloid.width_value(), tabloid.height_value()), (79200, 122400));
    let government = PageFormat::GovernmentLetter.get_format();
    assert_eq!((government.width_value(), government.height_value()), (61200, 75600));
}

#[test]
fn paper_formats_match_their_tables() {
    let a5 = PaperFormat::A5.get_format();
    assert_eq!((a5.width(), a5.height()), (Pt(41953), Pt(59528)));
    let government = PaperFormat::GovernmentLetter.get_format();
    assert_eq!((government.width(), government.height()), (Pt(57600), Pt(75600)));
}

#[test]
fn page_content_accumulates_in_call_order() {
    let mut page = Page::new(OrientationType::Portrait, PageFormat::A4.get_format());
    assert_eq!(page.length(), 0);
    page.add_content(vec![1, 2, 3]);
    page.add_content(vec![4]);
    assert_eq!(page.length(), 4);
    assert_eq!(page.content(), &[1, 2, 3, 4]);
}

#[test]
fn meta_data_defaults() {
    let m = MetaData::default();
    assert_eq!(m.author, "rspdf");
    assert_eq!(m.version, "1.3");
    assert_eq!(m.title, "");
    assert!(!m.encryption);
    let m = MetaData::new("a title", "an author", "1.5");
    assert_eq!(m.title, "a title");
    assert_eq!(m.author, "an author");
    assert_eq!(m.version, "1.5");
}

#[test]
fn references_keep_their_identity() {
    let r = Ref::new(41);
    assert_eq!(r.id(), 41);
    assert_eq!(r.id, 41);
}

#[test]
fn text_fragment_exact_bytes() {
    let font = helvetica_like();
    // Anchor at (0, 200) points; 100 point text lowered by one full
    // line height, so the baseline sits at 100 points.
    let text = Text::new(
        "Hello World!",
        &font,
        100,
        Point(Pt(0), Pt(20000)),
        RGB(87, 150, 100),
    );
    let expected = "0.341 0.588 0.392 rg\nBT\n/F1 100 Tf\n1 0 0 1 0.00 100.00 Tm\n(Hello World!) Tj\nET\n";
    assert_eq!(text.to_bytes(), expected.as_bytes());
}

#[test]
fn text_serialization_is_repeatable() {
    let font = helvetica_like();
    let text = Text::new_with_default_color("Hello", &font, 32, Point(Pt(1234), Pt(-500)));
    assert_eq!(text.to_bytes(), text.to_bytes());
    let again = Text::new_with_default_color("Hello", &font, 32, Point(Pt(1234), Pt(-500)));
    assert_eq!(text.to_bytes(), again.to_bytes());
}

#[test]
fn default_text_color_is_black() {
    let font = helvetica_like();
    let text = Text::new_with_default_color("x", &font, 10, Point(Pt(0), Pt(0)));
    assert_eq!(text.color, RGB(0, 0, 0));
    let bytes = text.to_bytes();
    assert!(bytes.starts_with(b"0.000 0.000 0.000 rg\n"));
}

#[test]
fn line_fragment_exact_bytes() {
    let line = Line::new(
        Point(Pt(2000), Pt(20000)),
        Point(Pt(55528), Pt(20000)),
        RGB(0, 0, 0),
        Pt(100),
    );
    let expected = "0.000 0.000 0.000 RG\n1.000 w\n20.00 200.00 m\n555.28 200.00 l S\n";
    assert_eq!(line.to_bytes(), expected.as_bytes());
}

#[test]
fn line_serialization_is_repeatable() {
    let line = Line::new_with_default_color(Point(Pt(-250), Pt(0)), Point(Pt(99), Pt(1)), Pt(150));
    assert_eq!(line.to_bytes(), line.to_bytes());
    assert!(line.to_bytes().starts_with(b"0.000 0.000 0.000 RG\n1.500 w\n-2.50 0.00 m\n0.99 0.01 l S\n"));
}
