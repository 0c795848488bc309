//! Font registration: parsing an outline-font program through the
//! `ttf_parser` crate, and the byte layout of the three objects one
//! embedded font occupies.
//!
//! The parse itself is the single trusted boundary of the library: what
//! the parser extracts is named as a pure function of the font bytes, and
//! everything serialized from it is verified.

use vstd::prelude::*;
use crate::numfmt::{dec_chars, int_bytes};
use crate::objects::{obj_start_bytes, ref_bytes, stream_obj_bytes};
use crate::reference::Ref;

verus! {

use vstd::string::StringSliceAdditionalSpecFns;
use vstd::utf8::encode_utf8;

/// Rejection of a font registration.
#[derive(Debug, Clone, Copy, PartialEq, Eq, Structural)]
pub enum FontError {
    /// The bytes are not a well-formed font program.
    ParseFailed,
    /// The document was already built.
    InvalidState,
}

/// One registered font: its short reference name, the identity of its
/// font object, and its raw line-height metrics (height in font units
/// over units per em).
#[derive(Debug, Clone)]
pub struct Font {
    pub name: String,
    pub font_ref: Ref,
    pub height_units: i32,
    pub units_per_em: u16,
}

/// The metrics the font parser extracts from a font program.
#[derive(Debug, Clone)]
pub struct FontMetrics {
    pub x_min: i16,
    pub y_min: i16,
    pub x_max: i16,
    pub y_max: i16,
    pub units_per_em: u16,
    pub ascender: i16,
    pub descender: i16,
    pub cap_height: Option<i16>,
    pub italic_angle: String,
}

/// Whether the font parser accepts these bytes as a font program, at
/// face index zero.
pub uninterp spec fn font_parse_ok(data: Seq<u8>) -> bool;

/// The global bounding box the parser extracts, as (x min, y min, x max,
/// y max).
pub uninterp spec fn font_bbox_of(data: Seq<u8>) -> (int, int, int, int);

/// The units-per-em value the parser extracts.
pub uninterp spec fn font_units_per_em_of(data: Seq<u8>) -> u16;

/// The ascender the parser extracts.
pub uninterp spec fn font_ascender_of(data: Seq<u8>) -> i16;

/// The descender the parser extracts.
pub uninterp spec fn font_descender_of(data: Seq<u8>) -> i16;

/// The capital height the parser extracts, when the font carries one.
pub uninterp spec fn font_cap_height_of(data: Seq<u8>) -> Option<i16>;

/// The decimal rendering of the italic angle the parser extracts.
pub uninterp spec fn font_italic_angle_chars_of(data: Seq<u8>) -> Seq<char>;

/// Relies on `ttf_parser::Face::parse` at face index zero and the
/// accessors `global_bounding_box`, `units_per_em`, `ascender`,
/// `descender`, `capital_height` and `italic_angle`: each result is a
/// pure function of the font bytes alone, and a face that parses has its
/// units-per-em validated into 16..=16384 (`head` table parsing).
#[verifier::external_body]
pub(crate) fn parse_font_metrics(data: &[u8]) -> (r: Option<FontMetrics>)
    ensures
        (r is Some) <==> font_parse_ok(data@),
        r matches Some(m) ==> {
            &&& (m.x_min as int, m.y_min as int, m.x_max as int, m.y_max as int) == font_bbox_of(
                data@,
            )
            &&& m.units_per_em == font_units_per_em_of(data@)
            &&& 16 <= m.units_per_em <= 16384
            &&& m.ascender == font_ascender_of(data@)
            &&& m.descender == font_descender_of(data@)
            &&& m.cap_height == font_cap_height_of(data@)
            &&& m.italic_angle@ == font_italic_angle_chars_of(data@)
        },
{
    match ttf_parser::Face::parse(data, 0) {
        Ok(face) => {
            let bbox = face.global_bounding_box();
            Some(FontMetrics {
                x_min: bbox.x_min, y_min: bbox.y_min, x_max: bbox.x_max, y_max: bbox.y_max,
                units_per_em: face.units_per_em(),
                ascender: face.ascender(),
                descender: face.descender(),
                cap_height: face.capital_height(),
                italic_angle: format!("{}", face.italic_angle()),
            })
        }
        Err(_) => None,
    }
}

/// The short name of the nth successful registration: `F` then `n`.
pub open spec fn font_name_chars(n: nat) -> Seq<char> {
    seq!['F'] + dec_chars(n)
}

/// Short names of distinct registration ordinals never collide.
pub proof fn lemma_font_names_distinct(m: nat, n: nat)
    requires
        m != n,
    ensures
        font_name_chars(m) != font_name_chars(n),
{
    crate::numfmt::lemma_dec_chars_injective(m, n);
    if font_name_chars(m) == font_name_chars(n) {
        assert(dec_chars(m) =~= font_name_chars(m).subrange(1, font_name_chars(m).len() as int));
        assert(dec_chars(n) =~= font_name_chars(n).subrange(1, font_name_chars(n).len() as int));
        assert(false);
    }
}

/// The font object: type, subtype, base font name, encoding, and the
/// reference to the descriptor object.
pub open spec fn font_obj_bytes(font_id: nat, name: Seq<char>, face_id: nat) -> Seq<u8> {
    obj_start_bytes(font_id) + "<< /Type /Font /Subtype /TrueType /BaseFont /".spec_bytes()
        + encode_utf8(name)
        + " /Encoding /WinAnsiEncoding /FirstChar 32 /LastChar 255 /FontDescriptor ".spec_bytes()
        + ref_bytes(face_id) + " >>\nendobj\n".spec_bytes()
}

/// The font-descriptor object: bounding box, italic angle, ascent,
/// descent, capital height, the fixed flags and stroke width, and the
/// reference to the embedded program's stream object.
pub open spec fn font_descriptor_bytes(
    face_id: nat,
    name: Seq<char>,
    data: Seq<u8>,
    file_id: nat,
) -> Seq<u8> {
    descriptor_head_bytes(face_id, name) + descriptor_bbox_bytes(data) + descriptor_metrics_bytes(
        data,
    ) + ref_bytes(file_id) + " >>\nendobj\n".spec_bytes()
}

/// The descriptor's opening: identity, type, font name, flags.
pub open spec fn descriptor_head_bytes(face_id: nat, name: Seq<char>) -> Seq<u8> {
    obj_start_bytes(face_id) + "<< /Type /FontDescriptor /FontName /".spec_bytes() + encode_utf8(
        name,
    ) + " /Flags 32 /FontBBox [ ".spec_bytes()
}

/// The descriptor's bounding box entry.
pub open spec fn descriptor_bbox_bytes(data: Seq<u8>) -> Seq<u8> {
    int_bytes(font_bbox_of(data).0) + " ".spec_bytes() + int_bytes(font_bbox_of(data).1)
        + " ".spec_bytes() + int_bytes(font_bbox_of(data).2) + " ".spec_bytes() + int_bytes(
        font_bbox_of(data).3,
    ) + " ] /ItalicAngle ".spec_bytes()
}

/// The descriptor's metric entries: italic angle, ascent, descent,
/// capital height, and the fixed stroke width.
pub open spec fn descriptor_metrics_bytes(data: Seq<u8>) -> Seq<u8> {
    encode_utf8(font_italic_angle_chars_of(data)) + " /Ascent ".spec_bytes() + int_bytes(
        font_ascender_of(data) as int,
    ) + " /Descent ".spec_bytes() + int_bytes(font_descender_of(data) as int)
        + " /CapHeight ".spec_bytes() + int_bytes(font_cap_height_spec(data))
        + " /StemV 80 /FontFile2 ".spec_bytes()
}

/// The capital height that is serialized: the parsed one, or the
/// ascender when the font carries none.
pub open spec fn font_cap_height_spec(data: Seq<u8>) -> int {
    match font_cap_height_of(data) {
        Some(c) => c as int,
        None => font_ascender_of(data) as int,
    }
}

/// The three objects one successful registration appends: the font
/// object, its descriptor, and the embedded program's stream, at
/// consecutive identities starting at `first_id`.
pub open spec fn font_block_bytes(first_id: nat, ordinal: nat, data: Seq<u8>) -> Seq<u8> {
    font_obj_bytes(first_id, font_name_chars(ordinal), first_id + 1) + font_descriptor_bytes(
        first_id + 1,
        font_name_chars(ordinal),
        data,
        first_id + 2,
    ) + stream_obj_bytes(first_id + 2, data)
}

/// One entry of the per-page font resource dictionary.
pub open spec fn font_dict_entry_bytes(name: Seq<char>, font_id: nat) -> Seq<u8> {
    "/".spec_bytes() + encode_utf8(name) + " ".spec_bytes() + crate::numfmt::dec_bytes(font_id)
        + " 0 R ".spec_bytes()
}

/// The font resource dictionary shared by every page: one entry per
/// registered font, in registration order.
pub open spec fn fonts_dict_bytes(fonts: Seq<Font>) -> Seq<u8>
    decreases fonts.len(),
{
    if fonts.len() == 0 {
        Seq::empty()
    } else {
        fonts_dict_bytes(fonts.drop_last()) + font_dict_entry_bytes(
            fonts.last().name@,
            fonts.last().font_ref.id as nat,
        )
    }
}

/// The three offsets one successful registration records: the positions
/// of the font object, the descriptor and the stream, each measured
/// before the object's bytes are appended to a buffer of length `start`.
pub open spec fn font_block_offsets(start: nat, first_id: nat, ordinal: nat, data: Seq<u8>) -> Seq<
    u64,
> {
    let o2 = start + font_obj_bytes(first_id, font_name_chars(ordinal), first_id + 1).len();
    let o3 = o2 + font_descriptor_bytes(
        first_id + 1,
        font_name_chars(ordinal),
        data,
        first_id + 2,
    ).len();
    seq![start as u64, o2 as u64, o3 as u64]
}

/// Every registration block is at least six bytes long: each of its
/// three objects opens with at least one identity digit and closes with
/// at least one more rendered number.
pub proof fn lemma_font_block_len(first_id: nat, ordinal: nat, data: Seq<u8>)
    ensures
        font_block_bytes(first_id, ordinal, data).len() >= 6,
        font_obj_bytes(first_id, font_name_chars(ordinal), first_id + 1).len() >= 2,
        font_descriptor_bytes(first_id + 1, font_name_chars(ordinal), data, first_id + 2).len()
            >= 2,
        stream_obj_bytes(first_id + 2, data).len() >= 2,
{
    crate::numfmt::lemma_dec_bytes_len(first_id);
    crate::numfmt::lemma_dec_bytes_len(first_id + 1);
    crate::numfmt::lemma_dec_bytes_len(first_id + 2);
    crate::numfmt::lemma_dec_bytes_len(data.len());
    assert(int_bytes(font_bbox_of(data).0).len() >= 1) by {
        crate::numfmt::lemma_dec_bytes_len(font_bbox_of(data).0 as nat);
        crate::numfmt::lemma_dec_bytes_len((-font_bbox_of(data).0) as nat);
    }
}

/// Appends the font object to `buf`.
pub(crate) fn emit_font_object(buf: &mut Vec<u8>, font_id: u64, name: &String, face_id: u64)
    ensures
        final(buf)@ == old(buf)@ + font_obj_bytes(font_id as nat, name@, face_id as nat),
{
    crate::objects::push_obj_start(buf, font_id);
    crate::buffer::append_str(buf, "<< /Type /Font /Subtype /TrueType /BaseFont /");
    crate::buffer::append_str(buf, name.as_str());
    crate::buffer::append_str(
        buf,
        " /Encoding /WinAnsiEncoding /FirstChar 32 /LastChar 255 /FontDescriptor ",
    );
    crate::objects::push_ref(buf, face_id);
    crate::buffer::append_str(buf, " >>\nendobj\n");
    proof {
        assert(buf@ =~= old(buf)@ + font_obj_bytes(font_id as nat, name@, face_id as nat));
    }
}

/// Appends the font-descriptor object to `buf`, from the metrics the
/// parser extracted for `data_view`.
#[verifier::rlimit(60)]
#[verifier::spinoff_prover]
pub(crate) fn emit_font_descriptor(
    buf: &mut Vec<u8>,
    face_id: u64,
    name: &String,
    metrics: &FontMetrics,
    file_id: u64,
    Ghost(data_view): Ghost<Seq<u8>>,
)
    requires
        (
            metrics.x_min as int,
            metrics.y_min as int,
            metrics.x_max as int,
            metrics.y_max as int,
        ) == font_bbox_of(data_view),
        metrics.ascender == font_ascender_of(data_view),
        metrics.descender == font_descender_of(data_view),
        metrics.cap_height == font_cap_height_of(data_view),
        metrics.italic_angle@ == font_italic_angle_chars_of(data_view),
    ensures
        final(buf)@ == old(buf)@ + font_descriptor_bytes(
            face_id as nat,
            name@,
            data_view,
            file_id as nat,
        ),
{
    crate::objects::push_obj_start(buf, face_id);
    crate::buffer::append_str(buf, "<< /Type /FontDescriptor /FontName /");
    crate::buffer::append_str(buf, name.as_str());
    crate::buffer::append_str(buf, " /Flags 32 /FontBBox [ ");
    proof {
        assert(buf@ =~= old(buf)@ + descriptor_head_bytes(face_id as nat, name@));
    }
    let ghost after_head = buf@;
    crate::numfmt::push_dec_i64(buf, metrics.x_min as i64);
    crate::buffer::append_str(buf, " ");
    crate::numfmt::push_dec_i64(buf, metrics.y_min as i64);
    crate::buffer::append_str(buf, " ");
    crate::numfmt::push_dec_i64(buf, metrics.x_max as i64);
    crate::buffer::append_str(buf, " ");
    crate::numfmt::push_dec_i64(buf, metrics.y_max as i64);
    crate::buffer::append_str(buf, " ] /ItalicAngle ");
    proof {
        assert(buf@ =~= after_head + descriptor_bbox_bytes(data_view));
    }
    let ghost after_bbox = buf@;
    crate::buffer::append_str(buf, metrics.italic_angle.as_str());
    crate::buffer::append_str(buf, " /Ascent ");
    crate::numfmt::push_dec_i64(buf, metrics.ascender as i64);
    crate::buffer::append_str(buf, " /Descent ");
    crate::numfmt::push_dec_i64(buf, metrics.descender as i64);
    crate::buffer::append_str(buf, " /CapHeight ");
    let cap: i64 = match metrics.cap_height {
        Some(c) => c as i64,
        None => metrics.ascender as i64,
    };
    crate::numfmt::push_dec_i64(buf, cap);
    crate::buffer::append_str(buf, " /StemV 80 /FontFile2 ");
    proof {
        assert(buf@ =~= after_bbox + descriptor_metrics_bytes(data_view));
    }
    let ghost after_metrics = buf@;
    crate::objects::push_ref(buf, file_id);
    crate::buffer::append_str(buf, " >>\nendobj\n");
    proof {
        assert(buf@ =~= old(buf)@ + font_descriptor_bytes(
            face_id as nat,
            name@,
            data_view,
            file_id as nat,
        ));
    }
}

} // verus!
