//! The byte layout of every object kind the document emits, as spec
//! functions over the object's identity and its payload. The assembler's
//! contracts are stated in terms of these, so the exact serialized form of
//! the document is pinned down here.

use vstd::prelude::*;
use crate::numfmt::{dec_bytes, int_bytes, pad10_bytes};
use crate::page_format::PageSize;

verus! {

use vstd::string::StringSliceAdditionalSpecFns;
use vstd::utf8::encode_utf8;

/// The opening of an object: its identity, generation zero, and the `obj`
/// keyword.
pub open spec fn obj_start_bytes(id: nat) -> Seq<u8> {
    dec_bytes(id) + " 0 obj\n".spec_bytes()
}

/// An indirect reference to an object: identity, generation zero, `R`.
pub open spec fn ref_bytes(id: nat) -> Seq<u8> {
    dec_bytes(id) + " 0 R".spec_bytes()
}

/// The version header: the bytes of `%PDF-`, the version tag, a newline.
pub open spec fn header_bytes(version: Seq<char>) -> Seq<u8> {
    "%PDF-".spec_bytes() + encode_utf8(version) + "\n".spec_bytes()
}

/// The catalog object, pointing at the pages root.
pub open spec fn catalog_bytes(catalog_id: nat, pages_root_id: nat) -> Seq<u8> {
    obj_start_bytes(catalog_id) + "<< /Type /Catalog /Pages ".spec_bytes() + ref_bytes(
        pages_root_id,
    ) + " >>\nendobj\n".spec_bytes()
}

/// A page size component as it is written into the media box: whole
/// points, with up to two fraction digits, trailing zeros trimmed.
pub open spec fn pt_bytes(v: int) -> Seq<u8> {
    if v < 0 {
        seq![0x2du8] + pt_mag_bytes((-v) as nat)
    } else {
        pt_mag_bytes(v as nat)
    }
}

pub open spec fn pt_mag_bytes(m: nat) -> Seq<u8> {
    let f = m % 100;
    if f == 0 {
        dec_bytes(m / 100)
    } else if f % 10 == 0 {
        dec_bytes(m / 100) + ".".spec_bytes() + seq![(0x30 + f / 10) as u8]
    } else {
        dec_bytes(m / 100) + ".".spec_bytes() + seq![(0x30 + f / 10) as u8, (0x30 + f % 10) as u8]
    }
}

/// A coordinate as it is written into a content stream: always exactly
/// two fraction digits.
pub open spec fn coord_bytes(v: int) -> Seq<u8> {
    if v < 0 {
        seq![0x2du8] + coord_mag_bytes((-v) as nat)
    } else {
        coord_mag_bytes(v as nat)
    }
}

pub open spec fn coord_mag_bytes(m: nat) -> Seq<u8> {
    dec_bytes(m / 100) + ".".spec_bytes() + seq![(0x30 + (m % 100) / 10) as u8, (0x30 + m % 10) as u8]
}

/// A page object: parent, media box, content reference, rotation zero,
/// and the shared font resource dictionary.
pub open spec fn page_obj_bytes(
    page_id: nat,
    pages_root_id: nat,
    size: PageSize,
    content_id: nat,
    fonts_dict: Seq<u8>,
) -> Seq<u8> {
    obj_start_bytes(page_id) + "<< /Type /Page /Parent ".spec_bytes() + ref_bytes(pages_root_id)
        + " /MediaBox [0 0 ".spec_bytes() + pt_bytes(size.width.0 as int) + " ".spec_bytes()
        + pt_bytes(size.height.0 as int) + "] /Contents ".spec_bytes() + ref_bytes(content_id)
        + " /Rotate 0 /Resources << /Font << ".spec_bytes() + fonts_dict
        + " >> >> >>\nendobj\n".spec_bytes()
}

/// The opening of a stream object: the declared byte length of its
/// payload, then the `stream` keyword.
pub open spec fn stream_prefix_bytes(id: nat, len: nat) -> Seq<u8> {
    obj_start_bytes(id) + "<< /Length ".spec_bytes() + dec_bytes(len) + " >>\nstream\n".spec_bytes()
}

/// A whole stream object: the declared length, the payload verbatim, and
/// the closing keywords.
pub open spec fn stream_obj_bytes(id: nat, data: Seq<u8>) -> Seq<u8> {
    stream_prefix_bytes(id, data.len()) + data + "\nendstream\nendobj\n".spec_bytes()
}

/// The payload of a stream object sits verbatim between the `stream`
/// keyword and the `endstream` keyword, and the length declared in the
/// object's dictionary is exactly the payload's byte count.
pub proof fn lemma_stream_declared_length(id: nat, data: Seq<u8>)
    ensures
        ({
            let b = stream_obj_bytes(id, data);
            let p = stream_prefix_bytes(id, data.len()).len();
            &&& b.len() == p + data.len() + "\nendstream\nendobj\n".spec_bytes().len()
            &&& b.subrange(p as int, p + data.len() as int) == data
        }),
{
    let b = stream_obj_bytes(id, data);
    let p = stream_prefix_bytes(id, data.len()).len();
    assert(b.subrange(p as int, p + data.len() as int) =~= data);
}

/// The kids array of the pages root: the page references, in page order,
/// joined by single spaces.
pub open spec fn kids_bytes(kid_ids: Seq<nat>) -> Seq<u8>
    decreases kid_ids.len(),
{
    if kid_ids.len() == 0 {
        Seq::empty()
    } else if kid_ids.len() == 1 {
        ref_bytes(kid_ids[0])
    } else {
        kids_bytes(kid_ids.drop_last()) + " ".spec_bytes() + ref_bytes(kid_ids.last())
    }
}

/// The pages-root object: its kids, in page order, and the page count.
pub open spec fn pages_root_bytes(pages_root_id: nat, kid_ids: Seq<nat>, count: nat) -> Seq<u8> {
    obj_start_bytes(pages_root_id) + "<< /Type /Pages /Kids [".spec_bytes() + kids_bytes(kid_ids)
        + "] /Count ".spec_bytes() + dec_bytes(count) + " >>\nendobj\n".spec_bytes()
}

/// One in-use entry of the cross-reference table: a ten-digit offset, the
/// fixed generation, the in-use flag.
pub open spec fn xref_entry_bytes(offset: nat) -> Seq<u8> {
    pad10_bytes(offset) + " 00000 n\n".spec_bytes()
}

/// The in-use entries of the cross-reference table, one per recorded
/// offset, in the order the offsets were recorded.
pub open spec fn xref_entries_bytes(offsets: Seq<u64>) -> Seq<u8>
    decreases offsets.len(),
{
    if offsets.len() == 0 {
        Seq::empty()
    } else {
        xref_entries_bytes(offsets.drop_last()) + xref_entry_bytes(offsets.last() as nat)
    }
}

/// The cross-reference section's opening: the header declaring that the
/// table spans object numbers zero to `size`, and the entry for the
/// reserved free-list head.
pub open spec fn xref_head_bytes(size: nat) -> Seq<u8> {
    "xref 0 ".spec_bytes() + dec_bytes(size) + "\n".spec_bytes()
        + "0000000000 65535 f\n".spec_bytes()
}

/// The cross-reference section: its header, the free-list head entry,
/// then the in-use entries.
pub open spec fn xref_section_bytes(size: nat, offsets: Seq<u64>) -> Seq<u8> {
    xref_head_bytes(size) + xref_entries_bytes(offsets)
}

/// The trailer: the catalog reference, the declared object count, the
/// byte offset of the cross-reference section, the end-of-file marker.
pub open spec fn trailer_bytes(catalog_id: nat, size: nat, xref_start: nat) -> Seq<u8> {
    "trailer\n<< /Root ".spec_bytes() + ref_bytes(catalog_id) + " /Size ".spec_bytes() + dec_bytes(
        size,
    ) + " >>\nstartxref\n".spec_bytes() + dec_bytes(xref_start) + "\n".spec_bytes()
        + "%%EOF".spec_bytes()
}

/// Appends `id`, generation zero and the `obj` keyword to `buf`.
pub(crate) fn push_obj_start(buf: &mut Vec<u8>, id: u64)
    ensures
        final(buf)@ == old(buf)@ + obj_start_bytes(id as nat),
{
    crate::numfmt::push_dec_u64(buf, id);
    crate::buffer::append_str(buf, " 0 obj\n");
}

/// Appends an indirect reference to object `id` to `buf`.
pub(crate) fn push_ref(buf: &mut Vec<u8>, id: u64)
    ensures
        final(buf)@ == old(buf)@ + ref_bytes(id as nat),
{
    crate::numfmt::push_dec_u64(buf, id);
    crate::buffer::append_str(buf, " 0 R");
}

/// Appends a page-size component, fraction digits trimmed, to `buf`.
pub(crate) fn push_pt(buf: &mut Vec<u8>, v: i64)
    ensures
        final(buf)@ == old(buf)@ + pt_bytes(v as int),
{
    if v < 0 {
        buf.push(0x2d);
        let m: u64 = if v == i64::MIN {
            0x8000000000000000
        } else {
            (-v) as u64
        };
        push_pt_mag(buf, m);
        proof {
            assert(buf@ =~= old(buf)@ + pt_bytes(v as int));
        }
    } else {
        push_pt_mag(buf, v as u64);
    }
}

fn push_pt_mag(buf: &mut Vec<u8>, m: u64)
    ensures
        final(buf)@ == old(buf)@ + pt_mag_bytes(m as nat),
{
    let f = m % 100;
    crate::numfmt::push_dec_u64(buf, m / 100);
    if f == 0 {
    } else if f % 10 == 0 {
        crate::buffer::append_str(buf, ".");
        buf.push(0x30 + (f / 10) as u8);
        proof {
            assert(buf@ =~= old(buf)@ + pt_mag_bytes(m as nat));
        }
    } else {
        crate::buffer::append_str(buf, ".");
        buf.push(0x30 + (f / 10) as u8);
        buf.push(0x30 + (f % 10) as u8);
        proof {
            assert(buf@ =~= old(buf)@ + pt_mag_bytes(m as nat));
        }
    }
}

/// Appends a coordinate with exactly two fraction digits to `buf`.
pub(crate) fn push_coord(buf: &mut Vec<u8>, v: i64)
    ensures
        final(buf)@ == old(buf)@ + coord_bytes(v as int),
{
    if v < 0 {
        buf.push(0x2d);
        let m: u64 = if v == i64::MIN {
            0x8000000000000000
        } else {
            (-v) as u64
        };
        push_coord_mag(buf, m);
        proof {
            assert(buf@ =~= old(buf)@ + coord_bytes(v as int));
        }
    } else {
        push_coord_mag(buf, v as u64);
    }
}

fn push_coord_mag(buf: &mut Vec<u8>, m: u64)
    ensures
        final(buf)@ == old(buf)@ + coord_mag_bytes(m as nat),
{
    crate::numfmt::push_dec_u64(buf, m / 100);
    crate::buffer::append_str(buf, ".");
    buf.push(0x30 + ((m % 100) / 10) as u8);
    buf.push(0x30 + (m % 10) as u8);
    proof {
        assert(buf@ =~= old(buf)@ + coord_mag_bytes(m as nat));
    }
}

/// Appends the catalog object to `buf`.
pub(crate) fn emit_catalog(buf: &mut Vec<u8>, catalog_id: u64, pages_root_id: u64)
    ensures
        final(buf)@ == old(buf)@ + catalog_bytes(catalog_id as nat, pages_root_id as nat),
{
    push_obj_start(buf, catalog_id);
    crate::buffer::append_str(buf, "<< /Type /Catalog /Pages ");
    push_ref(buf, pages_root_id);
    crate::buffer::append_str(buf, " >>\nendobj\n");
    proof {
        assert(buf@ =~= old(buf)@ + catalog_bytes(catalog_id as nat, pages_root_id as nat));
    }
}

/// Appends a page object to `buf`.
pub(crate) fn emit_page_object(
    buf: &mut Vec<u8>,
    page_id: u64,
    pages_root_id: u64,
    size: PageSize,
    content_id: u64,
    fonts_dict: &Vec<u8>,
)
    ensures
        final(buf)@ == old(buf)@ + page_obj_bytes(
            page_id as nat,
            pages_root_id as nat,
            size,
            content_id as nat,
            fonts_dict@,
        ),
{
    push_obj_start(buf, page_id);
    crate::buffer::append_str(buf, "<< /Type /Page /Parent ");
    push_ref(buf, pages_root_id);
    crate::buffer::append_str(buf, " /MediaBox [0 0 ");
    push_pt(buf, size.width.0);
    crate::buffer::append_str(buf, " ");
    push_pt(buf, size.height.0);
    crate::buffer::append_str(buf, "] /Contents ");
    push_ref(buf, content_id);
    crate::buffer::append_str(buf, " /Rotate 0 /Resources << /Font << ");
    crate::buffer::append_bytes(buf, fonts_dict.as_slice());
    crate::buffer::append_str(buf, " >> >> >>\nendobj\n");
    proof {
        assert(buf@ =~= old(buf)@ + page_obj_bytes(
            page_id as nat,
            pages_root_id as nat,
            size,
            content_id as nat,
            fonts_dict@,
        ));
    }
}

/// Appends a whole stream object, payload verbatim, to `buf`.
pub(crate) fn emit_stream_object(buf: &mut Vec<u8>, id: u64, data: &[u8])
    ensures
        final(buf)@ == old(buf)@ + stream_obj_bytes(id as nat, data@),
{
    push_obj_start(buf, id);
    crate::buffer::append_str(buf, "<< /Length ");
    crate::numfmt::push_dec_u64(buf, data.len() as u64);
    crate::buffer::append_str(buf, " >>\nstream\n");
    crate::buffer::append_bytes(buf, data);
    crate::buffer::append_str(buf, "\nendstream\nendobj\n");
    proof {
        assert(buf@ =~= old(buf)@ + stream_obj_bytes(id as nat, data@));
    }
}

/// Appends the pages-root object to `buf`; `kids` must hold the
/// already-joined kid references.
pub(crate) fn emit_pages_root(
    buf: &mut Vec<u8>,
    pages_root_id: u64,
    kids: &Vec<u8>,
    Ghost(kid_id_seq): Ghost<Seq<nat>>,
    count: u64,
)
    requires
        kids@ == kids_bytes(kid_id_seq),
    ensures
        final(buf)@ == old(buf)@ + pages_root_bytes(pages_root_id as nat, kid_id_seq, count as nat),
{
    push_obj_start(buf, pages_root_id);
    crate::buffer::append_str(buf, "<< /Type /Pages /Kids [");
    crate::buffer::append_bytes(buf, kids.as_slice());
    crate::buffer::append_str(buf, "] /Count ");
    crate::numfmt::push_dec_u64(buf, count);
    crate::buffer::append_str(buf, " >>\nendobj\n");
    proof {
        assert(buf@ =~= old(buf)@ + pages_root_bytes(
            pages_root_id as nat,
            kid_id_seq,
            count as nat,
        ));
    }
}

/// Appends the cross-reference section's header and free-list entry to
/// `buf`.
pub(crate) fn emit_xref_head(buf: &mut Vec<u8>, size: u64)
    ensures
        final(buf)@ == old(buf)@ + xref_head_bytes(size as nat),
{
    crate::buffer::append_str(buf, "xref 0 ");
    crate::numfmt::push_dec_u64(buf, size);
    crate::buffer::append_str(buf, "\n");
    crate::buffer::append_str(buf, "0000000000 65535 f\n");
    proof {
        assert(buf@ =~= old(buf)@ + xref_head_bytes(size as nat));
    }
}

/// Appends the trailer and the end-of-file marker to `buf`.
pub(crate) fn emit_trailer(buf: &mut Vec<u8>, catalog_id: u64, size: u64, xref_start: u64)
    ensures
        final(buf)@ == old(buf)@ + trailer_bytes(catalog_id as nat, size as nat, xref_start as nat),
{
    crate::buffer::append_str(buf, "trailer\n<< /Root ");
    push_ref(buf, catalog_id);
    crate::buffer::append_str(buf, " /Size ");
    crate::numfmt::push_dec_u64(buf, size);
    crate::buffer::append_str(buf, " >>\nstartxref\n");
    crate::numfmt::push_dec_u64(buf, xref_start);
    crate::buffer::append_str(buf, "\n");
    crate::buffer::append_str(buf, "%%EOF");
    proof {
        assert(buf@ =~= old(buf)@ + trailer_bytes(
            catalog_id as nat,
            size as nat,
            xref_start as nat,
        ));
    }
}

} // verus!
