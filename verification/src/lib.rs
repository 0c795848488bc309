//! A single-pass assembler for a paginated page-description document format.
//!
//! The library builds a document from pages, drawing primitives and embedded
//! outline fonts: it allocates object identities, serializes each object into
//! a growing byte buffer, records the byte offset of every object, and closes
//! the buffer with a positional cross-reference table and a trailer.

use vstd::prelude::*;

pub mod buffer;
pub mod font;
pub mod line;
pub mod meta_data;
pub mod objects;
pub mod numfmt;
pub mod page;
pub mod page_format;
pub mod paper_format;
pub mod reference;
pub mod text;
pub mod types;
pub mod units;

verus! {

use vstd::string::StringExecFns;
use vstd::string::StringSliceAdditionalSpecFns;
use crate::font::{
    Font, FontError, FontMetrics, font_block_bytes, font_block_offsets, font_dict_entry_bytes,
    font_name_chars, font_parse_ok, font_units_per_em_of, font_ascender_of, font_descender_of,
    fonts_dict_bytes,
};
use crate::meta_data::MetaData;
use crate::objects::{
    catalog_bytes, header_bytes, kids_bytes, page_obj_bytes, pages_root_bytes, stream_obj_bytes,
    xref_entries_bytes, xref_section_bytes, trailer_bytes,
};
use crate::page::Page;
use crate::reference::Ref;

/// Rejection of an operation on a document that was already built.
#[derive(Debug, Clone, Copy, PartialEq, Eq, Structural)]
pub enum BuildError {
    InvalidState,
}

/// The identity of the page object of page `i`, when the catalog takes
/// identity `cat`: pages come after the catalog and the pages root, two
/// identities per page (page object, then content stream).
pub open spec fn page_id_at(cat: nat, i: nat) -> nat {
    cat + 2 + 2 * i
}

/// The identities of the page objects, in page order.
pub open spec fn kid_ids(cat: nat, n: nat) -> Seq<nat> {
    Seq::new(n, |i: int| page_id_at(cat, i as nat))
}

/// The two objects one page occupies: its page object, then its content
/// stream.
pub open spec fn page_block_bytes(cat: nat, fdict: Seq<u8>, i: nat, p: Page) -> Seq<u8> {
    page_obj_bytes(page_id_at(cat, i), cat + 1, p.size, page_id_at(cat, i) + 1, fdict)
        + stream_obj_bytes(page_id_at(cat, i) + 1, p.content@)
}

/// The page and content-stream objects of all pages, in page order.
pub open spec fn page_blocks_bytes(cat: nat, fdict: Seq<u8>, pages: Seq<Page>) -> Seq<u8>
    decreases pages.len(),
{
    if pages.len() == 0 {
        Seq::empty()
    } else {
        page_blocks_bytes(cat, fdict, pages.drop_last()) + page_block_bytes(
            cat,
            fdict,
            (pages.len() - 1) as nat,
            pages.last(),
        )
    }
}

/// The offsets recorded while the pages are emitted, starting from a
/// buffer of length `base`: each object's position, measured before its
/// bytes are appended.
pub open spec fn page_offsets(base: nat, cat: nat, fdict: Seq<u8>, pages: Seq<Page>) -> Seq<u64>
    decreases pages.len(),
{
    if pages.len() == 0 {
        Seq::empty()
    } else {
        let i = (pages.len() - 1) as nat;
        let before = base + page_blocks_bytes(cat, fdict, pages.drop_last()).len();
        page_offsets(base, cat, fdict, pages.drop_last()) + seq![
            before as u64,
            (before + page_obj_bytes(
                page_id_at(cat, i),
                cat + 1,
                pages.last().size,
                page_id_at(cat, i) + 1,
                fdict,
            ).len()) as u64,
        ]
    }
}

/// Every offset the build records, in order: the catalog's, then two per
/// page, then the pages root's. One offset per emitted object.
pub open spec fn build_offsets(start: nat, cat: nat, fdict: Seq<u8>, pages: Seq<Page>) -> Seq<
    u64,
> {
    let after_cat = start + catalog_bytes(cat, cat + 1).len();
    seq![start as u64] + page_offsets(after_cat, cat, fdict, pages) + seq![
        (after_cat + page_blocks_bytes(cat, fdict, pages).len()) as u64,
    ]
}

/// Everything one `build` call appends to a buffer of length `start`:
/// the catalog, the page blocks, the pages root, the cross-reference
/// section, and the trailer. The table's declared size is the final
/// identity — one past the highest allocated object — and its entries
/// are the offsets recorded before the build plus the ones the build
/// records, in recording order.
pub open spec fn build_suffix_bytes(
    cat: nat,
    fdict: Seq<u8>,
    pages: Seq<Page>,
    old_offsets: Seq<u64>,
    start: nat,
) -> Seq<u8> {
    let n = pages.len();
    let final_id = cat + 2 + 2 * n;
    let body = catalog_bytes(cat, cat + 1) + page_blocks_bytes(cat, fdict, pages)
        + pages_root_bytes(cat + 1, kid_ids(cat, n), n);
    body + xref_section_bytes(final_id, old_offsets + build_offsets(start, cat, fdict, pages))
        + trailer_bytes(cat, final_id, start + body.len())
}

proof fn lemma_page_offsets_count(base: nat, cat: nat, fdict: Seq<u8>, pages: Seq<Page>)
    ensures
        page_offsets(base, cat, fdict, pages).len() == 2 * pages.len(),
    decreases pages.len(),
{
    if pages.len() > 0 {
        lemma_page_offsets_count(base, cat, fdict, pages.drop_last());
    }
}

/// One offset per emitted object: a build records the catalog's offset,
/// two per page, and the pages root's, so the cross-reference table
/// gains exactly as many in-use entries as the build emits objects; its
/// declared size, one per table position starting at the reserved zero
/// entry, is one past the highest allocated identity.
pub proof fn lemma_build_offsets_count(start: nat, cat: nat, fdict: Seq<u8>, pages: Seq<Page>)
    ensures
        build_offsets(start, cat, fdict, pages).len() == 2 + 2 * pages.len(),
{
    lemma_page_offsets_count(start + catalog_bytes(cat, cat + 1).len(), cat, fdict, pages);
}

/// In a well-formed document the registered short names are `F1` to
/// `Fn`, in registration order, and pairwise distinct: a registration's
/// ordinal position alone decides its name, so no two fonts can share
/// one.
pub proof fn lemma_registered_names(d: RsPdf, i: int, j: int)
    requires
        d.wf(),
        0 <= i < d.fonts@.len(),
        0 <= j < d.fonts@.len(),
        i != j,
    ensures
        d.fonts@[i].name@ == font_name_chars((i + 1) as nat),
        d.fonts@[i].name@ != d.fonts@[j].name@,
{
    crate::font::lemma_font_names_distinct((i + 1) as nat, (j + 1) as nat);
}

/// The document assembler: it owns the pages, the font registry, the
/// growing output buffer, the recorded object offsets and the identity
/// counter, and a single `build` call closes the buffer with the page
/// tree, the cross-reference table and the trailer.
///
/// Three orders coincide by construction and the contracts state it:
/// identities are allocated in the order objects are emitted, and one
/// offset is recorded per emitted object, measured before the object's
/// bytes are appended.
#[derive(Debug)]
pub struct RsPdf {
    pub meta_data: MetaData,
    pub pages: Vec<Page>,
    pub fonts: Vec<Font>,
    pub document: Vec<u8>,
    pub xref_offset: Vec<u64>,
    pub current_id: u64,
    pub built: bool,
}

impl RsPdf {
    /// Well-formedness: while the document is still building, the next
    /// identity is one past the count of recorded offsets, three objects
    /// and offsets stand per registered font, and the buffer holds at
    /// least two bytes per emitted object; registered fonts carry their
    /// ordinal short name and a validated units-per-em.
    pub open spec fn wf(self) -> bool {
        &&& !self.built ==> {
            &&& self.current_id as nat == 1 + self.xref_offset@.len()
            &&& 2 * self.xref_offset@.len() <= self.document@.len()
            &&& self.xref_offset@.len() == 3 * self.fonts@.len()
        }
        &&& forall|i: int|
            0 <= i < self.fonts@.len() ==> (#[trigger] self.fonts@[i]).name@ == font_name_chars(
                (i + 1) as nat,
            )
        &&& forall|i: int|
            0 <= i < self.fonts@.len() ==> 16 <= (#[trigger] self.fonts@[i]).units_per_em <= 16384
    }

    /// Builds an empty document with the given title and the remaining
    /// metadata defaulted, and writes the version header at once.
    pub fn new(title: &str) -> (doc: RsPdf)
        ensures
            doc.wf(),
            !doc.built,
            doc.meta_data.title@ == title@,
            doc.meta_data.author@ == "rspdf"@,
            doc.meta_data.version@ == "1.3"@,
            !doc.meta_data.encryption,
            doc.pages@ == Seq::<Page>::empty(),
            doc.fonts@ == Seq::<Font>::empty(),
            doc.xref_offset@ == Seq::<u64>::empty(),
            doc.current_id == 1,
            doc.document@ == header_bytes(doc.meta_data.version@),
    {
        let mut meta_data = MetaData::default();
        meta_data.title = String::from_str(title);
        RsPdf::new_with_meta_data(meta_data)
    }

    /// Builds an empty document with the given metadata, and writes the
    /// version header at once.
    pub fn new_with_meta_data(meta_data: MetaData) -> (doc: RsPdf)
        ensures
            doc.wf(),
            !doc.built,
            doc.meta_data == meta_data,
            doc.pages@ == Seq::<Page>::empty(),
            doc.fonts@ == Seq::<Font>::empty(),
            doc.xref_offset@ == Seq::<u64>::empty(),
            doc.current_id == 1,
            doc.document@ == header_bytes(meta_data.version@),
    {
        let mut document: Vec<u8> = Vec::new();
        crate::buffer::append_str(&mut document, "%PDF-");
        crate::buffer::append_str(&mut document, meta_data.version.as_str());
        crate::buffer::append_str(&mut document, "\n");
        proof {
            assert(document@ =~= header_bytes(meta_data.version@));
        }
        RsPdf {
            meta_data,
            pages: Vec::new(),
            fonts: Vec::new(),
            document,
            xref_offset: Vec::new(),
            current_id: 1,
            built: false,
        }
    }

    /// Hands out the next object identity and advances the counter; the
    /// counter starts at one, so identity zero stays reserved for the
    /// cross-reference table's free-list head.
    fn alloc_id(&mut self) -> (r: Ref)
        requires
            old(self).current_id < u64::MAX,
        ensures
            r.id == old(self).current_id,
            final(self).current_id == old(self).current_id + 1,
            final(self).meta_data == old(self).meta_data,
            final(self).pages == old(self).pages,
            final(self).fonts == old(self).fonts,
            final(self).document == old(self).document,
            final(self).xref_offset == old(self).xref_offset,
            final(self).built == old(self).built,
    {
        let id = self.current_id;
        self.current_id = self.current_id + 1;
        Ref::new(id)
    }

    /// Appends a page; pages keep their insertion order, which becomes
    /// the final page order. Rejected once the document is built.
    pub fn add_page(&mut self, page: Page) -> (r: Result<(), BuildError>)
        ensures
            old(self).built ==> r == Result::<(), BuildError>::Err(BuildError::InvalidState)
                && *final(self) == *old(self),
            !old(self).built ==> {
                &&& r == Result::<(), BuildError>::Ok(())
                &&& final(self).pages@ == old(self).pages@.push(page)
                &&& final(self).meta_data == old(self).meta_data
                &&& final(self).fonts == old(self).fonts
                &&& final(self).document == old(self).document
                &&& final(self).xref_offset == old(self).xref_offset
                &&& final(self).current_id == old(self).current_id
                &&& !final(self).built
            },
    {
        if self.built {
            return Err(BuildError::InvalidState);
        }
        self.pages.push(page);
        Ok(())
    }

    /// Looks a registered font up by its short name; the first font with
    /// that name is returned.
    pub fn get_font(&self, font_name: &str) -> (r: Option<&Font>)
        ensures
            r matches Some(f) ==> exists|i: int|
                0 <= i < self.fonts@.len() && self.fonts@[i] == *f && (
                #[trigger] self.fonts@[i]).name@ == font_name@,
            r is None ==> forall|i: int|
                0 <= i < self.fonts@.len() ==> (#[trigger] self.fonts@[i]).name@ != font_name@,
    {
        let mut i: usize = 0;
        while i < self.fonts.len()
            invariant
                i <= self.fonts@.len(),
                forall|j: int|
                    0 <= j < i ==> (#[trigger] self.fonts@[j]).name@ != font_name@,
            decreases self.fonts@.len() - i,
        {
            if crate::buffer::bytes_eq(self.fonts[i].name.as_str().as_bytes(), font_name.as_bytes()) {
                proof {
                    vstd::utf8::encode_utf8_decode_utf8(self.fonts@[i as int].name@);
                    vstd::utf8::encode_utf8_decode_utf8(font_name@);
                }
                return Some(&self.fonts[i]);
            }
            proof {
                if self.fonts@[i as int].name@ == font_name@ {
                    assert(false);
                }
            }
            i += 1;
        }
        None
    }

    /// Registers a font program. The bytes run through the parser first:
    /// a failed parse is rejected as `ParseFailed` and leaves the
    /// document untouched, so the ordinal of the next short name is not
    /// consumed. A successful registration takes the next ordinal's short
    /// name, allocates three consecutive identities, and appends the font
    /// object, the descriptor and the embedded program's stream, each
    /// offset recorded before its object's bytes.
    #[verifier::rlimit(100)]
    #[verifier::spinoff_prover]
    pub fn add_font(&mut self, data: &[u8]) -> (r: Result<String, FontError>)
        requires
            old(self).wf(),
        ensures
            final(self).wf(),
            old(self).built ==> r == Result::<String, FontError>::Err(FontError::InvalidState)
                && *final(self) == *old(self),
            !old(self).built && !font_parse_ok(data@) ==> r == Result::<String, FontError>::Err(
                FontError::ParseFailed,
            ) && *final(self) == *old(self),
            !old(self).built && font_parse_ok(data@) ==> {
                let first = old(self).current_id as nat;
                let ord = (old(self).fonts@.len() + 1) as nat;
                &&& r matches Ok(name) && name@ == font_name_chars(ord)
                &&& final(self).document@ == old(self).document@ + font_block_bytes(
                    first,
                    ord,
                    data@,
                )
                &&& final(self).xref_offset@ == old(self).xref_offset@ + font_block_offsets(
                    old(self).document@.len(),
                    first,
                    ord,
                    data@,
                )
                &&& final(self).current_id == old(self).current_id + 3
                &&& final(self).fonts@.len() == old(self).fonts@.len() + 1
                &&& forall|i: int|
                    0 <= i < old(self).fonts@.len() ==> final(self).fonts@[i] == old(
                        self,
                    ).fonts@[i]
                &&& final(self).fonts@.last().name@ == font_name_chars(ord)
                &&& final(self).fonts@.last().font_ref.id == old(self).current_id
                &&& final(self).fonts@.last().height_units == font_ascender_of(data@)
                    - font_descender_of(data@)
                &&& final(self).fonts@.last().units_per_em == font_units_per_em_of(data@)
                &&& final(self).pages == old(self).pages
                &&& final(self).meta_data == old(self).meta_data
                &&& !final(self).built
            },
    {
        if self.built {
            return Err(FontError::InvalidState);
        }
        let metrics = match crate::font::parse_font_metrics(data) {
            None => {
                return Err(FontError::ParseFailed);
            },
            Some(m) => m,
        };
        let n_offsets = self.xref_offset.len();
        proof {
            assert(3 * self.fonts@.len() == n_offsets as nat);
        }
        let ordinal = self.fonts.len() + 1;
        let mut name = String::from_str("F");
        proof {
            reveal_strlit("F");
            assert(name@ =~= seq!['F']);
        }
        crate::numfmt::push_dec_string(&mut name, ordinal as u64);
        proof {
            assert(name@ == font_name_chars(ordinal as nat));
        }

        let doc_len = self.document.len();
        proof {
            assert(self.current_id + 3 < u64::MAX) by {
                assert(2 * self.xref_offset@.len() <= doc_len);
            }
        }
        let font_ref = self.alloc_id();
        let face_ref = self.alloc_id();
        let file_ref = self.alloc_id();
        self.emit_font_block(font_ref, &name, &metrics, data, Ghost((ordinal as nat, data@)));

        let height_units: i32 = metrics.ascender as i32 - metrics.descender as i32;
        let font = Font {
            name: name.clone(),
            font_ref,
            height_units,
            units_per_em: metrics.units_per_em,
        };
        self.fonts.push(font);

        proof {
            let first = old(self).current_id as nat;
            let ord = (old(self).fonts@.len() + 1) as nat;
            crate::font::lemma_font_block_len(first, ord, data@);
        }
        Ok(name)
    }

    /// Appends the three objects of one font registration — font object,
    /// descriptor, embedded program stream — at the three identities
    /// starting at `font_ref`, recording each object's offset before its
    /// bytes.
    fn emit_font_block(
        &mut self,
        font_ref: Ref,
        name: &String,
        metrics: &FontMetrics,
        data: &[u8],
        Ghost(gh): Ghost<(nat, Seq<u8>)>,
    )
        requires
            font_ref.id + 2 < u64::MAX,
            name@ == font_name_chars(gh.0),
            gh.1 == data@,
            (
                metrics.x_min as int,
                metrics.y_min as int,
                metrics.x_max as int,
                metrics.y_max as int,
            ) == crate::font::font_bbox_of(gh.1),
            metrics.ascender == font_ascender_of(gh.1),
            metrics.descender == font_descender_of(gh.1),
            metrics.cap_height == crate::font::font_cap_height_of(gh.1),
            metrics.italic_angle@ == crate::font::font_italic_angle_chars_of(gh.1),
        ensures
            final(self).document@ == old(self).document@ + font_block_bytes(
                font_ref.id as nat,
                gh.0,
                data@,
            ),
            final(self).xref_offset@ == old(self).xref_offset@ + font_block_offsets(
                old(self).document@.len(),
                font_ref.id as nat,
                gh.0,
                data@,
            ),
            final(self).meta_data == old(self).meta_data,
            final(self).pages == old(self).pages,
            final(self).fonts == old(self).fonts,
            final(self).current_id == old(self).current_id,
            final(self).built == old(self).built,
    {
        let off1 = self.document.len();
        self.xref_offset.push(off1 as u64);
        crate::font::emit_font_object(&mut self.document, font_ref.id, name, font_ref.id + 1);

        let off2 = self.document.len();
        self.xref_offset.push(off2 as u64);
        crate::font::emit_font_descriptor(
            &mut self.document,
            font_ref.id + 1,
            name,
            metrics,
            font_ref.id + 2,
            Ghost(data@),
        );

        let off3 = self.document.len();
        self.xref_offset.push(off3 as u64);
        crate::objects::emit_stream_object(&mut self.document, font_ref.id + 2, data);

        proof {
            assert(self.document@ =~= old(self).document@ + font_block_bytes(
                font_ref.id as nat,
                gh.0,
                data@,
            ));
            assert(self.xref_offset@ =~= old(self).xref_offset@ + font_block_offsets(
                old(self).document@.len(),
                font_ref.id as nat,
                gh.0,
                data@,
            ));
        }
    }

    /// Renders the shared font resource dictionary from the registry, in
    /// registration order.
    fn build_fonts_dict(&self) -> (fdict: Vec<u8>)
        ensures
            fdict@ == fonts_dict_bytes(self.fonts@),
    {
        let mut fdict: Vec<u8> = Vec::new();
        let mut i: usize = 0;
        while i < self.fonts.len()
            invariant
                i <= self.fonts@.len(),
                fdict@ == fonts_dict_bytes(self.fonts@.take(i as int)),
            decreases self.fonts@.len() - i,
        {
            crate::buffer::append_str(&mut fdict, "/");
            crate::buffer::append_str(&mut fdict, self.fonts[i].name.as_str());
            crate::buffer::append_str(&mut fdict, " ");
            crate::numfmt::push_dec_u64(&mut fdict, self.fonts[i].font_ref.id);
            crate::buffer::append_str(&mut fdict, " 0 R ");
            proof {
                let fs = self.fonts@;
                assert(fs.take(i + 1).drop_last() =~= fs.take(i as int));
                assert(fs.take(i + 1).last() == fs[i as int]);
                assert(fdict@ =~= fonts_dict_bytes(fs.take(i as int)) + font_dict_entry_bytes(
                    fs[i as int].name@,
                    fs[i as int].font_ref.id as nat,
                ));
                assert(fdict@ == fonts_dict_bytes(fs.take(i + 1)));
            }
            i += 1;
        }
        proof {
            assert(self.fonts@.take(self.fonts@.len() as int) =~= self.fonts@);
        }
        fdict
    }

    /// Emits the page object and the content stream of every page, in
    /// page order, two identities per page in allocation order, and
    /// renders the kids list; each offset is recorded before its
    /// object's bytes.
    #[verifier::rlimit(100)]
    #[verifier::spinoff_prover]
    fn emit_pages(&mut self, kids: &mut Vec<u8>, fdict: &Vec<u8>, root_id: u64, Ghost(cat): Ghost<
        nat,
    >)
        requires
            old(self).current_id as nat == cat + 2,
            root_id as nat == cat + 1,
            old(self).current_id as nat == 2 + old(self).xref_offset@.len(),
            2 * old(self).xref_offset@.len() <= old(self).document@.len(),
            old(kids)@ == Seq::<u8>::empty(),
        ensures
            final(self).document@ == old(self).document@ + page_blocks_bytes(
                cat,
                fdict@,
                old(self).pages@,
            ),
            final(self).xref_offset@ == old(self).xref_offset@ + page_offsets(
                old(self).document@.len(),
                cat,
                fdict@,
                old(self).pages@,
            ),
            final(kids)@ == kids_bytes(kid_ids(cat, old(self).pages@.len())),
            final(self).current_id as nat == old(self).current_id + 2 * old(self).pages@.len(),
            final(self).current_id as nat == 2 + final(self).xref_offset@.len(),
            2 * final(self).xref_offset@.len() <= final(self).document@.len(),
            final(self).pages == old(self).pages,
            final(self).fonts == old(self).fonts,
            final(self).meta_data == old(self).meta_data,
            final(self).built == old(self).built,
    {
        let n = self.pages.len();
        let mut i: usize = 0;
        while i < n
            invariant
                i <= n,
                n == self.pages@.len(),
                root_id as nat == cat + 1,
                self.pages == old(self).pages,
                self.fonts == old(self).fonts,
                self.meta_data == old(self).meta_data,
                self.built == old(self).built,
                self.current_id as nat == cat + 2 + 2 * i,
                self.current_id as nat == 2 + self.xref_offset@.len(),
                2 * self.xref_offset@.len() <= self.document@.len(),
                self.document@ == old(self).document@ + page_blocks_bytes(
                    cat,
                    fdict@,
                    old(self).pages@.take(i as int),
                ),
                self.xref_offset@ == old(self).xref_offset@ + page_offsets(
                    old(self).document@.len(),
                    cat,
                    fdict@,
                    old(self).pages@.take(i as int),
                ),
                kids@ == kids_bytes(kid_ids(cat, i as nat)),
            decreases n - i,
        {
            let doc_len = self.document.len();
            proof {
                assert(2 * self.xref_offset@.len() <= doc_len);
                assert(self.current_id + 2 < u64::MAX);
            }
            let page_ref = self.alloc_id();
            let content_ref = self.alloc_id();
            if i > 0 {
                crate::buffer::append_str(kids, " ");
            }
            crate::objects::push_ref(kids, page_ref.id);

            let off1 = self.document.len();
            self.xref_offset.push(off1 as u64);
            let size = self.pages[i].size;
            crate::objects::emit_page_object(
                &mut self.document,
                page_ref.id,
                root_id,
                size,
                content_ref.id,
                fdict,
            );

            let off2 = self.document.len();
            self.xref_offset.push(off2 as u64);
            let content = vstd::slice::slice_to_vec(self.pages[i].content.as_slice());
            crate::objects::emit_stream_object(
                &mut self.document,
                content_ref.id,
                content.as_slice(),
            );

            proof {
                let ps = old(self).pages@;
                let pid = page_id_at(cat, i as nat);
                assert(page_ref.id as nat == pid);
                assert(ps.take(i + 1).drop_last() =~= ps.take(i as int));
                assert(ps.take(i + 1).last() == ps[i as int]);
                assert(kid_ids(cat, (i + 1) as nat).drop_last() =~= kid_ids(cat, i as nat));
                assert(kid_ids(cat, (i + 1) as nat).last() == pid);
                assert(kids@ =~= kids_bytes(kid_ids(cat, (i + 1) as nat)));
                assert(self.document@ =~= old(self).document@ + page_blocks_bytes(
                    cat,
                    fdict@,
                    ps.take(i + 1),
                ));
                assert(self.xref_offset@ =~= old(self).xref_offset@ + page_offsets(
                    old(self).document@.len(),
                    cat,
                    fdict@,
                    ps.take(i + 1),
                ));
                crate::numfmt::lemma_dec_bytes_len(pid);
                crate::numfmt::lemma_dec_bytes_len(pid + 1);
            }
            i += 1;
        }
        proof {
            assert(old(self).pages@.take(n as int) =~= old(self).pages@);
        }
    }

    /// Emits one cross-reference entry per recorded offset, in recording
    /// order.
    fn emit_xref_entries(&mut self)
        ensures
            final(self).document@ == old(self).document@ + xref_entries_bytes(
                old(self).xref_offset@,
            ),
            final(self).xref_offset == old(self).xref_offset,
            final(self).pages == old(self).pages,
            final(self).fonts == old(self).fonts,
            final(self).meta_data == old(self).meta_data,
            final(self).current_id == old(self).current_id,
            final(self).built == old(self).built,
    {
        let mut j: usize = 0;
        while j < self.xref_offset.len()
            invariant
                j <= self.xref_offset@.len(),
                self.xref_offset == old(self).xref_offset,
                self.pages == old(self).pages,
                self.fonts == old(self).fonts,
                self.meta_data == old(self).meta_data,
                self.current_id == old(self).current_id,
                self.built == old(self).built,
                self.document@ == old(self).document@ + xref_entries_bytes(
                    self.xref_offset@.take(j as int),
                ),
            decreases self.xref_offset@.len() - j,
        {
            let off = self.xref_offset[j];
            crate::numfmt::push_dec_pad10(&mut self.document, off);
            crate::buffer::append_str(&mut self.document, " 00000 n\n");
            proof {
                let os = self.xref_offset@;
                assert(os.take(j + 1).drop_last() =~= os.take(j as int));
                assert(os.take(j + 1).last() == os[j as int]);
                assert(self.document@ =~= old(self).document@ + xref_entries_bytes(os.take(j + 1)));
            }
            j += 1;
        }
        proof {
            assert(self.xref_offset@.take(self.xref_offset@.len() as int) =~= self.xref_offset@);
        }
    }

    /// Builds the document: emits the catalog, then every page with the
    /// shared font dictionary, the pages root whose kids are the page
    /// objects in insertion order and whose count is the number of pages
    /// added, then the cross-reference table — one entry per recorded
    /// offset, its declared size one past the highest allocated identity
    /// — and the trailer. The call freezes the document: a second call
    /// is rejected and changes nothing.
    #[verifier::rlimit(100)]
    #[verifier::spinoff_prover]
    pub fn build(&mut self) -> (r: Result<Vec<u8>, BuildError>)
        requires
            old(self).wf(),
        ensures
            final(self).wf(),
            old(self).built ==> r == Result::<Vec<u8>, BuildError>::Err(BuildError::InvalidState)
                && *final(self) == *old(self),
            !old(self).built ==> (r matches Ok(out) && {
                let cat = old(self).current_id as nat;
                let fdict = fonts_dict_bytes(old(self).fonts@);
                let start = old(self).document@.len();
                &&& out@ == old(self).document@ + build_suffix_bytes(
                    cat,
                    fdict,
                    old(self).pages@,
                    old(self).xref_offset@,
                    start,
                )
                &&& final(self).document@ == out@
                &&& final(self).built
                &&& final(self).pages == old(self).pages
                &&& final(self).fonts == old(self).fonts
                &&& final(self).meta_data == old(self).meta_data
                &&& final(self).xref_offset@ == old(self).xref_offset@ + build_offsets(
                    start,
                    cat,
                    fdict,
                    old(self).pages@,
                )
                &&& final(self).xref_offset@.len() == old(self).xref_offset@.len() + 2 + 2 * old(
                    self,
                ).pages@.len()
                &&& final(self).current_id as nat == cat + 3 + 2 * old(self).pages@.len()
            }),
    {
        if self.built {
            return Err(BuildError::InvalidState);
        }
        let ghost cat = self.current_id as nat;
        let ghost start = self.document@.len();
        let doc_len0 = self.document.len();
        proof {
            assert(2 * self.xref_offset@.len() <= doc_len0);
            assert(self.current_id + 2 < u64::MAX);
        }
        let catalog_ref = self.alloc_id();
        let root_ref = self.alloc_id();

        let off0 = self.document.len();
        self.xref_offset.push(off0 as u64);
        crate::objects::emit_catalog(&mut self.document, catalog_ref.id, root_ref.id);
        proof {
            crate::numfmt::lemma_dec_bytes_len(cat);
            crate::numfmt::lemma_dec_bytes_len(cat + 1);
        }

        let fdict = self.build_fonts_dict();
        let mut kids: Vec<u8> = Vec::new();
        self.emit_pages(&mut kids, &fdict, root_ref.id, Ghost(cat));

        let off_root = self.document.len();
        self.xref_offset.push(off_root as u64);
        let n = self.pages.len();
        crate::objects::emit_pages_root(
            &mut self.document,
            root_ref.id,
            &kids,
            Ghost(kid_ids(cat, n as nat)),
            n as u64,
        );
        proof {
            crate::numfmt::lemma_dec_bytes_len((cat + 1) as nat);
            crate::numfmt::lemma_dec_bytes_len(n as nat);
        }

        let xref_start = self.document.len();
        proof {
            assert(self.current_id < u64::MAX);
        }
        let final_ref = self.alloc_id();
        crate::objects::emit_xref_head(&mut self.document, final_ref.id);
        self.emit_xref_entries();
        crate::objects::emit_trailer(
            &mut self.document,
            catalog_ref.id,
            final_ref.id,
            xref_start as u64,
        );
        self.built = true;
        let out = vstd::slice::slice_to_vec(self.document.as_slice());
        proof {
            let pages = old(self).pages@;
            let offsets0 = old(self).xref_offset@;
            assert(final_ref.id as nat == cat + 2 + 2 * pages.len());
            assert(self.xref_offset@ =~= offsets0 + build_offsets(start, cat, fdict@, pages));
            let body = catalog_bytes(cat, cat + 1) + page_blocks_bytes(cat, fdict@, pages)
                + pages_root_bytes(cat + 1, kid_ids(cat, pages.len()), pages.len());
            assert(xref_start as nat == start + body.len());
            assert(self.document@ =~= old(self).document@ + build_suffix_bytes(
                cat,
                fdict@,
                pages,
                offsets0,
                start,
            ));
        }
        Ok(out)
    }
}

} // verus!
