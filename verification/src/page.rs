//! One page of the document: its size and its content stream, the
//! already-serialized drawing operators, gathered by appending.

use vstd::prelude::*;
use crate::page_format::PageSize;

verus! {

/// The orientation a page is constructed with.
#[derive(Debug, Clone, Copy, PartialEq, Eq, Structural)]
pub enum OrientationType {
    Portrait,
    Landscape,
}

impl OrientationType {
    /// The rotation, in degrees, conventionally tied to this orientation.
    pub fn rotate(self) -> (r: i16)
        ensures
            self is Portrait ==> r == 0,
            self is Landscape ==> r == 90,
    {
        match self {
            OrientationType::Portrait => 0,
            OrientationType::Landscape => 90,
        }
    }
}

/// One page: its size and its content-stream bytes.
#[derive(Debug, Clone)]
pub struct Page {
    pub size: PageSize,
    pub content: Vec<u8>,
}

impl Page {
    /// Builds an empty page. A landscape orientation exchanges the size's
    /// width and height once, at construction.
    pub fn new(orientation: OrientationType, size: PageSize) -> (p: Page)
        ensures
            orientation is Portrait ==> p.size == size,
            orientation is Landscape ==> p.size == size.spec_inverse(),
            p.content@ == Seq::<u8>::empty(),
    {
        let base_size = match orientation {
            OrientationType::Portrait => size,
            OrientationType::Landscape => size.inverse(),
        };
        Page { size: base_size, content: Vec::new() }
    }

    /// Appends a content-stream fragment; later fragments paint over
    /// earlier ones.
    pub fn add_content(&mut self, content: Vec<u8>)
        ensures
            final(self).size == old(self).size,
            final(self).content@ == old(self).content@ + content@,
    {
        crate::buffer::append_bytes(&mut self.content, content.as_slice());
    }

    pub fn size(&self) -> (r: &PageSize)
        ensures
            *r == self.size,
    {
        &self.size
    }

    /// The current byte count of the content stream.
    pub fn length(&self) -> (r: usize)
        ensures
            r == self.content@.len(),
    {
        self.content.len()
    }

    /// A read-only view of the content stream.
    pub fn content(&self) -> (r: &[u8])
        ensures
            r@ == self.content@,
    {
        self.content.as_slice()
    }
}

} // verus!
