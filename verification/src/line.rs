//! The line drawing primitive: a pure producer mapping a line's fields to
//! its content-stream operator fragment.

use vstd::prelude::*;
use crate::numfmt::dec_bytes;
use crate::objects::coord_bytes;
use crate::types::{Point, RGB, color_bytes};
use crate::units::Pt;

verus! {

use vstd::string::StringSliceAdditionalSpecFns;

/// A straight line: its two endpoints, its color, its stroke width.
#[derive(Debug, Clone, Copy, PartialEq, Eq, Structural)]
pub struct Line {
    pub from: Point,
    pub to: Point,
    pub color: RGB,
    pub width: Pt,
}

/// A stroke width rendered with three fraction digits.
pub open spec fn width_bytes(v: int) -> Seq<u8> {
    if v < 0 {
        seq![0x2du8] + width_mag_bytes((-v) as nat)
    } else {
        width_mag_bytes(v as nat)
    }
}

pub open spec fn width_mag_bytes(m: nat) -> Seq<u8> {
    let f = m % 100;
    dec_bytes(m / 100) + ".".spec_bytes() + seq![(0x30 + f / 10) as u8, (0x30 + f % 10) as u8, 0x30u8]
}

/// The operator fragment one line serializes to: stroke color, stroke
/// width, a move to the first endpoint, a stroked segment to the second.
pub open spec fn line_fragment_bytes(l: Line) -> Seq<u8> {
    color_bytes(l.color) + " RG\n".spec_bytes() + width_bytes(l.width.0 as int)
        + " w\n".spec_bytes() + coord_bytes(l.from.0.0 as int) + " ".spec_bytes() + coord_bytes(
        l.from.1.0 as int,
    ) + " m\n".spec_bytes() + coord_bytes(l.to.0.0 as int) + " ".spec_bytes() + coord_bytes(
        l.to.1.0 as int,
    ) + " l S\n".spec_bytes()
}

impl Line {
    pub fn new(from: Point, to: Point, color: RGB, width: Pt) -> (l: Line)
        ensures
            l == (Line { from, to, color, width }),
    {
        Line { from, to, color, width }
    }

    pub fn new_with_default_color(from: Point, to: Point, width: Pt) -> (l: Line)
        ensures
            l == (Line { from, to, color: RGB(0, 0, 0), width }),
    {
        Line { from, to, color: RGB(0, 0, 0), width }
    }

    /// Serializes the line to its operator fragment; the same fields
    /// always render to the same bytes.
    pub fn to_bytes(&self) -> (r: Vec<u8>)
        ensures
            r@ == line_fragment_bytes(*self),
    {
        let mut buf: Vec<u8> = Vec::new();
        crate::types::push_color(&mut buf, self.color);
        crate::buffer::append_str(&mut buf, " RG\n");
        push_width(&mut buf, self.width.0);
        crate::buffer::append_str(&mut buf, " w\n");
        crate::objects::push_coord(&mut buf, self.from.0.0);
        crate::buffer::append_str(&mut buf, " ");
        crate::objects::push_coord(&mut buf, self.from.1.0);
        crate::buffer::append_str(&mut buf, " m\n");
        crate::objects::push_coord(&mut buf, self.to.0.0);
        crate::buffer::append_str(&mut buf, " ");
        crate::objects::push_coord(&mut buf, self.to.1.0);
        crate::buffer::append_str(&mut buf, " l S\n");
        proof {
            assert(buf@ =~= line_fragment_bytes(*self));
        }
        buf
    }
}

/// Appends a rendered stroke width to `buf`.
fn push_width(buf: &mut Vec<u8>, v: i64)
    ensures
        final(buf)@ == old(buf)@ + width_bytes(v as int),
{
    if v < 0 {
        buf.push(0x2d);
        let m: u64 = if v == i64::MIN {
            0x8000000000000000
        } else {
            (-v) as u64
        };
        push_width_mag(buf, m);
        proof {
            assert(buf@ =~= old(buf)@ + width_bytes(v as int));
        }
    } else {
        push_width_mag(buf, v as u64);
    }
}

fn push_width_mag(buf: &mut Vec<u8>, m: u64)
    ensures
        final(buf)@ == old(buf)@ + width_mag_bytes(m as nat),
{
    let f = m % 100;
    crate::numfmt::push_dec_u64(buf, m / 100);
    crate::buffer::append_str(buf, ".");
    buf.push(0x30 + (f / 10) as u8);
    buf.push(0x30 + (f % 10) as u8);
    buf.push(0x30);
    proof {
        assert(buf@ =~= old(buf)@ + width_mag_bytes(m as nat));
    }
}

} // verus!
