//! Shared value types for drawing primitives.

use vstd::prelude::*;
use crate::units::Pt;

verus! {

use vstd::string::StringSliceAdditionalSpecFns;

/// A position on the page, in hundredths of a point.
#[derive(Debug, Clone, Copy, PartialEq, Eq, Structural)]
pub struct Point(pub Pt, pub Pt);

/// A color, as red, green and blue channels in 0..=255.
#[derive(Debug, Clone, Copy, PartialEq, Eq, Structural)]
pub struct RGB(pub u8, pub u8, pub u8);

/// One color channel scaled into 0..=1 and rendered with three fraction
/// digits, rounded to the nearest thousandth.
pub open spec fn color_component_bytes(c: u8) -> Seq<u8> {
    let v = (2000 * c + 255) / 510;
    if v == 1000 {
        "1.000".spec_bytes()
    } else {
        "0.".spec_bytes() + seq![
            (0x30 + v / 100) as u8,
            (0x30 + (v / 10) % 10) as u8,
            (0x30 + v % 10) as u8,
        ]
    }
}

/// The three channels of a color, space-separated.
pub open spec fn color_bytes(c: RGB) -> Seq<u8> {
    color_component_bytes(c.0) + " ".spec_bytes() + color_component_bytes(c.1) + " ".spec_bytes()
        + color_component_bytes(c.2)
}

/// Appends one rendered color channel to `buf`.
fn push_color_component(buf: &mut Vec<u8>, c: u8)
    ensures
        final(buf)@ == old(buf)@ + color_component_bytes(c),
{
    let v: u32 = (2000 * c as u32 + 255) / 510;
    if v == 1000 {
        crate::buffer::append_str(buf, "1.000");
    } else {
        crate::buffer::append_str(buf, "0.");
        buf.push(0x30 + (v / 100) as u8);
        buf.push(0x30 + ((v / 10) % 10) as u8);
        buf.push(0x30 + (v % 10) as u8);
        proof {
            assert(buf@ =~= old(buf)@ + color_component_bytes(c));
        }
    }
}

/// Appends a rendered color to `buf`.
pub(crate) fn push_color(buf: &mut Vec<u8>, c: RGB)
    ensures
        final(buf)@ == old(buf)@ + color_bytes(c),
{
    push_color_component(buf, c.0);
    crate::buffer::append_str(buf, " ");
    push_color_component(buf, c.1);
    crate::buffer::append_str(buf, " ");
    push_color_component(buf, c.2);
    proof {
        assert(buf@ =~= old(buf)@ + color_bytes(c));
    }
}

} // verus!
