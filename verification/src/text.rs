//! The text drawing primitive: a pure producer mapping a text's fields to
//! its content-stream operator fragment.

use vstd::prelude::*;
use crate::font::Font;
use crate::numfmt::int_bytes;
use crate::objects::coord_bytes;
use crate::types::{Point, RGB, color_bytes};

verus! {

use vstd::string::StringExecFns;
use vstd::string::StringSliceAdditionalSpecFns;
use vstd::utf8::encode_utf8;

/// A piece of text: its content, the short name and line metrics of the
/// font it is set in, its size in points, its anchor point, its color.
#[derive(Debug, Clone)]
pub struct Text {
    pub text: String,
    pub font_name: String,
    pub height_units: i32,
    pub units_per_em: u16,
    pub size: i32,
    pub point: Point,
    pub color: RGB,
}

/// Integer division rounded toward zero.
pub open spec fn div_toward_zero(a: int, b: int) -> int {
    if a >= 0 {
        a / b
    } else {
        -((-a) / b)
    }
}

/// The vertical position of the text's baseline: the anchor, lowered by
/// the font's line height scaled to the text's size.
pub open spec fn text_baseline(t: Text) -> int {
    t.point.1.0 - div_toward_zero(t.height_units * t.size * 100, t.units_per_em as int)
}

/// The operator fragment one text serializes to: fill color, a text
/// block selecting the font at the given size, the baseline transform,
/// and the text shown.
pub open spec fn text_fragment_bytes(t: Text) -> Seq<u8> {
    color_bytes(t.color) + " rg\nBT\n/".spec_bytes() + encode_utf8(t.font_name@)
        + " ".spec_bytes() + int_bytes(t.size as int) + " Tf\n1 0 0 1 ".spec_bytes() + coord_bytes(
        t.point.0.0 as int,
    ) + " ".spec_bytes() + coord_bytes(text_baseline(t)) + " Tm\n(".spec_bytes() + encode_utf8(
        t.text@,
    ) + ") Tj\nET\n".spec_bytes()
}

impl Text {
    /// Builds a text primitive set in the given registered font.
    pub fn new(text: &str, font: &Font, size: i32, point: Point, color: RGB) -> (t: Text)
        requires
            font.units_per_em >= 1,
        ensures
            t.text@ == text@,
            t.font_name@ == font.name@,
            t.height_units == font.height_units,
            t.units_per_em == font.units_per_em,
            t.size == size,
            t.point == point,
            t.color == color,
    {
        Text {
            text: String::from_str(text),
            font_name: font.name.clone(),
            height_units: font.height_units,
            units_per_em: font.units_per_em,
            size,
            point,
            color,
        }
    }

    /// Builds a black text primitive.
    pub fn new_with_default_color(text: &str, font: &Font, size: i32, point: Point) -> (t: Text)
        requires
            font.units_per_em >= 1,
        ensures
            t.text@ == text@,
            t.font_name@ == font.name@,
            t.height_units == font.height_units,
            t.units_per_em == font.units_per_em,
            t.size == size,
            t.point == point,
            t.color == RGB(0, 0, 0),
    {
        Text::new(text, font, size, point, RGB(0, 0, 0))
    }

    /// Serializes the text to its operator fragment. The same fields
    /// always render to the same bytes; the anchor's vertical position is
    /// bounded so the baseline arithmetic stays within machine range.
    #[verifier::rlimit(100)]
    #[verifier::spinoff_prover]
    pub fn to_bytes(&self) -> (r: Vec<u8>)
        requires
            self.units_per_em >= 1,
            -0x10000 <= self.height_units <= 0x10000,
            -0x4000000000000000 <= self.point.1.0 <= 0x4000000000000000,
        ensures
            r@ == text_fragment_bytes(*self),
    {
        let mut buf: Vec<u8> = Vec::new();
        crate::types::push_color(&mut buf, self.color);
        crate::buffer::append_str(&mut buf, " rg\nBT\n/");
        crate::buffer::append_str(&mut buf, self.font_name.as_str());
        crate::buffer::append_str(&mut buf, " ");
        crate::numfmt::push_dec_i64(&mut buf, self.size as i64);
        crate::buffer::append_str(&mut buf, " Tf\n1 0 0 1 ");
        crate::objects::push_coord(&mut buf, self.point.0.0);
        crate::buffer::append_str(&mut buf, " ");
        proof {
            assert({
                let p = (self.height_units as int) * (self.size as int) * 100;
                -0x40000000000000 <= p <= 0x40000000000000
            }) by (nonlinear_arith)
                requires
                    -0x10000 <= self.height_units <= 0x10000,
                    -0x80000000 <= self.size <= 0x80000000,
            {
            }
        }
        let rise: i64 = (self.height_units as i64) * (self.size as i64) * 100;
        let q: i64 = if rise >= 0 {
            rise / (self.units_per_em as i64)
        } else {
            -((-rise) / (self.units_per_em as i64))
        };
        proof {
            assert(q == div_toward_zero(
                self.height_units * self.size * 100,
                self.units_per_em as int,
            ));
            let b = self.units_per_em as int;
            if rise >= 0 {
                vstd::arithmetic::div_mod::lemma_div_nonincreasing(rise as int, b);
                vstd::arithmetic::div_mod::lemma_div_pos_is_pos(rise as int, b);
            } else {
                vstd::arithmetic::div_mod::lemma_div_nonincreasing(-(rise as int), b);
                vstd::arithmetic::div_mod::lemma_div_pos_is_pos(-(rise as int), b);
            }
            assert(-0x40000000000000 <= q <= 0x40000000000000);
        }
        proof {
            assert(-0x4800000000000000 <= self.point.1.0 - q <= 0x4800000000000000);
        }
        let baseline: i64 = self.point.1.0 - q;
        crate::objects::push_coord(&mut buf, baseline);
        crate::buffer::append_str(&mut buf, " Tm\n(");
        crate::buffer::append_str(&mut buf, self.text.as_str());
        crate::buffer::append_str(&mut buf, ") Tj\nET\n");
        proof {
            assert(buf@ =~= text_fragment_bytes(*self));
        }
        buf
    }
}

} // verus!
