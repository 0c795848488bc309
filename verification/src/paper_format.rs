//! Paper sizes: the physical sheet formats, as a read-only lookup table.

use vstd::prelude::*;
use crate::units::Pt;

verus! {

/// A sheet's width and height, in hundredths of a point.
#[derive(Debug, Clone, Copy, PartialEq, Eq, Structural)]
pub struct PaperSize {
    pub width: Pt,
    pub height: Pt,
}

impl PaperSize {
    pub fn width(&self) -> (r: Pt)
        ensures
            r == self.width,
    {
        self.width
    }

    pub fn height(&self) -> (r: Pt)
        ensures
            r == self.height,
    {
        self.height
    }
}

/// The named paper formats, with their sizes in points.
#[derive(Debug, Clone, Copy, PartialEq, Eq, Structural)]
pub enum PaperFormat {
    A4,
    A5,
    Letter,
    GovernmentLetter,
    Legal,
    JuniorLegal,
    Ledger,
    Tabloid,
}

impl PaperFormat {
    /// The size of this format, in hundredths of a point.
    pub open spec fn spec_format(self) -> PaperSize {
        match self {
            PaperFormat::A4 => PaperSize { width: Pt(59528), height: Pt(84189) },
            PaperFormat::A5 => PaperSize { width: Pt(41953), height: Pt(59528) },
            PaperFormat::Letter => PaperSize { width: Pt(61200), height: Pt(79200) },
            PaperFormat::GovernmentLetter => PaperSize { width: Pt(57600), height: Pt(75600) },
            PaperFormat::Legal => PaperSize { width: Pt(61200), height: Pt(100800) },
            PaperFormat::JuniorLegal => PaperSize { width: Pt(57600), height: Pt(36000) },
            PaperFormat::Ledger => PaperSize { width: Pt(122400), height: Pt(79200) },
            PaperFormat::Tabloid => PaperSize { width: Pt(79200), height: Pt(122400) },
        }
    }

    pub fn get_format(&self) -> (r: PaperSize)
        ensures
            r == self.spec_format(),
    {
        match self {
            PaperFormat::A4 => PaperSize { width: Pt(59528), height: Pt(84189) },
            PaperFormat::A5 => PaperSize { width: Pt(41953), height: Pt(59528) },
            PaperFormat::Letter => PaperSize { width: Pt(61200), height: Pt(79200) },
            PaperFormat::GovernmentLetter => PaperSize { width: Pt(57600), height: Pt(75600) },
            PaperFormat::Legal => PaperSize { width: Pt(61200), height: Pt(100800) },
            PaperFormat::JuniorLegal => PaperSize { width: Pt(57600), height: Pt(36000) },
            PaperFormat::Ledger => PaperSize { width: Pt(122400), height: Pt(79200) },
            PaperFormat::Tabloid => PaperSize { width: Pt(79200), height: Pt(122400) },
        }
    }
}

} // verus!
