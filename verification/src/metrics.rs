//! Font metrics: per code point, an advance width in thousandths of
//! text-space units. The width data itself comes from the surrounding
//! metrics source; this type only carries and resolves it.

use vstd::prelude::*;

verus! {

/// Looks `code` up in an association list of (code, width) pairs,
/// later pairs overriding earlier ones.
pub open spec fn width_lookup(pairs: Seq<(u8, u16)>, code: u8) -> Option<u16>
    decreases pairs.len(),
{
    if pairs.len() == 0 {
        None
    } else if pairs.last().0 == code {
        Some(pairs.last().1)
    } else {
        width_lookup(pairs.drop_last(), code)
    }
}

/// An immutable advance-width table for one font: per 8-bit code point,
/// a width in thousandths of text-space units.
pub struct FontMetrics {
    widths: Vec<(u8, u16)>,
}

impl View for FontMetrics {
    type V = Seq<(u8, u16)>;

    closed spec fn view(&self) -> Seq<(u8, u16)> {
        self.widths@
    }
}

impl FontMetrics {
    /// An empty table: no code point has a defined width.
    pub fn new() -> (r: FontMetrics)
        ensures
            r@ == Seq::<(u8, u16)>::empty(),
    {
        FontMetrics { widths: Vec::new() }
    }

    /// Records the advance width of one code point; a later entry for the
    /// same code replaces an earlier one.
    pub fn set_width(&mut self, code: u8, width: u16)
        ensures
            final(self)@ == old(self)@.push((code, width)),
    {
        self.widths.push((code, width));
    }

    /// The advance width of a code point, in thousandths of text-space
    /// units, or none if the table does not define one.
    pub fn get_width(&self, code: u8) -> (r: Option<u16>)
        ensures
            r == width_lookup(self@, code),
    {
        let n = self.widths.len();
        proof {
            assert(self@.take(n as int) =~= self@);
        }
        let mut i: usize = n;
        while i > 0
            invariant
                i <= n,
                n == self.widths.len(),
                width_lookup(self@, code) == width_lookup(self@.take(i as int), code),
            decreases i,
    {
            i = i - 1;
            let pair = self.widths[i];
            if pair.0 == code {
                proof {
                    assert(self@.take(i + 1 as int).last() == pair);
                }
                return Some(pair.1);
            }
            proof {
                assert(self@.take(i + 1 as int).last() == pair);
                assert(self@.take(i + 1 as int).drop_last() =~= self@.take(i as int));
            }
        }
        None
    }
}

} // verus!
