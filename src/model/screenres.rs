use vstd::prelude::*;

use crate::text::{joined, push_signed_decimal, push_str, signed_decimal, string_from_chars};

verus! {

/// The resolution of each display monitor, horizontal and vertical pixels.
#[derive(Clone, Debug)]
pub struct ScreenResolution {
    Resolutions: Vec<(i32, i32)>,
}

/// One resolution written "WIDTHxHEIGHT".
pub open spec fn resolution_text(r: (i32, i32)) -> Seq<char> {
    signed_decimal(r.0 as int) + seq!['x'] + signed_decimal(r.1 as int)
}

/// Each resolution written out, in order.
pub open spec fn resolution_texts(rs: Seq<(i32, i32)>) -> Seq<Seq<char>> {
    Seq::new(rs.len(), |i: int| resolution_text(rs[i]))
}

impl ScreenResolution {
    pub closed spec fn resolutions(&self) -> Seq<(i32, i32)> {
        self.Resolutions@
    }

    /// The resolutions of the monitors, in the order they were enumerated.
    pub fn GetScreenResolution(resolutions: Vec<(i32, i32)>) -> (s: ScreenResolution)
        ensures
            s.resolutions() == resolutions@,
    {
        ScreenResolution { Resolutions: resolutions }
    }

    /// The resolutions, separated by commas.
    pub fn to_text(&self) -> (r: String)
        ensures
            r@ == joined(resolution_texts(self.resolutions()), ", "@),
    {
        let mut out: Vec<char> = Vec::new();
        let mut i: usize = 0;
        while i < self.Resolutions.len()
            invariant
                i <= self.Resolutions@.len(),
                out@ == joined(resolution_texts(self.Resolutions@).take(i as int), ", "@),
            decreases self.Resolutions.len() - i,
        {
            let ghost parts = resolution_texts(self.Resolutions@).take(i + 1);
            assert(parts.drop_last() =~= resolution_texts(self.Resolutions@).take(i as int));
            if i > 0 {
                push_str(&mut out, ", ");
            }
            let (w, h) = self.Resolutions[i];
            push_signed_decimal(&mut out, w);
            out.push('x');
            push_signed_decimal(&mut out, h);
            i = i + 1;
            assert(out@ =~= joined(resolution_texts(self.Resolutions@).take(i as int), ", "@));
        }
        assert(resolution_texts(self.Resolutions@).take(i as int) =~= resolution_texts(
            self.Resolutions@,
        ));
        string_from_chars(&out)
    }
}

} // verus!
