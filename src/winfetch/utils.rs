use vstd::prelude::*;

use crate::error::WinfetchResult;
use crate::utils::percentage_bar;

verus! {

/// The Windows logo, drawn in blue, one line of text per line of the logo.
pub const WINDOWS_ASCII_ART: &'static str = " \x1B[34m                    ....,,:;+ccllll
 \x1B[34m      ...,,+:;  cllllllllllllllllll
 \x1B[34m,cclllllllllll  lllllllllllllllllll
 \x1B[34mllllllllllllll  lllllllllllllllllll
 \x1B[34mllllllllllllll  lllllllllllllllllll
 \x1B[34mllllllllllllll  lllllllllllllllllll
 \x1B[34mllllllllllllll  lllllllllllllllllll
 \x1B[34mllllllllllllll  lllllllllllllllllll
 \x1B[34m
 \x1B[34mllllllllllllll  lllllllllllllllllll
 \x1B[34mllllllllllllll  lllllllllllllllllll
 \x1B[34mllllllllllllll  lllllllllllllllllll
 \x1B[34mllllllllllllll  lllllllllllllllllll
 \x1B[34mllllllllllllll  lllllllllllllllllll
 \x1B[34m`'ccllllllllll  lllllllllllllllllll
 \x1B[34m      `' \\\\*::  :ccllllllllllllllll
 \x1B[34m                       ````''*::cll
 \x1B[34m                                 ``";

/// A ten-cell bar for a percentage, as `crate::utils::GeneratePercentageBar`
/// draws it.
pub fn GeneratePercentageBar(percentage: i32) -> (r: WinfetchResult<String>)
    ensures
        0 <= percentage <= 100 ==> r is Ok && r->Ok_0@ == percentage_bar(percentage as int),
        !(0 <= percentage <= 100) ==> r is Err && r->Err_0.0 == crate::error::ErrorKind::InvalidInput,
{
    crate::utils::GeneratePercentageBar(percentage)
}

/// The Windows logo as coloured text.
pub fn GetWindowsASCIIArt() -> (r: String)
    ensures
        r@ == WINDOWS_ASCII_ART@,
{
    WINDOWS_ASCII_ART.to_owned()
}

} // verus!
