use vstd::prelude::*;

use crate::text::{decimal, push_decimal, string_from_chars};

verus! {

/// The version of the NT kernel: major and minor version and update build
/// revision, as the registry keeps them.
#[derive(Clone, Copy, Debug, PartialEq, Eq, Structural)]
pub struct WindowsNTKernel {
    CurrentMajorVersionNumber: u32,
    CurrentMinorVersionNumber: u32,
    UBR: u32,
}

/// The kernel line: "MAJOR.MINOR.UBR".
pub open spec fn kernel_text(major: nat, minor: nat, ubr: nat) -> Seq<char> {
    decimal(major) + seq!['.'] + decimal(minor) + seq!['.'] + decimal(ubr)
}

impl WindowsNTKernel {
    pub closed spec fn parts(&self) -> (u32, u32, u32) {
        (self.CurrentMajorVersionNumber, self.CurrentMinorVersionNumber, self.UBR)
    }

    /// The kernel version from the three registry values.
    pub fn GetCurrentWindowsNTKernelVersion(major: u32, minor: u32, ubr: u32) -> (k: WindowsNTKernel)
        ensures
            k.parts() == (major, minor, ubr),
    {
        WindowsNTKernel { CurrentMajorVersionNumber: major, CurrentMinorVersionNumber: minor, UBR: ubr }
    }

    /// The kernel line of the report.
    pub fn to_text(&self) -> (r: String)
        ensures
            r@ == kernel_text(self.parts().0 as nat, self.parts().1 as nat, self.parts().2 as nat),
    {
        let mut out: Vec<char> = Vec::new();
        push_decimal(&mut out, self.CurrentMajorVersionNumber as u64);
        out.push('.');
        push_decimal(&mut out, self.CurrentMinorVersionNumber as u64);
        out.push('.');
        push_decimal(&mut out, self.UBR as u64);
        assert(out@ =~= kernel_text(self.parts().0 as nat, self.parts().1 as nat, self.parts().2 as nat));
        string_from_chars(&out)
    }
}

} // verus!
