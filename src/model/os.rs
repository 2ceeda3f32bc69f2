use vstd::prelude::*;

use crate::error::{ErrorKind, WinfetchResult};
use crate::record::{text_spec, Record};
use crate::text::{push_str, string_from_chars};

verus! {

/// The operating system: product name and display version from the
/// registry, architecture from the service, built together.
#[derive(Clone, Debug)]
pub struct OS {
    DisplayVersion: String,
    OSArchitecture: String,
    ProductName: String,
}

/// The OS line: "PRODUCT, Version DISPLAY [ARCHITECTURE]".
pub open spec fn os_text(product: Seq<char>, display: Seq<char>, arch: Seq<char>) -> Seq<char> {
    product + ", Version "@ + display + " ["@ + arch + "]"@
}

impl OS {
    pub closed spec fn product_name(&self) -> Seq<char> {
        self.ProductName@
    }

    pub closed spec fn display_version(&self) -> Seq<char> {
        self.DisplayVersion@
    }

    pub closed spec fn architecture(&self) -> Seq<char> {
        self.OSArchitecture@
    }

    /// Reads the architecture of the first operating-system record.
    pub fn GetOperatingSystemArchitecture(record: &Record) -> (r: WinfetchResult<String>)
        ensures
            match r {
                Ok(s) => text_spec(record.fields@, "OSArchitecture"@) == Ok::<Seq<char>, ErrorKind>(
                    s@,
                ),
                Err(e) => text_spec(record.fields@, "OSArchitecture"@) == Err::<
                    Seq<char>,
                    ErrorKind,
                >(e.0),
            },
    {
        record.GetText("OSArchitecture")
    }

    /// The operating system from its registry names and its
    /// operating-system record, all at once.
    pub fn GetOperatingSystemVersion(product_name: String, display_version: String, record: &Record) -> (r:
        WinfetchResult<OS>)
        ensures
            match r {
                Ok(os) => text_spec(record.fields@, "OSArchitecture"@) == Ok::<Seq<char>, ErrorKind>(
                    os.architecture(),
                ) && os.product_name() == product_name@ && os.display_version()
                    == display_version@,
                Err(e) => text_spec(record.fields@, "OSArchitecture"@) == Err::<
                    Seq<char>,
                    ErrorKind,
                >(e.0),
            },
    {
        let arch = OS::GetOperatingSystemArchitecture(record)?;
        Ok(OS { DisplayVersion: display_version, OSArchitecture: arch, ProductName: product_name })
    }

    /// The OS line of the report.
    pub fn to_text(&self) -> (r: String)
        ensures
            r@ == os_text(self.product_name(), self.display_version(), self.architecture()),
    {
        let mut out: Vec<char> = Vec::new();
        push_str(&mut out, self.ProductName.as_str());
        push_str(&mut out, ", Version ");
        push_str(&mut out, self.DisplayVersion.as_str());
        push_str(&mut out, " [");
        push_str(&mut out, self.OSArchitecture.as_str());
        push_str(&mut out, "]");
        assert(out@ =~= os_text(self.product_name(), self.display_version(), self.architecture()));
        string_from_chars(&out)
    }
}

} // verus!
