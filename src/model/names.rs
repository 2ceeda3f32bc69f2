use vstd::prelude::*;

use crate::text::{lower_ascii_all, push_lower_ascii, push_str, string_from_chars};

verus! {

/// The name of the host and of the user signed in.
#[derive(Clone, Debug)]
pub struct Names {
    pub ComputerName: String,
    pub UserName: String,
}

/// The title line: "user@computer", both in ASCII lower case and in blue.
pub open spec fn names_text(user: Seq<char>, computer: Seq<char>) -> Seq<char> {
    "\x1B[34m"@ + lower_ascii_all(user) + "\x1B[0m@\x1B[34m"@ + lower_ascii_all(computer) + "\x1B[0m"@
}

/// As many dashes as "user@computer" has characters.
pub open spec fn separator_text(user: Seq<char>, computer: Seq<char>) -> Seq<char> {
    Seq::new(user.len() + 1 + computer.len(), |i: int| '-')
}

impl Names {
    pub fn GetNames(computer_name: String, user_name: String) -> (n: Names)
        ensures
            n.ComputerName@ == computer_name@,
            n.UserName@ == user_name@,
    {
        Names { ComputerName: computer_name, UserName: user_name }
    }

    /// The title line of the report.
    pub fn to_text(&self) -> (r: String)
        ensures
            r@ == names_text(self.UserName@, self.ComputerName@),
    {
        let mut out: Vec<char> = Vec::new();
        push_str(&mut out, "\x1B[34m");
        push_lower_ascii(&mut out, self.UserName.as_str());
        push_str(&mut out, "\x1B[0m@\x1B[34m");
        push_lower_ascii(&mut out, self.ComputerName.as_str());
        push_str(&mut out, "\x1B[0m");
        assert(out@ =~= names_text(self.UserName@, self.ComputerName@));
        string_from_chars(&out)
    }

    /// The rule under the title line.
    pub fn Separator(&self) -> (r: String)
        ensures
            r@ == separator_text(self.UserName@, self.ComputerName@),
    {
        let n = self.UserName.as_str().unicode_len();
        let m = self.ComputerName.as_str().unicode_len();
        let mut out: Vec<char> = Vec::new();
        let mut i: usize = 0;
        while i < n
            invariant
                i <= n,
                n == self.UserName@.len(),
                out@ == Seq::new(i as nat, |k: int| '-'),
            decreases n - i,
        {
            out.push('-');
            i = i + 1;
            assert(out@ =~= Seq::new(i as nat, |k: int| '-'));
        }
        out.push('-');
        let mut j: usize = 0;
        while j < m
            invariant
                j <= m,
                m == self.ComputerName@.len(),
                n == self.UserName@.len(),
                out@ == Seq::new((n + 1 + j) as nat, |k: int| '-'),
            decreases m - j,
        {
            out.push('-');
            j = j + 1;
            assert(out@ =~= Seq::new((n + 1 + j) as nat, |k: int| '-'));
        }
        assert(out@ =~= separator_text(self.UserName@, self.ComputerName@));
        string_from_chars(&out)
    }
}

} // verus!
