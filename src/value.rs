use vstd::prelude::*;

use crate::error::{ErrorKind, WinfetchError, WinfetchResult};

verus! {

/// Discriminant of a string value as the management service tags it.
pub const VT_BSTR: u16 = 8;

/// Discriminant of a 32-bit signed integer value.
pub const VT_I4: u16 = 3;

/// The kinds of value the telemetry layer reads.
#[derive(Clone, Copy, Debug, PartialEq, Eq, Structural)]
pub enum ValueKind {
    Text,
    Integer32,
}

/// A decoded value, safe to read.
#[derive(Clone, Debug)]
pub enum TypedValue {
    Text(String),
    Integer32(i32),
}

/// The mathematical content of a `TypedValue`.
pub enum ValueView {
    Text(Seq<char>),
    Integer32(i32),
}

impl View for TypedValue {
    type V = ValueView;

    open spec fn view(&self) -> ValueView {
        match self {
            TypedValue::Text(s) => ValueView::Text(s@),
            TypedValue::Integer32(n) => ValueView::Integer32(*n),
        }
    }
}

/// A tagged value as it crosses the boundary: the discriminant, the UTF-16
/// units of a string payload (NUL-terminated, or not) and the integer payload.
/// Only the payload that the discriminant selects is meaningful.
#[derive(Clone, Debug)]
pub struct RawValue {
    pub tag: u16,
    pub wide: Vec<u16>,
    pub integer: i32,
}

/// What UTF-16 decoding makes of a sequence of code units: the characters,
/// or nothing where the units are not well-formed UTF-16. A unit outside the
/// surrogate range is one character; a high surrogate followed by a low one is
/// one character above the basic plane; any other surrogate is ill-formed.
pub open spec fn utf16_decode(u: Seq<u16>) -> Option<Seq<char>>
    decreases u.len(),
{
    if u.len() == 0 {
        Some(Seq::empty())
    } else if u[0] < 0xD800 || u[0] > 0xDFFF {
        match utf16_decode(u.drop_first()) {
            Some(rest) => Some(seq![(u[0] as u32) as char] + rest),
            None => None,
        }
    } else if u[0] <= 0xDBFF && u.len() >= 2 && 0xDC00 <= u[1] && u[1] <= 0xDFFF {
        match utf16_decode(u.subrange(2, u.len() as int)) {
            Some(rest) => Some(
                seq![(0x10000 + (u[0] - 0xD800) * 0x400 + (u[1] - 0xDC00)) as char] + rest,
            ),
            None => None,
        }
    } else {
        None
    }
}

/// Relies on `String::from_utf16`: decodes well-formed UTF-16, and fails
/// exactly where the units are ill-formed.
#[verifier::external_body]
fn from_utf16(units: &[u16]) -> (r: Option<String>)
    ensures
        match r {
            Some(s) => utf16_decode(units@) == Some(s@),
            None => utf16_decode(units@) is None,
        },
{
    String::from_utf16(units).ok()
}

/// The position of the first NUL unit at or after `i`, or the length.
pub open spec fn nul_from(w: Seq<u16>, i: int) -> int
    decreases w.len() - i,
{
    if i < 0 || i >= w.len() {
        w.len() as int
    } else if w[i] == 0 {
        i
    } else {
        nul_from(w, i + 1)
    }
}

/// The units before the first NUL.
pub open spec fn until_nul(w: Seq<u16>) -> Seq<u16> {
    w.subrange(0, nul_from(w, 0))
}

/// The discriminant that stands for a kind.
pub open spec fn tag_of(k: ValueKind) -> u16 {
    match k {
        ValueKind::Text => VT_BSTR,
        ValueKind::Integer32 => VT_I4,
    }
}

/// The kind of a decoded value.
pub open spec fn kind_of(v: ValueView) -> ValueKind {
    match v {
        ValueView::Text(_) => ValueKind::Text,
        ValueView::Integer32(_) => ValueKind::Integer32,
    }
}

/// What extracting `expected` from a raw value gives: the value, or the kind
/// of the error.
pub open spec fn extract_spec(
    tag: u16,
    wide: Seq<u16>,
    integer: i32,
    expected: ValueKind,
) -> Result<ValueView, ErrorKind> {
    if tag != tag_of(expected) {
        Err(ErrorKind::TypeMismatch)
    } else {
        match expected {
            ValueKind::Integer32 => Ok(ValueView::Integer32(integer)),
            ValueKind::Text => match utf16_decode(until_nul(wide)) {
                Some(s) => Ok(ValueView::Text(s)),
                None => Err(ErrorKind::Parse),
            },
        }
    }
}

/// Whether a result agrees with its specification.
pub open spec fn agrees(r: WinfetchResult<TypedValue>, s: Result<ValueView, ErrorKind>) -> bool {
    match (r, s) {
        (Ok(v), Ok(w)) => v@ == w,
        (Err(e), Err(k)) => e.0 == k,
        _ => false,
    }
}

proof fn lemma_nul_from_bounds(w: Seq<u16>, i: int)
    requires
        0 <= i <= w.len(),
    ensures
        i <= nul_from(w, i) <= w.len(),
        forall|j: int| i <= j < nul_from(w, i) ==> w[j] != 0,
    decreases w.len() - i,
{
    if i < w.len() && w[i] != 0 {
        lemma_nul_from_bounds(w, i + 1);
    }
}

impl TypedValue {
    pub fn kind(&self) -> (k: ValueKind)
        ensures
            k == kind_of(self@),
    {
        match self {
            TypedValue::Text(_) => ValueKind::Text,
            TypedValue::Integer32(_) => ValueKind::Integer32,
        }
    }
}

/// The units of `w` before its first NUL.
fn strip_nul(w: &Vec<u16>) -> (r: Vec<u16>)
    ensures
        r@ == until_nul(w@),
{
    let mut r: Vec<u16> = Vec::new();
    let mut i: usize = 0;
    proof {
        lemma_nul_from_bounds(w@, 0);
    }
    while i < w.len() && w[i] != 0
        invariant
            i <= w.len(),
            nul_from(w@, i as int) == nul_from(w@, 0),
            r@ == w@.subrange(0, i as int),
        decreases w.len() - i,
    {
        r.push(w[i]);
        i = i + 1;
        assert(r@ =~= w@.subrange(0, i as int));
    }
    assert(nul_from(w@, i as int) == i);
    r
}

impl RawValue {
    /// Reads the value as `expected`. A discriminant other than the one of
    /// `expected` is a type mismatch, never a conversion; a string payload
    /// is read up to its first NUL and must be well-formed UTF-16.
    pub fn extract(&self, expected: ValueKind) -> (r: WinfetchResult<TypedValue>)
        ensures
            agrees(r, extract_spec(self.tag, self.wide@, self.integer, expected)),
    {
        if expected == ValueKind::Integer32 {
            if self.tag != VT_I4 {
                return Err(WinfetchError::new(ErrorKind::TypeMismatch, "the value is not a 32-bit integer"));
            }
            Ok(TypedValue::Integer32(self.integer))
        } else {
            if self.tag != VT_BSTR {
                return Err(WinfetchError::new(ErrorKind::TypeMismatch, "the value is not a string"));
            }
            let units = strip_nul(&self.wide);
            match from_utf16(units.as_slice()) {
                Some(s) => Ok(TypedValue::Text(s)),
                None => Err(WinfetchError::new(ErrorKind::Parse, "the string value is not valid UTF-16")),
            }
        }
    }
}

} // verus!
