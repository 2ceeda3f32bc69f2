use vstd::prelude::*;

use crate::error::{ErrorKind, WinfetchError, WinfetchResult};
use crate::text::{chars_of, parse_decimal, parse_decimal_spec};
use crate::value::{agrees, extract_spec, tag_of, RawValue, TypedValue, ValueKind, ValueView};

verus! {

/// One named field of a result record, with its raw tagged value.
#[derive(Clone, Debug)]
pub struct Field {
    pub name: String,
    pub value: RawValue,
}

/// One row of a query result: the fields read from it.
#[derive(Clone, Debug)]
pub struct Record {
    pub fields: Vec<Field>,
}

/// The index of the first field at or after `i` named `name`, or the length.
pub open spec fn find_from(fields: Seq<Field>, name: Seq<char>, i: int) -> int
    decreases fields.len() - i,
{
    if i < 0 || i >= fields.len() {
        fields.len() as int
    } else if fields[i].name@ == name {
        i
    } else {
        find_from(fields, name, i + 1)
    }
}

/// What reading field `name` of kind `expected` gives.
pub open spec fn property_spec(fields: Seq<Field>, name: Seq<char>, expected: ValueKind) -> Result<
    ValueView,
    ErrorKind,
> {
    let i = find_from(fields, name, 0);
    if i >= fields.len() {
        Err(ErrorKind::PropertyMissing)
    } else {
        let v = fields[i].value;
        extract_spec(v.tag, v.wide@, v.integer, expected)
    }
}

/// What reading field `name` as text gives.
pub open spec fn text_spec(fields: Seq<Field>, name: Seq<char>) -> Result<Seq<char>, ErrorKind> {
    match property_spec(fields, name, ValueKind::Text) {
        Ok(ValueView::Text(s)) => Ok(s),
        Ok(ValueView::Integer32(_)) => Err(ErrorKind::TypeMismatch),
        Err(k) => Err(k),
    }
}

/// What reading field `name` as a 32-bit integer gives.
pub open spec fn integer_spec(fields: Seq<Field>, name: Seq<char>) -> Result<i32, ErrorKind> {
    match property_spec(fields, name, ValueKind::Integer32) {
        Ok(ValueView::Integer32(n)) => Ok(n),
        Ok(ValueView::Text(_)) => Err(ErrorKind::TypeMismatch),
        Err(k) => Err(k),
    }
}

/// What reading field `name` as a number written in decimal text gives.
pub open spec fn number_spec(fields: Seq<Field>, name: Seq<char>) -> Result<nat, ErrorKind> {
    match text_spec(fields, name) {
        Ok(s) => match parse_decimal_spec(s) {
            Some(n) => Ok(n),
            None => Err(ErrorKind::Parse),
        },
        Err(k) => Err(k),
    }
}

proof fn lemma_find_from_bounds(fields: Seq<Field>, name: Seq<char>, i: int)
    requires
        0 <= i <= fields.len(),
    ensures
        i <= find_from(fields, name, i) <= fields.len(),
        find_from(fields, name, i) < fields.len() ==> fields[find_from(fields, name, i)].name@
            == name,
    decreases fields.len() - i,
{
    if i < fields.len() && fields[i].name@ != name {
        lemma_find_from_bounds(fields, name, i + 1);
    }
}

/// A field whose discriminant is not the one of the expected kind is read as
/// a type mismatch, whatever its payload: never as a converted value.
pub proof fn lemma_mismatch_is_reported(fields: Seq<Field>, name: Seq<char>, expected: ValueKind)
    requires
        find_from(fields, name, 0) < fields.len(),
        fields[find_from(fields, name, 0)].value.tag != tag_of(expected),
    ensures
        property_spec(fields, name, expected) == Err::<ValueView, ErrorKind>(
            ErrorKind::TypeMismatch,
        ),
{
}

impl Record {
    /// Reads the first field named `name` as a value of kind `expected`.
    pub fn GetProperty(&self, name: &str, expected: ValueKind) -> (r: WinfetchResult<TypedValue>)
        ensures
            agrees(r, property_spec(self.fields@, name@, expected)),
    {
        let key = name.to_owned();
        let mut i: usize = 0;
        proof {
            lemma_find_from_bounds(self.fields@, name@, 0);
        }
        while i < self.fields.len()
            invariant
                i <= self.fields.len(),
                key@ == name@,
                find_from(self.fields@, name@, i as int) == find_from(self.fields@, name@, 0),
            decreases self.fields.len() - i,
        {
            if self.fields[i].name == key {
                return self.fields[i].value.extract(expected);
            }
            i = i + 1;
        }
        Err(WinfetchError::new(ErrorKind::PropertyMissing, "the record has no field of that name"))
    }
}

/// Whether field `name` is present and tagged as another kind than `expected`.
pub open spec fn mismatched(fields: Seq<Field>, name: Seq<char>, expected: ValueKind) -> bool {
    find_from(fields, name, 0) < fields.len() && fields[find_from(fields, name, 0)].value.tag
        != tag_of(expected)
}

/// A field present but not tagged as text is read as text to a type mismatch.
pub proof fn lemma_text_mismatch(fields: Seq<Field>, name: Seq<char>)
    requires
        mismatched(fields, name, ValueKind::Text),
    ensures
        text_spec(fields, name) == Err::<Seq<char>, ErrorKind>(ErrorKind::TypeMismatch),
{
    lemma_mismatch_is_reported(fields, name, ValueKind::Text);
}

impl Record {
    /// The first record of a query that is read for one record only; an
    /// enumeration error where the query returned none.
    pub fn first_of(records: Vec<Record>) -> (r: WinfetchResult<Record>)
        ensures
            records@.len() > 0 ==> r is Ok && r->Ok_0 == records@[0],
            records@.len() == 0 ==> r is Err && r->Err_0.0 == ErrorKind::Enumeration,
    {
        let mut records = records;
        if records.len() == 0 {
            return Err(WinfetchError::new(ErrorKind::Enumeration, "the query returned no record"));
        }
        Ok(records.remove(0))
    }

    /// Reads the first field named `name` as text.
    pub fn GetText(&self, name: &str) -> (r: WinfetchResult<String>)
        ensures
            match r {
                Ok(s) => text_spec(self.fields@, name@) == Ok::<Seq<char>, ErrorKind>(s@),
                Err(e) => text_spec(self.fields@, name@) == Err::<Seq<char>, ErrorKind>(e.0),
            },
    {
        match self.GetProperty(name, ValueKind::Text) {
            Ok(TypedValue::Text(s)) => Ok(s),
            Ok(TypedValue::Integer32(_)) => Err(WinfetchError::new(ErrorKind::TypeMismatch, "the value is not a string")),
            Err(e) => Err(e),
        }
    }

    /// Reads the first field named `name` as a 32-bit integer.
    pub fn GetInteger(&self, name: &str) -> (r: WinfetchResult<i32>)
        ensures
            match r {
                Ok(n) => integer_spec(self.fields@, name@) == Ok::<i32, ErrorKind>(n),
                Err(e) => integer_spec(self.fields@, name@) == Err::<i32, ErrorKind>(e.0),
            },
    {
        match self.GetProperty(name, ValueKind::Integer32) {
            Ok(TypedValue::Integer32(n)) => Ok(n),
            Ok(TypedValue::Text(_)) => Err(WinfetchError::new(ErrorKind::TypeMismatch, "the value is not a 32-bit integer")),
            Err(e) => Err(e),
        }
    }

    /// Reads the first field named `name` as a number written in decimal.
    pub fn GetNumber(&self, name: &str) -> (r: WinfetchResult<u64>)
        ensures
            match r {
                Ok(n) => number_spec(self.fields@, name@) == Ok::<nat, ErrorKind>(n as nat),
                Err(e) => number_spec(self.fields@, name@) == Err::<nat, ErrorKind>(e.0),
            },
    {
        let s = self.GetText(name)?;
        let cs = chars_of(s.as_str());
        match parse_decimal(&cs) {
            Some(n) => Ok(n),
            None => Err(WinfetchError::new(ErrorKind::Parse, "the value is not a decimal number")),
        }
    }
}

} // verus!
