//! The labelled fields of the decoded certificate text.

use vstd::prelude::*;
use vstd::slice::{slice_subrange, slice_to_vec};
use vstd::string::StringSliceAdditionalSpecFns;
use crate::error::{Field, ParseError};
use crate::text::{contains, contains_bytes, find, first_occurrence, line_views, lines, split_lines};

verus! {

/// What stands between a label and its value, and ends the value.
pub open spec fn separator() -> Seq<u8> {
    ": ".spec_bytes()
}

impl Field {
    /// The label by which a line of the decoded text announces the field.
    pub open spec fn label(self) -> Seq<u8> {
        match self {
            Field::Issuer => "Issuer:".spec_bytes(),
            Field::Subject => "Subject:".spec_bytes(),
            Field::NotAfter => "Not After :".spec_bytes(),
        }
    }

    /// Gives the label by which a line announces the field.
    pub fn label_bytes(&self) -> (label: &'static [u8])
        ensures
            label@ == self.label(),
    {
        match self {
            Field::Issuer => "Issuer:".as_bytes(),
            Field::Subject => "Subject:".as_bytes(),
            Field::NotAfter => "Not After :".as_bytes(),
        }
    }
}

/// The value that `line` gives: what stands between its first separator and
/// the next one, or the end of the line where no other follows. A line
/// without a separator gives none.
pub open spec fn line_value(line: Seq<u8>) -> Option<Seq<u8>> {
    match first_occurrence(line, separator()) {
        Some(i) => {
            let rest = line.skip(i + separator().len());
            match first_occurrence(rest, separator()) {
                Some(j) => Some(rest.take(j)),
                None => Some(rest),
            }
        },
        None => None,
    }
}

/// The last of `lines` in which `label` occurs.
pub open spec fn last_line_with(lines: Seq<Seq<u8>>, label: Seq<u8>) -> Option<Seq<u8>>
    decreases lines.len(),
{
    if lines.len() == 0 {
        None
    } else if contains(lines.last(), label) {
        Some(lines.last())
    } else {
        last_line_with(lines.drop_last(), label)
    }
}

/// The value of `field` among `lines`: the one that the last line with the
/// field's label gives.
pub open spec fn value_in_lines(lines: Seq<Seq<u8>>, field: Field) -> Option<Seq<u8>> {
    match last_line_with(lines, field.label()) {
        Some(line) => line_value(line),
        None => None,
    }
}

/// The value of `field` in the decoded text `text`.
pub open spec fn field_value(text: Seq<u8>, field: Field) -> Option<Seq<u8>> {
    value_in_lines(lines(text), field)
}

/// The byte string that an optional vector holds.
pub open spec fn optional_bytes(value: Option<Vec<u8>>) -> Option<Seq<u8>> {
    match value {
        Some(bytes) => Some(bytes@),
        None => None,
    }
}

/// The fields that the policies read, each absent where the decoded text
/// gives it no value.
#[derive(Clone, Debug, PartialEq, Eq)]
pub struct CertificateFields {
    pub issuer: Option<Vec<u8>>,
    pub subject: Option<Vec<u8>>,
    pub not_after: Option<Vec<u8>>,
}

/// What a `CertificateFields` holds.
pub struct FieldsView {
    pub issuer: Option<Seq<u8>>,
    pub subject: Option<Seq<u8>>,
    pub not_after: Option<Seq<u8>>,
}

impl FieldsView {
    /// The value of `field`.
    pub open spec fn value(self, field: Field) -> Option<Seq<u8>> {
        match field {
            Field::Issuer => self.issuer,
            Field::Subject => self.subject,
            Field::NotAfter => self.not_after,
        }
    }
}

impl View for CertificateFields {
    type V = FieldsView;

    open spec fn view(&self) -> FieldsView {
        FieldsView {
            issuer: optional_bytes(self.issuer),
            subject: optional_bytes(self.subject),
            not_after: optional_bytes(self.not_after),
        }
    }
}

/// The fields that the decoded text `text` gives.
pub open spec fn fields_of(text: Seq<u8>) -> FieldsView {
    FieldsView {
        issuer: field_value(text, Field::Issuer),
        subject: field_value(text, Field::Subject),
        not_after: field_value(text, Field::NotAfter),
    }
}

impl CertificateFields {
    /// Gives the value of `field`, or says that it is missing.
    pub fn require(&self, field: Field) -> (value: Result<&[u8], ParseError>)
        ensures
            match value {
                Ok(bytes) => self@.value(field) == Some(bytes@),
                Err(e) => self@.value(field).is_none() && e == ParseError::MissingField(field),
            },
    {
        let held = match field {
            Field::Issuer => &self.issuer,
            Field::Subject => &self.subject,
            Field::NotAfter => &self.not_after,
        };
        match held {
            Some(bytes) => Ok(bytes.as_slice()),
            None => Err(ParseError::MissingField(field)),
        }
    }
}

/// Reads the value that `line` gives.
pub fn value_of_line(line: &[u8]) -> (value: Option<Vec<u8>>)
    ensures
        optional_bytes(value) == line_value(line@),
{
    let sep = ": ".as_bytes();
    match find(line, sep) {
        Some(i) => {
            let end: usize = line.len();
            let rest = slice_subrange(line, i + sep.len(), end);
            match find(rest, sep) {
                Some(j) => Some(slice_to_vec(slice_subrange(rest, 0, j))),
                None => Some(slice_to_vec(rest)),
            }
        },
        None => None,
    }
}

/// Reads the value of `field` among `lines`.
pub fn find_field(lines: &Vec<Vec<u8>>, field: Field) -> (value: Option<Vec<u8>>)
    ensures
        optional_bytes(value) == value_in_lines(line_views(lines@), field),
{
    let label = field.label_bytes();
    let ghost all = line_views(lines@);
    let mut k: usize = lines.len();
    assert(all.take(k as int) =~= all);
    while k > 0
        invariant
            k <= lines@.len(),
            all == line_views(lines@),
            label@ == field.label(),
            last_line_with(all, field.label()) == last_line_with(all.take(k as int), field.label()),
        decreases k,
    {
        assert(all.take(k as int).drop_last() =~= all.take(k - 1));
        if contains_bytes(lines[k - 1].as_slice(), label) {
            return value_of_line(lines[k - 1].as_slice());
        }
        k -= 1;
    }
    None
}

/// Reads the three fields from the decoded text `text`.
pub fn extract_fields(text: &[u8]) -> (fields: CertificateFields)
    ensures
        fields@ == fields_of(text@),
{
    let lines = split_lines(text);
    CertificateFields {
        issuer: find_field(&lines, Field::Issuer),
        subject: find_field(&lines, Field::Subject),
        not_after: find_field(&lines, Field::NotAfter),
    }
}

} // verus!
