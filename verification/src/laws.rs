//! What holds of every analysis.

use vstd::prelude::*;
use crate::analysis::{action_after, certificate_findings, results_after, Event};
use crate::candidate::{extension, is_certificate_name, last_dot_at, DOT};
use crate::date::{
    month_number, not_after_date, Date, DAY_START, MONTH_END, MONTH_START, SPACE, YEAR_END,
    YEAR_START,
};
use crate::error::{Field, ParseError};
use crate::fields::{field_value, last_line_with};
use crate::number::{decimal_i32, decimal_u32, digits_value, is_digit, ZERO};
use crate::policy::{expiration_of, expiry_findings, signed_for_debugging, Finding};
use crate::results::ResultsView;
use crate::text::contains;
use vstd::string::{is_ascii_spec_bytes, StringSliceAdditionalSpecFns};
use vstd::utf8::encode_utf8;

verus! {

/// The decoder is asked for on the report of an entry whose extension is
/// `RSA` or `DSA`, for the file of that entry, and on no other event. Only
/// decoded text changes the store.
pub proof fn law_decoder_runs_on_certificates_only(before: ResultsView, event: Event, today: Date)
    ensures
        action_after(event, today) is Decode <==> event is Entry && is_certificate_name(
            encode_utf8(event->Entry_0@),
        ),
        action_after(event, today) is Decode ==> action_after(event, today)->Decode_0
            == event->Entry_0,
        !(event is Decoded) ==> results_after(before, event, today) == before,
{
}

/// The names of the certificate files are those that end in `.RSA` or in
/// `.DSA` after one byte or more.
pub proof fn law_certificate_names(name: Seq<u8>)
    ensures
        is_certificate_name(name) <==> exists|stem: Seq<u8>|
            stem.len() > 0 && (name == stem + ".RSA".spec_bytes() || name == stem
                + ".DSA".spec_bytes()),
{
    reveal_strlit("RSA");
    reveal_strlit("DSA");
    reveal_strlit(".RSA");
    reveal_strlit(".DSA");
    is_ascii_spec_bytes("RSA");
    is_ascii_spec_bytes("DSA");
    is_ascii_spec_bytes(".RSA");
    is_ascii_spec_bytes(".DSA");
    let rsa = "RSA".spec_bytes();
    let dsa = "DSA".spec_bytes();
    if is_certificate_name(name) {
        let i = choose|i: int| 0 < i && last_dot_at(name, i);
        let stem = name.take(i);
        let ext = name.skip(i + 1);
        assert(name =~= stem + (seq![DOT] + ext));
        assert(stem.len() > 0 && (name == stem + ".RSA".spec_bytes() || name == stem
            + ".DSA".spec_bytes()));
    }
    if exists|stem: Seq<u8>|
        stem.len() > 0 && (name == stem + ".RSA".spec_bytes() || name == stem
            + ".DSA".spec_bytes()) {
        let stem = choose|stem: Seq<u8>|
            stem.len() > 0 && (name == stem + ".RSA".spec_bytes() || name == stem
                + ".DSA".spec_bytes());
        let i = stem.len() as int;
        let ext = if name == stem + ".RSA".spec_bytes() {
            rsa
        } else {
            dsa
        };
        assert(last_dot_at(name, i));
        assert(extension(name) == Some(ext));
    }
}

/// Of the lines that hold a label, the last one gives the field its value.
pub proof fn law_last_line_wins(lines: Seq<Seq<u8>>, label: Seq<u8>, i: int)
    requires
        0 <= i < lines.len(),
        contains(lines[i], label),
        forall|j: int| i < j < lines.len() ==> !contains(#[trigger] lines[j], label),
    ensures
        last_line_with(lines, label) == Some(lines[i]),
    decreases lines.len(),
{
    if i < lines.len() - 1 {
        law_last_line_wins(lines.drop_last(), label, i);
    }
}

/// The debug certificate is found where the text gives an issuer that holds
/// the debug marker, and nowhere else.
pub proof fn law_debug_certificate(text: Seq<u8>, today: Date)
    ensures
        certificate_findings(text, today).contains(Finding::DebugCertificate) <==> (field_value(
            text,
            Field::Issuer,
        ) matches Some(issuer) && signed_for_debugging(issuer)),
{
    let found = certificate_findings(text, today);
    match field_value(text, Field::Issuer) {
        Some(issuer) => {
            if signed_for_debugging(issuer) {
                assert(found[0] == Finding::DebugCertificate);
            }
        },
        None => {},
    }
}

/// Nothing is found twice in one certificate.
pub proof fn law_no_finding_twice(text: Seq<u8>, today: Date)
    ensures
        certificate_findings(text, today).no_duplicates(),
{
}

/// An expired certificate is found where the text gives an issuer, a subject
/// and a not-after value that is a date with a recognized month, and the day
/// of the analysis comes after that date; and nowhere else.
pub proof fn law_expired_certificate(text: Seq<u8>, today: Date)
    ensures
        certificate_findings(text, today).contains(Finding::ExpiredCertificate) <==> {
            &&& field_value(text, Field::Issuer) is Some
            &&& field_value(text, Field::Subject) is Some
            &&& field_value(text, Field::NotAfter) matches Some(value)
            &&& not_after_date(value) matches Ok(date)
            &&& date.month != 0
            &&& today.later_than(date)
        },
{
    let found = certificate_findings(text, today);
    match field_value(text, Field::Issuer) {
        Some(issuer) => {
            let expiry = expiry_findings(field_value(text, Field::NotAfter), today);
            if field_value(text, Field::Subject) is Some && expiry.len() > 0 {
                assert(found[found.len() - 1] == Finding::ExpiredCertificate);
            }
        },
        None => {},
    }
}

/// A not-after value whose month is not recognized gives no date to judge
/// by: whatever the day of the analysis, no expired certificate is found and
/// the value is refused as a date.
pub proof fn law_unrecognized_month(value: Seq<u8>, today: Date)
    requires
        month_number(value.subrange(MONTH_START as int, MONTH_END as int)) == 0,
    ensures
        not_after_date(value) matches Ok(date) ==> date.month == 0,
        expiration_of(Some(value), today) == Err::<Option<Finding>, ParseError>(
            ParseError::InvalidDate,
        ),
        expiry_findings(Some(value), today) == Seq::<Finding>::empty(),
{
}

/// In a not-after value with a year, a day written as a space and a digit
/// is the number of that digit.
pub proof fn law_single_digit_day(value: Seq<u8>)
    requires
        value.len() >= YEAR_END,
        decimal_i32(value.subrange(YEAR_START as int, YEAR_END as int)) is Some,
        value[DAY_START as int] == SPACE,
        is_digit(value[DAY_START + 1]),
    ensures
        not_after_date(value) matches Ok(date) && date.day == value[DAY_START + 1] - ZERO,
{
    let one = value.subrange(DAY_START + 1, DAY_START + 2);
    assert(digits_value(one) == value[DAY_START + 1] - ZERO) by {
        reveal_with_fuel(digits_value, 2);
    }
}

/// In a not-after value with a year, a day written as two digits is ten
/// times the number of the first digit and the number of the second.
pub proof fn law_double_digit_day(value: Seq<u8>)
    requires
        value.len() >= YEAR_END,
        decimal_i32(value.subrange(YEAR_START as int, YEAR_END as int)) is Some,
        is_digit(value[DAY_START as int]),
        is_digit(value[DAY_START + 1]),
    ensures
        not_after_date(value) matches Ok(date) && date.day == 10 * (value[DAY_START as int] - ZERO)
            + (value[DAY_START + 1] - ZERO),
{
    let two = value.subrange(DAY_START as int, DAY_START + 2);
    assert(digits_value(two) == 10 * (value[DAY_START as int] - ZERO) + (value[DAY_START + 1]
        - ZERO)) by {
        reveal_with_fuel(digits_value, 3);
    }
}

/// Coming later is a strict total order of dates: no date comes after
/// itself, of two different dates one comes after the other and not the
/// other way round, and what comes after a later date comes after the
/// earlier one.
pub proof fn law_later_than_orders_dates(a: Date, b: Date, c: Date)
    ensures
        !a.later_than(a),
        a.later_than(b) ==> !b.later_than(a),
        a != b ==> a.later_than(b) || b.later_than(a),
        a.later_than(b) && b.later_than(c) ==> a.later_than(c),
{
}

} // verus!
