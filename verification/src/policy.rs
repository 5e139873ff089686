//! The signing policies and what they find.

use vstd::prelude::*;
use vstd::string::StringSliceAdditionalSpecFns;
use crate::date::{not_after_date, parse_not_after, Date};
use crate::error::{Field, ParseError};
use crate::fields::{CertificateFields, FieldsView};
use crate::results::{Criticity, Results, Vulnerability, VulnerabilityView};
use crate::text::{bytes_equal, contains, contains_bytes};

verus! {

/// What a policy holds against a certificate.
#[derive(Clone, Copy, Debug, PartialEq, Eq, Structural)]
pub enum Finding {
    /// The certificate is the one that development tools sign with.
    DebugCertificate,
    /// The validity period of the certificate is over.
    ExpiredCertificate,
}

impl Finding {
    /// How severe the finding is.
    pub open spec fn severity(self) -> Criticity {
        match self {
            Finding::DebugCertificate => Criticity::Critical,
            Finding::ExpiredCertificate => Criticity::High,
        }
    }

    /// The title under which the finding is recorded.
    pub open spec fn title(self) -> Seq<char> {
        match self {
            Finding::DebugCertificate => "Android Debug Certificate"@,
            Finding::ExpiredCertificate => "Expired certificate"@,
        }
    }

    /// What the finding tells the reader of a report.
    pub open spec fn description(self) -> Seq<char> {
        match self {
            Finding::DebugCertificate => "The application is signed with the Android Debug Certificate. This certificate should never be used for publishing an app."@,
            Finding::ExpiredCertificate => "The certificate of the application has expired. You should not use applications with expired certificates since the app is not secure anymore."@,
        }
    }

    /// The record of the finding in the results store. It points at no place
    /// in the sources.
    pub open spec fn record(self) -> VulnerabilityView {
        VulnerabilityView {
            criticity: self.severity(),
            name: self.title(),
            description: self.description(),
            file: None,
            start_line: None,
            end_line: None,
            code: None,
        }
    }

    /// Makes the record of the finding for the results store.
    pub fn to_vulnerability(&self) -> (vulnerability: Vulnerability)
        ensures
            vulnerability@ == self.record(),
    {
        match self {
            Finding::DebugCertificate => Vulnerability::new(
                Criticity::Critical,
                "Android Debug Certificate",
                "The application is signed with the Android Debug Certificate. This certificate should never be used for publishing an app.",
                None,
                None,
                None,
                None,
            ),
            Finding::ExpiredCertificate => Vulnerability::new(
                Criticity::High,
                "Expired certificate",
                "The certificate of the application has expired. You should not use applications with expired certificates since the app is not secure anymore.",
                None,
                None,
                None,
                None,
            ),
        }
    }
}

/// The records of `findings`, one by one.
pub open spec fn records(findings: Seq<Finding>) -> Seq<VulnerabilityView> {
    findings.map_values(|finding: Finding| finding.record())
}

/// What the distinguished name of the debug certificate's issuer holds.
pub open spec fn debug_marker() -> Seq<u8> {
    "Android Debug".spec_bytes()
}

/// The issuer `issuer` is that of the debug certificate.
pub open spec fn signed_for_debugging(issuer: Seq<u8>) -> bool {
    contains(issuer, debug_marker())
}

/// The issuer and the subject of the certificate are the same.
pub open spec fn self_signed(issuer: Seq<u8>, subject: Seq<u8>) -> bool {
    issuer == subject
}

/// What the expiration policy says of a certificate that ends on
/// `not_after`, on the day `today`. A date whose month was not recognized is
/// no date to judge by.
pub open spec fn expiration(today: Date, not_after: Date) -> Result<Option<Finding>, ParseError> {
    if not_after.month == 0 {
        Err(ParseError::InvalidDate)
    } else if today.later_than(not_after) {
        Ok(Some(Finding::ExpiredCertificate))
    } else {
        Ok(None)
    }
}

/// What the debug-signing policy finds in a certificate issued by `issuer`.
pub open spec fn debug_findings(issuer: Seq<u8>) -> Seq<Finding> {
    if signed_for_debugging(issuer) {
        seq![Finding::DebugCertificate]
    } else {
        seq![]
    }
}

/// What the expiration policy says of a certificate whose not-after field
/// is `not_after`, on the day `today`.
pub open spec fn expiration_of(not_after: Option<Seq<u8>>, today: Date) -> Result<
    Option<Finding>,
    ParseError,
> {
    match not_after {
        Some(value) => match not_after_date(value) {
            Ok(date) => expiration(today, date),
            Err(e) => Err(e),
        },
        None => Err(ParseError::MissingField(Field::NotAfter)),
    }
}

/// What the expiration policy finds in a certificate whose not-after field
/// is `not_after`, on the day `today`.
pub open spec fn expiry_findings(not_after: Option<Seq<u8>>, today: Date) -> Seq<Finding> {
    match expiration_of(not_after, today) {
        Ok(Some(finding)) => seq![finding],
        _ => seq![],
    }
}

/// What the policies find in a certificate with the fields `fields`, on the
/// day `today`, in the order in which they find it. The debug-signing policy
/// needs the issuer, the expiration policy all three fields.
pub open spec fn policy_findings(fields: FieldsView, today: Date) -> Seq<Finding> {
    match fields.issuer {
        Some(issuer) => if fields.subject is Some {
            debug_findings(issuer) + expiry_findings(fields.not_after, today)
        } else {
            debug_findings(issuer)
        },
        None => seq![],
    }
}

/// Whether the policies could be evaluated on a certificate with the fields
/// `fields`, on the day `today`: the first thing that they lack, if any, in
/// the order issuer, subject, not-after date.
pub open spec fn policy_outcome(fields: FieldsView, today: Date) -> Result<(), ParseError> {
    if fields.issuer is None {
        Err(ParseError::MissingField(Field::Issuer))
    } else if fields.subject is None {
        Err(ParseError::MissingField(Field::Subject))
    } else {
        match expiration_of(fields.not_after, today) {
            Ok(_) => Ok(()),
            Err(e) => Err(e),
        }
    }
}

/// Applies the debug-signing policy to the issuer of a certificate.
pub fn debug_certificate_check(issuer: &[u8]) -> (finding: Option<Finding>)
    ensures
        finding == if signed_for_debugging(issuer@) {
            Some(Finding::DebugCertificate)
        } else {
            None::<Finding>
        },
{
    if contains_bytes(issuer, "Android Debug".as_bytes()) {
        Some(Finding::DebugCertificate)
    } else {
        None
    }
}

/// Tells whether the issuer and the subject of a certificate are the same.
pub fn is_self_signed(issuer: &[u8], subject: &[u8]) -> (same: bool)
    ensures
        same == self_signed(issuer@, subject@),
{
    bytes_equal(issuer, subject)
}

/// Applies the expiration policy to a certificate that ends on `not_after`,
/// on the day `today`.
pub fn expiration_check(today: Date, not_after: Date) -> (verdict: Result<
    Option<Finding>,
    ParseError,
>)
    ensures
        verdict == expiration(today, not_after),
{
    if not_after.month == 0 {
        Err(ParseError::InvalidDate)
    } else if today.is_later_than(&not_after) {
        Ok(Some(Finding::ExpiredCertificate))
    } else {
        Ok(None)
    }
}

/// Evaluates the policies on `fields` on the day `today` and adds what they
/// find to `results`, up to the first thing that they lack.
pub fn evaluate(fields: &CertificateFields, today: Date, results: &mut Results) -> (outcome: Result<
    (),
    ParseError,
>)
    ensures
        final(results)@.certificate == old(results)@.certificate,
        final(results)@.vulnerabilities == old(results)@.vulnerabilities + records(
            policy_findings(fields@, today),
        ),
        outcome == policy_outcome(fields@, today),
{
    let issuer = match fields.require(Field::Issuer) {
        Ok(issuer) => issuer,
        Err(e) => {
            return Err(e);
        },
    };
    match debug_certificate_check(issuer) {
        Some(finding) => {
            results.add_vulnerability(finding.to_vulnerability());
        },
        None => {},
    }
    let subject = match fields.require(Field::Subject) {
        Ok(subject) => subject,
        Err(e) => {
            return Err(e);
        },
    };
    if is_self_signed(issuer, subject) {
        // The certificate is self-signed. No policy acts on that.
    }
    let value = match fields.require(Field::NotAfter) {
        Ok(value) => value,
        Err(e) => {
            return Err(e);
        },
    };
    let not_after = match parse_not_after(value) {
        Ok(date) => date,
        Err(e) => {
            return Err(e);
        },
    };
    match expiration_check(today, not_after) {
        Ok(Some(finding)) => {
            results.add_vulnerability(finding.to_vulnerability());
            Ok(())
        },
        Ok(None) => Ok(()),
        Err(e) => Err(e),
    }
}

} // verus!
