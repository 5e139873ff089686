use cert_analysis::analysis::{
    analyze_certificate, completion_notice, react, step, Action, Event, Notice,
};
use cert_analysis::date::Date;
use cert_analysis::error::{AnalysisError, Field, ParseError};
use cert_analysis::policy::Finding;
use cert_analysis::results::{Criticity, Results};

const DEBUG_EXPIRED: &str = "Certificate:
    Data:
        Version: 3 (0x2)
    Signature Algorithm: sha256WithRSAEncryption
        Issuer: C=US, O=Android, CN=Android Debug
        Validity
            Not Before: Jan  1 00:00:00 1990 GMT
            Not After : Jan  5 00:00:00 2000 GMT
        Subject: C=US, O=Android, CN=Android Debug
";

const RELEASE: &str = "Certificate:
    Data:
        Issuer: C=ES, O=Example, CN=Release Key
        Validity
            Not Before: Mar  1 00:00:00 2015 GMT
            Not After : Dec 15 00:00:00 9999 GMT
        Subject: C=ES, O=Example, CN=App
";

fn date(year: i32, month: u32, day: u32) -> Date {
    Date { year, month, day }
}

fn titles(results: &Results) -> Vec<&str> {
    results.vulnerabilities().iter().map(|v| v.name.as_str()).collect()
}

fn entry(name: &str) -> Event {
    Event::Entry(String::from(name))
}

fn decoded(text: &str) -> Event {
    Event::Decoded(String::from(text))
}

/// Runs an analysis over a directory listing on a fixed day. The decoder is
/// stood for by `decode`; the names it was asked for are returned with the
/// last action.
fn run(
    names: &[&str],
    decode: fn(&str) -> Event,
    today: Date,
    results: &mut Results,
) -> (Vec<String>, Action) {
    let mut asked: Vec<String> = Vec::new();
    let mut next = 0;
    let mut event = if names.is_empty() { Event::End } else { entry(names[0]) };
    loop {
        match react(results, event, today) {
            Action::NextEntry => {
                next += 1;
                event = if next < names.len() { entry(names[next]) } else { Event::End };
            }
            Action::Decode(name) => {
                event = decode(&name);
                asked.push(name);
            }
            last => return (asked, last),
        }
    }
}

#[test]
fn debug_issuer_gives_one_critical_finding() {
    let mut results = Results::new();
    let outcome = analyze_certificate(
        "        Issuer: C=US, O=Android, CN=Android Debug\n        Subject: CN=App\n            Not After : Jan  5 00:00:00 2000 GMT\n",
        date(1999, 1, 1),
        &mut results,
    );
    assert_eq!(outcome, Ok(()));
    assert_eq!(results.vulnerabilities().len(), 1);
    assert_eq!(results.vulnerabilities()[0].criticity, Criticity::Critical);
    assert_eq!(results.vulnerabilities()[0].name, "Android Debug Certificate");
}

#[test]
fn debug_issuer_alone_is_found_before_the_subject_is_missed() {
    let mut results = Results::new();
    let outcome = analyze_certificate("Issuer: C=US, O=Android, CN=Android Debug", date(2024, 1, 1), &mut results);
    assert_eq!(outcome, Err(ParseError::MissingField(Field::Subject)));
    assert_eq!(titles(&results), vec!["Android Debug Certificate"]);
    assert_eq!(results.vulnerabilities()[0].criticity, Criticity::Critical);
}

#[test]
fn other_issuer_gives_no_debug_finding() {
    let mut results = Results::new();
    assert_eq!(analyze_certificate(RELEASE, date(2024, 1, 1), &mut results), Ok(()));
    assert!(results.vulnerabilities().is_empty());
    let mut expired = Results::new();
    let text = "Issuer: C=ES, O=Example, CN=Release Key\nSubject: CN=App\nNot After : Jan  5 00:00:00 2000 GMT\n";
    assert_eq!(analyze_certificate(text, date(2024, 1, 1), &mut expired), Ok(()));
    assert_eq!(titles(&expired), vec!["Expired certificate"]);
}

#[test]
fn only_the_issuer_field_counts_for_the_debug_finding() {
    let mut results = Results::new();
    let text = "Issuer: CN=Release\nSubject: CN=Android Debug\nNot After : Dec 15 00:00:00 9999 GMT\n";
    assert_eq!(analyze_certificate(text, date(2024, 1, 1), &mut results), Ok(()));
    assert!(results.vulnerabilities().is_empty());
    let mut cut = Results::new();
    let text = "Issuer: CN=Release: Android Debug\nSubject: CN=App\nNot After : Dec 15 00:00:00 9999 GMT\n";
    assert_eq!(analyze_certificate(text, date(2024, 1, 1), &mut cut), Ok(()));
    assert!(cut.vulnerabilities().is_empty());
}

#[test]
fn expired_certificate_gives_one_high_finding() {
    let mut results = Results::new();
    let text = "Issuer: CN=Release\nSubject: CN=App\nNot After : Jan  5 00:00:00 2000 GMT\n";
    assert_eq!(analyze_certificate(text, date(2000, 1, 6), &mut results), Ok(()));
    assert_eq!(results.vulnerabilities().len(), 1);
    assert_eq!(results.vulnerabilities()[0].criticity, Criticity::High);
    assert_eq!(results.vulnerabilities()[0].name, "Expired certificate");
    assert_eq!(results.vulnerabilities()[0], Finding::ExpiredCertificate.to_vulnerability());
}

#[test]
fn certificate_that_is_still_valid_gives_no_finding() {
    let text = "Issuer: CN=Release\nSubject: CN=App\nNot After : Jan  5 00:00:00 2000 GMT\n";
    for today in [date(2000, 1, 5), date(2000, 1, 4), date(1999, 12, 31), date(1999, 6, 30)] {
        let mut results = Results::new();
        assert_eq!(analyze_certificate(text, today, &mut results), Ok(()));
        assert!(results.vulnerabilities().is_empty());
    }
}

#[test]
fn single_and_double_digit_days_are_both_read() {
    let single = "Issuer: CN=Release\nSubject: CN=App\nNot After : Jan  5 00:00:00 2000 GMT\n";
    let double = "Issuer: CN=Release\nSubject: CN=App\nNot After : Jan 15 00:00:00 2000 GMT\n";
    let mut results = Results::new();
    assert_eq!(analyze_certificate(single, date(2000, 1, 5), &mut results), Ok(()));
    assert_eq!(titles(&results), Vec::<&str>::new());
    assert_eq!(analyze_certificate(single, date(2000, 1, 6), &mut results), Ok(()));
    assert_eq!(titles(&results), vec!["Expired certificate"]);
    let mut results = Results::new();
    assert_eq!(analyze_certificate(double, date(2000, 1, 15), &mut results), Ok(()));
    assert_eq!(titles(&results), Vec::<&str>::new());
    assert_eq!(analyze_certificate(double, date(2000, 1, 16), &mut results), Ok(()));
    assert_eq!(titles(&results), vec!["Expired certificate"]);
}

#[test]
fn unrecognized_month_reports_no_expiry() {
    let text = "Issuer: CN=Release\nSubject: CN=App\nNot After : Foo  5 00:00:00 2000 GMT\n";
    for today in [date(1999, 1, 1), date(2000, 1, 1), date(2000, 12, 31), date(2024, 1, 1)] {
        let mut results = Results::new();
        assert_eq!(analyze_certificate(text, today, &mut results), Err(ParseError::InvalidDate));
        assert!(results.vulnerabilities().is_empty());
        assert_eq!(results.certificate(), Some(text));
    }
}

#[test]
fn missing_issuer_is_an_error() {
    let mut results = Results::new();
    let text = "Subject: CN=x\nNot After : Jan  5 00:00:00 2000 GMT\n";
    assert_eq!(analyze_certificate(text, date(2024, 1, 1), &mut results), Err(ParseError::MissingField(Field::Issuer)));
    assert!(results.vulnerabilities().is_empty());
    assert_eq!(results.certificate(), Some(text));
    let mut empty = Results::new();
    assert_eq!(analyze_certificate("", date(2024, 1, 1), &mut empty), Err(ParseError::MissingField(Field::Issuer)));
    assert_eq!(empty.certificate(), Some(""));
}

#[test]
fn missing_subject_is_an_error() {
    let mut results = Results::new();
    let text = "Issuer: CN=x\nNot After : Jan  5 00:00:00 2000 GMT\n";
    assert_eq!(analyze_certificate(text, date(2024, 1, 1), &mut results), Err(ParseError::MissingField(Field::Subject)));
    assert!(results.vulnerabilities().is_empty());
    assert_eq!(results.certificate(), Some(text));
}

#[test]
fn missing_not_after_is_an_error() {
    let mut results = Results::new();
    let text = "Issuer: CN=x\nSubject: CN=x\nNot Before: Jan  5 00:00:00 2000 GMT\n";
    assert_eq!(analyze_certificate(text, date(2024, 1, 1), &mut results), Err(ParseError::MissingField(Field::NotAfter)));
    assert!(results.vulnerabilities().is_empty());
}

#[test]
fn unreadable_date_is_an_error() {
    let mut results = Results::new();
    let text = "Issuer: CN=x\nSubject: CN=x\nNot After : 2000-01-05T00:00:00Z\n";
    assert_eq!(analyze_certificate(text, date(2024, 1, 1), &mut results), Err(ParseError::InvalidDate));
    assert!(results.vulnerabilities().is_empty());
}

#[test]
fn text_that_is_not_ascii_is_read_by_its_bytes() {
    let mut results = Results::new();
    let text = "Issuer: CN=Señor Android Debug\nSubject: CN=Señor\nNot After : Jan  5 00:00:00 2000 GMT\n";
    assert_eq!(analyze_certificate(text, date(2024, 1, 1), &mut results), Ok(()));
    assert_eq!(titles(&results), vec!["Android Debug Certificate", "Expired certificate"]);
    assert_eq!(results.certificate(), Some(text));
}

#[test]
fn bundle_with_debug_certificate_in_the_past() {
    let mut results = Results::new();
    let (asked, last) = run(
        &["MANIFEST.MF", "CERT.SF", "CERT.RSA"],
        |_| decoded(DEBUG_EXPIRED),
        date(2024, 5, 17),
        &mut results,
    );
    assert_eq!(last, Action::Finish);
    assert_eq!(asked, vec![String::from("CERT.RSA")]);
    assert_eq!(results.vulnerabilities().len(), 2);
    assert_eq!(results.vulnerabilities()[0], Finding::DebugCertificate.to_vulnerability());
    assert_eq!(results.vulnerabilities()[1], Finding::ExpiredCertificate.to_vulnerability());
    assert_eq!(results.certificate(), Some(DEBUG_EXPIRED));
}

#[test]
fn bundle_without_certificate_files() {
    let mut results = Results::new();
    let (asked, last) = run(
        &["MANIFEST.MF", "CERT.SF", "cert.rsa", ".RSA", "services"],
        |_| decoded(DEBUG_EXPIRED),
        date(2024, 5, 17),
        &mut results,
    );
    assert_eq!(last, Action::Finish);
    assert!(asked.is_empty());
    assert!(results.vulnerabilities().is_empty());
    assert_eq!(results.certificate(), None);
}

#[test]
fn empty_bundle_finishes_at_once() {
    let mut results = Results::new();
    let (asked, last) = run(&[], |_| decoded(DEBUG_EXPIRED), date(2024, 5, 17), &mut results);
    assert_eq!(last, Action::Finish);
    assert!(asked.is_empty());
    assert_eq!(results, Results::new());
}

#[test]
fn bundle_with_two_certificates_keeps_the_last_text() {
    let mut results = Results::new();
    let (asked, last) = run(
        &["A.RSA", "B.DSA"],
        |name| if name == "A.RSA" { decoded(DEBUG_EXPIRED) } else { decoded(RELEASE) },
        date(2024, 5, 17),
        &mut results,
    );
    assert_eq!(last, Action::Finish);
    assert_eq!(asked, vec![String::from("A.RSA"), String::from("B.DSA")]);
    assert_eq!(titles(&results), vec!["Android Debug Certificate", "Expired certificate"]);
    assert_eq!(results.certificate(), Some(RELEASE));
}

#[test]
fn decoder_that_cannot_start_aborts_the_analysis() {
    let mut results = Results::new();
    let (asked, last) = run(
        &["CERT.RSA", "OTHER.RSA"],
        |_| Event::DecoderNotStarted(String::from("No such file or directory")),
        date(2024, 5, 17),
        &mut results,
    );
    assert_eq!(last, Action::Abort(AnalysisError::ToolSpawn(String::from("No such file or directory"))));
    assert_eq!(asked, vec![String::from("CERT.RSA")]);
    assert_eq!(results, Results::new());
}

#[test]
fn decoder_that_fails_aborts_the_analysis() {
    let mut results = Results::new();
    let (asked, last) = run(
        &["CERT.DSA", "OTHER.RSA"],
        |_| Event::DecoderFailed(String::from("unable to load PKCS7 object")),
        date(2024, 5, 17),
        &mut results,
    );
    assert_eq!(last, Action::Abort(AnalysisError::ToolExit(String::from("unable to load PKCS7 object"))));
    assert_eq!(asked, vec![String::from("CERT.DSA")]);
    assert_eq!(results, Results::new());
}

#[test]
fn text_that_cannot_be_read_aborts_the_analysis() {
    let mut results = Results::new();
    let (asked, last) = run(
        &["CERT.RSA", "OTHER.RSA"],
        |_| decoded("no certificate here"),
        date(2024, 5, 17),
        &mut results,
    );
    assert_eq!(last, Action::Abort(AnalysisError::Parse(ParseError::MissingField(Field::Issuer))));
    assert_eq!(asked, vec![String::from("CERT.RSA")]);
    assert!(results.vulnerabilities().is_empty());
    assert_eq!(results.certificate(), Some("no certificate here"));
}

#[test]
fn unreadable_directory_ends_the_analysis_with_a_warning() {
    let mut results = Results::new();
    let today = date(2024, 5, 17);
    assert_eq!(react(&mut results, entry("CERT.RSA"), today), Action::Decode(String::from("CERT.RSA")));
    assert_eq!(react(&mut results, decoded(DEBUG_EXPIRED), today), Action::NextEntry);
    let action = react(&mut results, Event::ReadFailed(String::from("Permission denied")), today);
    assert_eq!(action, Action::FinishWithWarning(String::from("Permission denied")));
    assert_eq!(results.vulnerabilities().len(), 2);
    assert_eq!(results.certificate(), Some(DEBUG_EXPIRED));
}

#[test]
fn react_asks_for_the_decoder_on_certificate_files_only() {
    let today = date(2024, 5, 17);
    let mut results = Results::new();
    assert_eq!(react(&mut results, entry("CERT.RSA"), today), Action::Decode(String::from("CERT.RSA")));
    assert_eq!(react(&mut results, entry("CERT.DSA"), today), Action::Decode(String::from("CERT.DSA")));
    for name in ["CERT.SF", "MANIFEST.MF", "CERT.rsa", "CERT.EC", "RSA", ".DSA", "", "CERT.RSA.old"] {
        assert_eq!(react(&mut results, entry(name), today), Action::NextEntry);
    }
    assert_eq!(react(&mut results, Event::End, today), Action::Finish);
    assert_eq!(results, Results::new());
}

#[test]
fn step_asks_for_the_decoder_on_certificate_files_only() {
    let mut results = Results::new();
    assert_eq!(step(&mut results, entry("CERT.RSA")), Action::Decode(String::from("CERT.RSA")));
    assert_eq!(step(&mut results, entry("CERT.SF")), Action::NextEntry);
    assert_eq!(step(&mut results, Event::End), Action::Finish);
    assert_eq!(
        step(&mut results, Event::ReadFailed(String::from("gone"))),
        Action::FinishWithWarning(String::from("gone"))
    );
    assert_eq!(
        step(&mut results, Event::DecoderNotStarted(String::from("missing"))),
        Action::Abort(AnalysisError::ToolSpawn(String::from("missing")))
    );
    assert_eq!(
        step(&mut results, Event::DecoderFailed(String::from("bad input"))),
        Action::Abort(AnalysisError::ToolExit(String::from("bad input")))
    );
    assert_eq!(results, Results::new());
}

#[test]
fn step_judges_decoded_text_on_the_present_day() {
    let mut results = Results::new();
    assert_eq!(step(&mut results, decoded(DEBUG_EXPIRED)), Action::NextEntry);
    assert_eq!(titles(&results), vec!["Android Debug Certificate", "Expired certificate"]);
    assert_eq!(results.certificate(), Some(DEBUG_EXPIRED));
    let mut results = Results::new();
    assert_eq!(step(&mut results, decoded(RELEASE)), Action::NextEntry);
    assert!(results.vulnerabilities().is_empty());
    assert_eq!(results.certificate(), Some(RELEASE));
}

#[test]
fn step_reports_text_that_cannot_be_read() {
    let mut results = Results::new();
    assert_eq!(
        step(&mut results, decoded("Issuer: CN=x\n")),
        Action::Abort(AnalysisError::Parse(ParseError::MissingField(Field::Subject)))
    );
    assert_eq!(
        step(&mut results, decoded("Issuer: CN=x\nSubject: CN=x\n")),
        Action::Abort(AnalysisError::Parse(ParseError::MissingField(Field::NotAfter)))
    );
    assert_eq!(
        step(&mut results, decoded("Issuer: CN=x\nSubject: CN=x\nNot After : never\n")),
        Action::Abort(AnalysisError::Parse(ParseError::InvalidDate))
    );
}

#[test]
fn completion_notice_follows_the_flags() {
    assert_eq!(completion_notice(false, false), Notice::Brief);
    assert_eq!(completion_notice(true, false), Notice::Detailed);
    assert_eq!(completion_notice(false, true), Notice::Silent);
    assert_eq!(completion_notice(true, true), Notice::Silent);
}
