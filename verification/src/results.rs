//! The findings of an analysis and the store that collects them.

use vstd::prelude::*;

verus! {

/// How severe a finding is, from the least to the most severe.
#[derive(Clone, Copy, Debug, PartialEq, Eq, Structural)]
pub enum Criticity {
    Warning,
    Low,
    Medium,
    High,
    Critical,
}

/// The text that an optional string holds.
pub open spec fn optional_text(text: Option<String>) -> Option<Seq<char>> {
    match text {
        Some(s) => Some(s@),
        None => None,
    }
}

/// A security observation about the analyzed bundle.
#[derive(Clone, Debug, PartialEq, Eq)]
pub struct Vulnerability {
    pub criticity: Criticity,
    pub name: String,
    pub description: String,
    pub file: Option<String>,
    pub start_line: Option<usize>,
    pub end_line: Option<usize>,
    pub code: Option<String>,
}

/// What a `Vulnerability` says.
pub struct VulnerabilityView {
    pub criticity: Criticity,
    pub name: Seq<char>,
    pub description: Seq<char>,
    pub file: Option<Seq<char>>,
    pub start_line: Option<usize>,
    pub end_line: Option<usize>,
    pub code: Option<Seq<char>>,
}

impl View for Vulnerability {
    type V = VulnerabilityView;

    open spec fn view(&self) -> VulnerabilityView {
        VulnerabilityView {
            criticity: self.criticity,
            name: self.name@,
            description: self.description@,
            file: optional_text(self.file),
            start_line: self.start_line,
            end_line: self.end_line,
            code: optional_text(self.code),
        }
    }
}

impl Vulnerability {
    /// Makes a finding of the given severity, title and description, with
    /// the place in the sources that it is about, as far as it has one.
    pub fn new(
        criticity: Criticity,
        name: &str,
        description: &str,
        file: Option<String>,
        start_line: Option<usize>,
        end_line: Option<usize>,
        code: Option<String>,
    ) -> (vulnerability: Vulnerability)
        ensures
            vulnerability@ == (VulnerabilityView {
                criticity,
                name: name@,
                description: description@,
                file: optional_text(file),
                start_line,
                end_line,
                code: optional_text(code),
            }),
    {
        Vulnerability {
            criticity,
            name: name.to_owned(),
            description: description.to_owned(),
            file,
            start_line,
            end_line,
            code,
        }
    }
}

/// What a sequence of findings says, one by one.
pub open spec fn vulnerability_views(list: Seq<Vulnerability>) -> Seq<VulnerabilityView> {
    list.map_values(|v: Vulnerability| v@)
}

/// What a `Results` store holds.
pub struct ResultsView {
    /// The decoded text of the certificate, once one was stored.
    pub certificate: Option<Seq<char>>,
    /// The findings, in the order in which they were added.
    pub vulnerabilities: Seq<VulnerabilityView>,
}

/// The store of an analysis: the decoded text of the signing certificate and
/// the findings. Findings are only ever added.
#[derive(Clone, Debug, PartialEq, Eq)]
pub struct Results {
    certificate: Option<String>,
    vulnerabilities: Vec<Vulnerability>,
}

impl View for Results {
    type V = ResultsView;

    closed spec fn view(&self) -> ResultsView {
        ResultsView {
            certificate: optional_text(self.certificate),
            vulnerabilities: vulnerability_views(self.vulnerabilities@),
        }
    }
}

impl Results {
    /// Makes a store with no certificate text and no findings.
    pub fn new() -> (results: Results)
        ensures
            results@.certificate.is_none(),
            results@.vulnerabilities == Seq::<VulnerabilityView>::empty(),
    {
        let results = Results { certificate: None, vulnerabilities: Vec::new() };
        results
    }

    /// Stores `text` as the decoded text of the certificate, in place of any
    /// text stored before.
    pub fn set_certificate(&mut self, text: &str)
        ensures
            final(self)@.certificate == Some(text@),
            final(self)@.vulnerabilities == old(self)@.vulnerabilities,
    {
        self.certificate = Some(text.to_owned());
    }

    /// Adds `vulnerability` after the findings that the store holds.
    pub fn add_vulnerability(&mut self, vulnerability: Vulnerability)
        ensures
            final(self)@.certificate == old(self)@.certificate,
            final(self)@.vulnerabilities == old(self)@.vulnerabilities.push(vulnerability@),
    {
        self.vulnerabilities.push(vulnerability);
    }

    /// Gives the decoded text of the certificate, if one was stored.
    pub fn certificate(&self) -> (text: Option<&str>)
        ensures
            match text {
                Some(s) => self@.certificate == Some(s@),
                None => self@.certificate.is_none(),
            },
    {
        match &self.certificate {
            Some(s) => Some(s.as_str()),
            None => None,
        }
    }

    /// Gives the findings, in the order in which they were added.
    pub fn vulnerabilities(&self) -> (list: &Vec<Vulnerability>)
        ensures
            vulnerability_views(list@) == self@.vulnerabilities,
    {
        &self.vulnerabilities
    }
}

} // verus!
