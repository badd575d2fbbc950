//! Summaries of indexed documents as the search API returns them.

use vstd::prelude::*;
use vstd::string::StringExecFns;

use crate::package_info::V11yRef;

verus! {

/// serde_json's dynamic value type, carried opaquely: the search metadata
/// attached to a summary is passed through, never inspected here.
#[verifier::external_type_specification]
#[verifier::external_body]
pub struct ExValue(serde_json::Value);

/// Summary of one indexed package document in search results. The
/// creation date is held as seconds since the Unix epoch.
pub struct PackageSummary {
    pub id: String,
    pub name: String,
    pub version: String,
    pub purl: Option<String>,
    pub cpe: Option<String>,
    pub sha256: String,
    pub license: String,
    pub snippet: String,
    pub classifier: String,
    pub description: String,
    pub supplier: String,
    pub dependencies: u64,
    pub href: String,
    pub advisories: Option<u64>,
    pub created: i64,
    pub vulnerabilities: Vec<String>,
    pub metadata: serde_json::Value,
}

/// The advisory search clause for one identifying term: advisories that
/// fix it or that affect it.
pub open spec fn spec_term_clause(term: Seq<char>) -> Seq<char> {
    "fixed:\""@ + term + "\" OR affected:\""@ + term + "\""@
}

/// The advisory query of a package: one clause for its CPE and one for
/// its purl, joined by OR; none when it has neither identifier.
pub open spec fn spec_advisories_query(cpe: Option<Seq<char>>, purl: Option<Seq<char>>) -> Option<
    Seq<char>,
> {
    match (cpe, purl) {
        (Option::Some(c), Option::Some(p)) => Option::Some(
            spec_term_clause(c) + " OR "@ + spec_term_clause(p),
        ),
        (Option::Some(c), Option::None) => Option::Some(spec_term_clause(c)),
        (Option::None, Option::Some(p)) => Option::Some(spec_term_clause(p)),
        (Option::None, Option::None) => Option::None,
    }
}

/// Build the clause matching advisories that fix or affect one term.
fn term_clause(term: &str) -> (clause: String)
    ensures
        clause@ == spec_term_clause(term@),
{
    let mut clause = String::from_str("fixed:\"");
    clause.append(term);
    clause.append("\" OR affected:\"");
    clause.append(term);
    clause.append("\"");
    clause
}

impl PackageSummary {
    /// The CPE identifier's characters, when the package has one.
    pub open spec fn cpe_chars(&self) -> Option<Seq<char>> {
        match self.cpe {
            Option::Some(c) => Option::Some(c@),
            Option::None => Option::None,
        }
    }

    /// The purl identifier's characters, when the package has one.
    pub open spec fn purl_chars(&self) -> Option<Seq<char>> {
        match self.purl {
            Option::Some(p) => Option::Some(p@),
            Option::None => Option::None,
        }
    }

    /// The query finding this package's advisories, built from whichever
    /// of its CPE and purl identifiers it has; `None` when it has
    /// neither.
    pub fn advisories_query(&self) -> (query: Option<String>)
        ensures
            query is Some <==> spec_advisories_query(self.cpe_chars(), self.purl_chars()) is Some,
            query is Some ==> query.unwrap()@ == spec_advisories_query(
                self.cpe_chars(),
                self.purl_chars(),
            ).unwrap(),
    {
        match (&self.cpe, &self.purl) {
            (Some(cpe), Some(purl)) => {
                let mut query = term_clause(cpe.as_str());
                query.append(" OR ");
                let purl_clause = term_clause(purl.as_str());
                query.append(purl_clause.as_str());
                Some(query)
            },
            (Some(cpe), None) => Some(term_clause(cpe.as_str())),
            (None, Some(purl)) => Some(term_clause(purl.as_str())),
            (None, None) => None,
        }
    }
}

/// Summary of one package in the package-info search results.
pub struct PackageInfoSummary {
    pub name: String,
    pub version: String,
    pub package_type: String,
    pub purl: Option<String>,
    pub description: String,
    pub supplier: String,
    pub href: String,
    pub sbom: String,
    pub vulnerabilities: Vec<V11yRef>,
}

impl PackageInfoSummary {
    /// How many vulnerabilities the package lists.
    pub fn get_count_v11y(&self) -> (count: usize)
        ensures
            count == self.vulnerabilities@.len(),
    {
        self.vulnerabilities.len()
    }
}

} // verus!
