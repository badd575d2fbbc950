//! Package details shown by the console, with their vulnerability
//! references.

use vstd::prelude::*;

verus! {

/// Reference from a package to one vulnerability, with the severity label
/// it carries.
pub struct V11yRef {
    pub cve: String,
    pub href: String,
    pub severity: String,
}

/// The details of one package as the console presents it. Absent text
/// fields are shown as empty downstream.
pub struct PackageInfo {
    pub name: Option<String>,
    pub package_type: Option<String>,
    pub version: Option<String>,
    pub purl: Option<String>,
    pub href: Option<String>,
    pub sbom: Option<String>,
    pub supplier: Option<String>,
    pub vulnerabilities: Vec<V11yRef>,
    pub description: Option<String>,
}

/// How many of the listed vulnerability references carry the given
/// severity label.
pub open spec fn severity_count(vulns: Seq<V11yRef>, severity: Seq<char>) -> nat
    decreases vulns.len(),
{
    if vulns.len() == 0 {
        0
    } else {
        severity_count(vulns.drop_last(), severity) + (if vulns.last().severity@ == severity {
            1nat
        } else {
            0nat
        })
    }
}

impl PackageInfo {
    /// Count the vulnerabilities of one severity, for the per-severity
    /// breakdown beside the total.
    pub fn get_v11y_severity_count(&self, severity: String) -> (count: usize)
        ensures
            count == severity_count(self.vulnerabilities@, severity@),
    {
        let mut count: usize = 0;
        let mut i: usize = 0;
        while i < self.vulnerabilities.len()
            invariant
                i <= self.vulnerabilities.len(),
                count <= i,
                count == severity_count(self.vulnerabilities@.subrange(0, i as int), severity@),
            decreases self.vulnerabilities.len() - i,
        {
            proof {
                assert(self.vulnerabilities@.subrange(0, i + 1).drop_last()
                    =~= self.vulnerabilities@.subrange(0, i as int));
                assert(self.vulnerabilities@.subrange(0, i + 1).last()
                    == self.vulnerabilities@[i as int]);
            }
            if self.vulnerabilities[i].severity == severity {
                count += 1;
            }
            i += 1;
        }
        proof {
            assert(self.vulnerabilities@.subrange(0, self.vulnerabilities@.len() as int)
                =~= self.vulnerabilities@);
        }
        count
    }
}

} // verus!
