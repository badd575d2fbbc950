//! The packages table of the console: its rows, columns, and the
//! decisions behind what each cell shows and how sorting maps to search
//! fields. Drawing the widgets themselves is the front end's affair.

use vstd::prelude::*;
use vstd::string::StringExecFns;

use crate::package_info::{PackageInfo, V11yRef};
use crate::search::PackageInfoSummary;

verus! {

/// One row of the packages table.
pub struct PackagesEntry {
    pub package: PackageInfo,
}

/// The columns of the packages table.
#[derive(Copy, Clone, PartialEq, Eq)]
pub enum Column {
    Name,
    Version,
    PackageType,
    Description,
    Supplier,
    Vulnerabilities,
}

/// The characters of an optional text, empty when absent.
pub open spec fn opt_chars(text: Option<String>) -> Seq<char> {
    match text {
        Option::Some(t) => t@,
        Option::None => Seq::empty(),
    }
}

/// The table row for one package summary: every present field is carried
/// over, and the vulnerability list is kept unchanged.
pub fn get_package_definitions(pkg: &PackageInfoSummary) -> (entry: PackagesEntry)
    ensures
        entry.package.name == Some(pkg.name),
        entry.package.package_type == Some(pkg.package_type),
        entry.package.version == Some(pkg.version),
        entry.package.purl == pkg.purl,
        entry.package.href == Some(pkg.href),
        entry.package.sbom == Some(pkg.sbom),
        entry.package.supplier == Some(pkg.supplier),
        entry.package.vulnerabilities@ == pkg.vulnerabilities@,
        entry.package.description == Some(pkg.description),
{
    let package = PackageInfo {
        name: Some(pkg.name.clone()),
        package_type: Some(pkg.package_type.clone()),
        version: Some(pkg.version.clone()),
        purl: clone_opt_string(&pkg.purl),
        href: Some(pkg.href.clone()),
        sbom: Some(pkg.sbom.clone()),
        supplier: Some(pkg.supplier.clone()),
        vulnerabilities: clone_v11y_list(&pkg.vulnerabilities),
        description: Some(pkg.description.clone()),
    };
    PackagesEntry { package }
}

impl PackagesEntry {
    /// The text shown in one cell of the row, empty where the package has
    /// no value. The vulnerabilities column is no text cell: it is drawn
    /// from the severity counts instead.
    pub fn cell_text(&self, column: Column) -> (text: Option<String>)
        ensures
            column is Name ==> text is Some && text.unwrap()@ == opt_chars(self.package.name),
            column is Version ==> text is Some && text.unwrap()@ == opt_chars(self.package.version),
            column is PackageType ==> text is Some && text.unwrap()@ == opt_chars(
                self.package.package_type,
            ),
            column is Description ==> text is Some && text.unwrap()@ == opt_chars(
                self.package.description,
            ),
            column is Supplier ==> text is Some && text.unwrap()@ == opt_chars(
                self.package.supplier,
            ),
            column is Vulnerabilities ==> text is None,
    {
        match column {
            Column::Name => Some(unwrap_or_empty(&self.package.name)),
            Column::Version => Some(unwrap_or_empty(&self.package.version)),
            Column::PackageType => Some(unwrap_or_empty(&self.package.package_type)),
            Column::Description => Some(unwrap_or_empty(&self.package.description)),
            Column::Supplier => Some(unwrap_or_empty(&self.package.supplier)),
            Column::Vulnerabilities => None,
        }
    }

    /// The expanded details row spans the full table width.
    pub fn is_full_width_details(&self) -> (full: Option<bool>)
        ensures
            full == Some(true),
    {
        Some(true)
    }
}

/// The search field a sortable column orders by; the description,
/// supplier and vulnerabilities columns do not sort.
pub fn sort_field(column: Column) -> (field: Option<String>)
    ensures
        column is Name ==> field is Some && field.unwrap()@ == "name"@,
        column is Version ==> field is Some && field.unwrap()@ == "version"@,
        column is PackageType ==> field is Some && field.unwrap()@ == "package_type"@,
        (column is Description || column is Supplier || column is Vulnerabilities) ==> field
            is None,
{
    match column {
        Column::Name => Some(String::from_str("name")),
        Column::Version => Some(String::from_str("version")),
        Column::PackageType => Some(String::from_str("package_type")),
        _ => None,
    }
}

/// A copy of an optional text field.
fn clone_opt_string(text: &Option<String>) -> (duplicate: Option<String>)
    ensures
        duplicate == *text,
{
    match text {
        Some(t) => Some(t.clone()),
        None => None,
    }
}

/// The text, or the empty string where there is none.
fn unwrap_or_empty(text: &Option<String>) -> (value: String)
    ensures
        value@ == opt_chars(*text),
{
    match text {
        Some(t) => t.clone(),
        None => String::new(),
    }
}

/// A copy of a vulnerability reference list.
fn clone_v11y_list(list: &Vec<V11yRef>) -> (duplicate: Vec<V11yRef>)
    ensures
        duplicate@ == list@,
{
    let mut duplicate: Vec<V11yRef> = Vec::new();
    let mut i: usize = 0;
    while i < list.len()
        invariant
            i <= list.len(),
            duplicate@ =~= list@.subrange(0, i as int),
        decreases list.len() - i,
    {
        let v = &list[i];
        duplicate.push(
            V11yRef { cve: v.cve.clone(), href: v.href.clone(), severity: v.severity.clone() },
        );
        proof {
            assert(duplicate@ =~= list@.subrange(0, i + 1));
        }
        i += 1;
    }
    proof {
        assert(list@.subrange(0, list@.len() as int) =~= list@);
    }
    duplicate
}

} // verus!
