use sbom_indexer::navigation::View;
use sbom_indexer::package_info::{PackageInfo, V11yRef};
use sbom_indexer::packages::{get_package_definitions, sort_field, Column};
use sbom_indexer::search::{PackageInfoSummary, PackageSummary};

fn vuln(cve: &str, severity: &str) -> V11yRef {
    V11yRef {
        cve: cve.to_string(),
        href: format!("/cve/{}", cve),
        severity: severity.to_string(),
    }
}

fn summary(cpe: Option<&str>, purl: Option<&str>) -> PackageSummary {
    PackageSummary {
        id: "pkg-1".to_string(),
        name: "openssl".to_string(),
        version: "1.1.1".to_string(),
        purl: purl.map(|p| p.to_string()),
        cpe: cpe.map(|c| c.to_string()),
        sha256: "deadbeef".to_string(),
        license: "Apache-2.0".to_string(),
        snippet: String::new(),
        classifier: "LIBRARY".to_string(),
        description: "tls library".to_string(),
        supplier: "acme".to_string(),
        dependencies: 3,
        href: "/api/package/pkg-1".to_string(),
        advisories: Some(2),
        created: 1_700_000_000,
        vulnerabilities: vec!["CVE-2024-0001".to_string()],
        metadata: serde_json::Value::Null,
    }
}

fn info_summary() -> PackageInfoSummary {
    PackageInfoSummary {
        name: "openssl".to_string(),
        version: "1.1.1".to_string(),
        package_type: "maven".to_string(),
        purl: Some("pkg:maven/openssl@1.1.1".to_string()),
        description: "tls library".to_string(),
        supplier: "acme".to_string(),
        href: "/api/package/pkg-1".to_string(),
        sbom: "sbom-1".to_string(),
        vulnerabilities: vec![
            vuln("CVE-1", "critical"),
            vuln("CVE-2", "high"),
            vuln("CVE-3", "high"),
            vuln("CVE-4", "low"),
        ],
    }
}

#[test]
fn advisories_query_with_both_identifiers() {
    let pkg = summary(Some("cpe:/a:openssl"), Some("pkg:rpm/openssl"));
    assert_eq!(
        pkg.advisories_query().as_deref(),
        Some(
            "fixed:\"cpe:/a:openssl\" OR affected:\"cpe:/a:openssl\" \
             OR fixed:\"pkg:rpm/openssl\" OR affected:\"pkg:rpm/openssl\""
        )
    );
}

#[test]
fn advisories_query_with_one_identifier() {
    let pkg = summary(Some("cpe:/a:openssl"), None);
    assert_eq!(
        pkg.advisories_query().as_deref(),
        Some("fixed:\"cpe:/a:openssl\" OR affected:\"cpe:/a:openssl\"")
    );
    let pkg = summary(None, Some("pkg:rpm/openssl"));
    assert_eq!(
        pkg.advisories_query().as_deref(),
        Some("fixed:\"pkg:rpm/openssl\" OR affected:\"pkg:rpm/openssl\"")
    );
}

#[test]
fn advisories_query_without_identifiers() {
    let pkg = summary(None, None);
    assert!(pkg.advisories_query().is_none());
}

#[test]
fn vulnerability_counts() {
    let pkg = info_summary();
    assert_eq!(pkg.get_count_v11y(), 4);
    let entry = get_package_definitions(&pkg);
    assert_eq!(entry.package.get_v11y_severity_count("critical".to_string()), 1);
    assert_eq!(entry.package.get_v11y_severity_count("high".to_string()), 2);
    assert_eq!(entry.package.get_v11y_severity_count("medium".to_string()), 0);
    assert_eq!(entry.package.get_v11y_severity_count("low".to_string()), 1);
}

#[test]
fn package_definitions_carry_every_field() {
    let pkg = info_summary();
    let entry = get_package_definitions(&pkg);
    assert_eq!(entry.package.name.as_deref(), Some("openssl"));
    assert_eq!(entry.package.version.as_deref(), Some("1.1.1"));
    assert_eq!(entry.package.package_type.as_deref(), Some("maven"));
    assert_eq!(entry.package.purl.as_deref(), Some("pkg:maven/openssl@1.1.1"));
    assert_eq!(entry.package.href.as_deref(), Some("/api/package/pkg-1"));
    assert_eq!(entry.package.sbom.as_deref(), Some("sbom-1"));
    assert_eq!(entry.package.supplier.as_deref(), Some("acme"));
    assert_eq!(entry.package.description.as_deref(), Some("tls library"));
    assert_eq!(entry.package.vulnerabilities.len(), 4);
    assert_eq!(entry.package.vulnerabilities[1].cve, "CVE-2");
    assert_eq!(entry.package.vulnerabilities[1].severity, "high");
    assert_eq!(entry.is_full_width_details(), Some(true));
}

#[test]
fn cell_text_per_column() {
    let entry = get_package_definitions(&info_summary());
    assert_eq!(entry.cell_text(Column::Name).as_deref(), Some("openssl"));
    assert_eq!(entry.cell_text(Column::Version).as_deref(), Some("1.1.1"));
    assert_eq!(entry.cell_text(Column::PackageType).as_deref(), Some("maven"));
    assert_eq!(entry.cell_text(Column::Description).as_deref(), Some("tls library"));
    assert_eq!(entry.cell_text(Column::Supplier).as_deref(), Some("acme"));
    assert!(entry.cell_text(Column::Vulnerabilities).is_none());
}

#[test]
fn cell_text_empty_when_absent() {
    let entry = get_package_definitions(&info_summary());
    let mut bare = entry.package;
    bare.name = None;
    bare.supplier = None;
    let entry = sbom_indexer::packages::PackagesEntry { package: bare };
    assert_eq!(entry.cell_text(Column::Name).as_deref(), Some(""));
    assert_eq!(entry.cell_text(Column::Supplier).as_deref(), Some(""));
}

#[test]
fn sortable_columns_map_to_search_fields() {
    assert_eq!(sort_field(Column::Name).as_deref(), Some("name"));
    assert_eq!(sort_field(Column::Version).as_deref(), Some("version"));
    assert_eq!(sort_field(Column::PackageType).as_deref(), Some("package_type"));
    assert!(sort_field(Column::Description).is_none());
    assert!(sort_field(Column::Supplier).is_none());
    assert!(sort_field(Column::Vulnerabilities).is_none());
}

#[test]
fn default_view_is_empty_search() {
    let view = View::default();
    assert!(matches!(view, View::Search { query } if query.is_empty()));
}

#[test]
fn severity_count_ignores_other_packages() {
    let info = PackageInfo {
        name: Some("a".to_string()),
        package_type: None,
        version: None,
        purl: None,
        href: None,
        sbom: None,
        supplier: None,
        vulnerabilities: vec![],
        description: None,
    };
    assert_eq!(info.get_v11y_severity_count("critical".to_string()), 0);
}
