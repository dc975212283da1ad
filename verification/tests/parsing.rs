use brewdeck::error::ErrorKind;
use brewdeck::services::brew_client::{BrewClient, CommandResult, PackageType};
use brewdeck::services::package_service::{
    collect_texts, filter_by_lowercase, filter_packages, find_record, parse_api_package,
    parse_brew_info, version_of, BrewInfo, BrewPackage, CatalogRecord, WarningSeverity,
    WarningType,
};
use brewdeck::text::{clean_lines, is_whitespace, to_chars, trim_bounds};

fn strings(items: &[&str]) -> Vec<String> {
    items.iter().map(|s| s.to_string()).collect()
}

fn std_clean_lines(text: &str) -> Vec<String> {
    text.lines().map(|l| l.trim().to_string()).filter(|l| !l.is_empty()).collect()
}

#[test]
fn white_space_is_what_std_calls_white_space() {
    for code in 0..=0x10FFFFu32 {
        if let Some(c) = char::from_u32(code) {
            assert_eq!(is_whitespace(c), c.is_whitespace(), "code point {code:#x}");
        }
    }
}

#[test]
fn clean_lines_agree_with_std() {
    let samples = [
        "",
        "\n",
        "wget\ncurl\n",
        "wget\r\ncurl\r\n",
        "  wget  \n\n\t\ncurl",
        "a\rb\nc\r",
        "\n\n  \n",
        "one",
        " \u{a0}x\u{3000}\n\u{2003}y z \n",
        "==> Formulae\nwget\n\n==> Casks\nvlc\n",
    ];
    for s in samples {
        assert_eq!(clean_lines(s), std_clean_lines(s), "text {s:?}");
    }
}

#[test]
fn trim_bounds_agree_with_std() {
    for s in ["", " ", "a", " a", "a ", "  a b  ", "\t\n", "\u{a0}é\u{2028}"] {
        let chars = to_chars(s);
        let (a, b) = trim_bounds(&chars, 0, chars.len());
        let got: String = chars[a..b].iter().collect();
        assert_eq!(got, s.trim(), "text {s:?}");
    }
}

fn std_version(line: &str) -> Option<String> {
    line.split(": ").nth(1).and_then(|p| p.split_whitespace().nth(1)).map(|s| s.to_string())
}

#[test]
fn version_is_the_second_word_behind_the_first_colon() {
    assert_eq!(
        version_of("==> wget: stable 1.21.4 (bottled), HEAD"),
        Some("1.21.4".to_string())
    );
    let samples = [
        "==> wget: stable 1.21.4 (bottled), HEAD",
        "==> wget: stable",
        "==> wget: ",
        "==> wget:",
        "no colon here",
        "a: b c: d e",
        "a: b: c d",
        "a:  \t b   c",
        ": x y",
        "x: : y z",
        "",
        "a: \u{a0}b\u{a0}c d",
    ];
    for s in samples {
        assert_eq!(version_of(s), std_version(s), "line {s:?}");
    }
}

const WGET_INFO: &str = "==> wget: stable 1.21.4 (bottled), HEAD\n\
Internet file retriever\n\
https://www.gnu.org/software/wget/\n\
Installed\n\
/opt/homebrew/Cellar/wget/1.21.4 (91 files, 4.5MB) *\n\
==> Dependencies\n\
Required: libidn2, openssl@3\n\
==> Caveats\n\
  Add this to your profile.  \n\
\n\
Second caveat line\n\
==> Analytics\n\
install: 100,000 (30 days)\n";

#[test]
fn info_output_is_parsed_line_by_line() {
    let p = parse_brew_info(
        "wget",
        WGET_INFO,
        PackageType::Formula,
        &strings(&["curl", "wget"]),
        &strings(&["wget"]),
    );
    assert_eq!(p.name, "wget");
    assert_eq!(p.version, "1.21.4");
    assert_eq!(p.description, "Internet file retriever");
    assert_eq!(p.homepage, "https://www.gnu.org/software/wget/");
    assert_eq!(p.caveats, "Add this to your profile.\nSecond caveat line");
    assert!(p.installed);
    assert!(p.outdated);
    assert!(p.dependencies.is_empty() && p.conflicts.is_empty() && p.warnings.is_empty());
    assert_eq!(p.analytics.downloads_365d, 0);
    assert_eq!(p.package_type, PackageType::Formula);
    assert!(p.category.is_none() && p.install_size.is_none() && p.last_updated.is_none());
}

#[test]
fn info_output_edge_cases() {
    let p = parse_brew_info("x", "", PackageType::Cask, &Vec::new(), &strings(&["x"]));
    assert_eq!(p.version, "unknown");
    assert_eq!(p.description, "");
    assert_eq!(p.caveats, "");
    assert!(!p.installed);
    assert!(!p.outdated);
    // The heading of another package states no version; the last address wins;
    // lines outside the caveats are dropped once the description is known.
    let text = "==> other: stable 9\nfirst\nsecond\nhttps://a\nhttps://b\n==> Caveats\nc1\n==> More\nc2\n";
    let p = parse_brew_info("x", text, PackageType::Cask, &strings(&["x"]), &Vec::new());
    assert_eq!(p.version, "unknown");
    assert_eq!(p.description, "first");
    assert_eq!(p.homepage, "https://b");
    assert_eq!(p.caveats, "c1");
    assert!(p.installed && !p.outdated);
    // A heading without a second word keeps the version.
    let p = parse_brew_info("x", "==> x: stable\n", PackageType::Cask, &Vec::new(), &Vec::new());
    assert_eq!(p.version, "unknown");
    // An address inside the caveats is the homepage, not a caveat.
    let p = parse_brew_info(
        "x",
        "d\n==> Caveats\nhttps://c\nreal\n",
        PackageType::Cask,
        &Vec::new(),
        &Vec::new(),
    );
    assert_eq!(p.homepage, "https://c");
    assert_eq!(p.caveats, "real");
}

fn record(name: Option<&str>, token: Option<&str>) -> CatalogRecord {
    CatalogRecord {
        name: name.map(|s| s.to_string()),
        token: token.map(|s| s.to_string()),
        installs_365d: None,
        deprecated: None,
        conflicts_with: None,
        stable_version: None,
        desc: None,
        homepage: None,
        dependencies: None,
        caveats: None,
    }
}

#[test]
fn record_with_defaults() {
    let p = parse_api_package(
        record(Some("wget"), None),
        PackageType::Formula,
        &Vec::new(),
        &strings(&["wget"]),
    )
    .unwrap();
    assert_eq!(p.name, "wget");
    assert_eq!(p.version, "unknown");
    assert_eq!(p.description, "No description available");
    assert_eq!(p.homepage, "");
    assert_eq!(p.caveats, "");
    assert!(p.dependencies.is_empty() && p.conflicts.is_empty() && p.warnings.is_empty());
    assert!(!p.installed && !p.outdated);
    assert_eq!(p.analytics.downloads_365d, 0);
    assert_eq!(p.package_type, PackageType::Formula);
}

#[test]
fn record_with_every_field() {
    let mut r = record(Some("wget"), Some("tok"));
    r.installs_365d = Some(1234);
    r.deprecated = Some(true);
    r.conflicts_with = Some(vec![Some("a".to_string()), None, Some("b".to_string())]);
    r.stable_version = Some("1.2".to_string());
    r.desc = Some("d".to_string());
    r.homepage = Some("h".to_string());
    r.dependencies = Some(vec![None, Some("dep".to_string())]);
    r.caveats = Some("c".to_string());
    let p = parse_api_package(r, PackageType::Cask, &strings(&["tok"]), &strings(&["tok"]))
        .unwrap();
    assert_eq!(p.name, "tok");
    assert_eq!(p.version, "1.2");
    assert_eq!(p.description, "d");
    assert_eq!(p.homepage, "h");
    assert_eq!(p.caveats, "c");
    assert_eq!(p.dependencies, strings(&["dep"]));
    assert_eq!(p.conflicts, strings(&["a", "b"]));
    assert!(p.installed && p.outdated);
    assert_eq!(p.analytics.downloads_365d, 1234);
    assert_eq!(p.warnings.len(), 2);
    assert_eq!(p.warnings[0].warning_type, WarningType::Deprecated);
    assert_eq!(p.warnings[0].message, "This package is deprecated");
    assert_eq!(p.warnings[0].severity, WarningSeverity::Medium);
    assert_eq!(p.warnings[1].warning_type, WarningType::ConflictsWith);
    assert_eq!(p.warnings[1].message, "Conflicts with: a, b");
    assert_eq!(p.warnings[1].severity, WarningSeverity::Low);
}

#[test]
fn record_warnings_edge_cases() {
    let mut r = record(Some("x"), None);
    r.deprecated = Some(false);
    r.conflicts_with = Some(Vec::new());
    let p = parse_api_package(r, PackageType::Formula, &Vec::new(), &Vec::new()).unwrap();
    assert!(p.warnings.is_empty());
    let mut r = record(Some("x"), None);
    r.conflicts_with = Some(vec![None]);
    let p = parse_api_package(r, PackageType::Formula, &Vec::new(), &Vec::new()).unwrap();
    assert_eq!(p.warnings.len(), 1);
    assert_eq!(p.warnings[0].message, "Conflicts with: ");
    assert!(p.conflicts.is_empty());
    assert_eq!(collect_texts(&vec![None, Some("a".to_string()), None]), strings(&["a"]));
}

#[test]
fn record_without_a_name_is_a_parsing_error() {
    let e = parse_api_package(
        record(None, Some("tok")),
        PackageType::Formula,
        &Vec::new(),
        &Vec::new(),
    )
    .unwrap_err();
    assert_eq!(e.kind(), ErrorKind::ParsingError);
    assert_eq!(e.message(), "Missing package name");
    assert!(parse_api_package(
        record(Some("n"), None),
        PackageType::Cask,
        &Vec::new(),
        &Vec::new()
    )
    .is_err());
}

#[test]
fn records_are_found_by_name_or_token() {
    let records = vec![
        record(Some("a"), Some("x")),
        record(None, Some("b")),
        record(Some("b"), Some("a")),
        record(Some("b"), None),
    ];
    assert_eq!(find_record(&records, "b", PackageType::Formula).unwrap(), 2);
    assert_eq!(find_record(&records, "b", PackageType::Cask).unwrap(), 1);
    assert_eq!(find_record(&records, "a", PackageType::Cask).unwrap(), 2);
    let e = find_record(&records, "zz", PackageType::Formula).unwrap_err();
    assert_eq!(e.kind(), ErrorKind::PackageNotFound);
    assert_eq!(e.message(), "Package 'zz' not found");
    assert!(find_record(&Vec::new(), "a", PackageType::Formula).is_err());
}

fn named(name: &str, description: &str) -> BrewPackage {
    let mut p = BrewPackage::bare(name, PackageType::Formula);
    p.description = description.to_string();
    p
}

#[test]
fn search_filter_ignores_case_and_keeps_order() {
    let packages = vec![
        named("Wget", "Internet file retriever"),
        named("curl", "Get a file from a server"),
        named("zsh", "shell"),
        named("GETTEXT", ""),
    ];
    let hits = filter_packages(packages, "GeT");
    let names: Vec<&str> = hits.iter().map(|p| p.name.as_str()).collect();
    assert_eq!(names, vec!["Wget", "curl", "GETTEXT"]);
    assert!(filter_packages(vec![named("a", "b")], "zz").is_empty());
    assert_eq!(filter_packages(vec![named("a", "b")], "").len(), 1);
    assert!(filter_by_lowercase(vec![named("wget", "")], "WGET").is_empty());
}

#[test]
fn search_filter_returns_at_most_fifty() {
    let packages: Vec<BrewPackage> = (0..120).map(|i| named(&format!("pkg{i:03}"), "")).collect();
    let hits = filter_packages(packages, "pkg");
    assert_eq!(hits.len(), 50);
    assert_eq!(hits[0].name, "pkg000");
    assert_eq!(hits[49].name, "pkg049");
}

#[test]
fn bare_and_minimal_packages() {
    let p = BrewPackage::bare("x", PackageType::Cask);
    assert_eq!(p.version, "unknown");
    assert!(!p.installed);
    let p = BrewPackage::minimal("x", PackageType::Cask, &strings(&["y", "x"]));
    assert_eq!(p.description, "cask package");
    assert!(p.installed && p.outdated);
    assert_eq!(p.version, "unknown");
    let p = BrewPackage::minimal("x", PackageType::Formula, &Vec::new());
    assert_eq!(p.description, "formula package");
    assert!(p.installed && !p.outdated);
}

#[test]
fn brew_info_counts_installed_and_outdated() {
    let mut a = named("a", "");
    a.installed = true;
    let mut b = named("b", "");
    b.installed = true;
    b.outdated = true;
    let info = BrewInfo::new(vec![a, named("c", ""), b]);
    assert_eq!(info.packages.len(), 3);
    assert_eq!(info.total_installed, 2);
    assert_eq!(info.total_outdated, 1);
    let empty = BrewInfo::new(Vec::new());
    assert_eq!((empty.total_installed, empty.total_outdated), (0, 0));
}

fn run(success: bool, stdout: &str) -> CommandResult {
    CommandResult {
        stdout: stdout.to_string(),
        stderr: "err".to_string(),
        exit_code: if success { 0 } else { 1 },
        success,
    }
}

#[test]
fn listing_outcomes_are_clean_names() {
    let out = run(true, "wget\n  curl \n\n");
    assert_eq!(BrewClient::list_installed_outcome(&out).unwrap(), strings(&["wget", "curl"]));
    assert_eq!(BrewClient::list_outdated_outcome(&out).unwrap(), strings(&["wget", "curl"]));
    let e = BrewClient::list_installed_outcome(&run(false, "wget")).unwrap_err();
    assert_eq!(e.kind(), ErrorKind::CommandExecutionFailed);
    assert_eq!(e.message(), "Failed to list installed packages: err");
    let e = BrewClient::list_outdated_outcome(&run(false, "wget")).unwrap_err();
    assert_eq!(e.message(), "Failed to list outdated packages: err");
}

#[test]
fn search_outcome_drops_headings() {
    let out = run(true, "==> Formulae\nwget\n  ==> Casks\nvlc\n=> x\n");
    assert_eq!(BrewClient::search_outcome(&out).unwrap(), strings(&["wget", "vlc", "=> x"]));
    let e = BrewClient::search_outcome(&run(false, "")).unwrap_err();
    assert_eq!(e.kind(), ErrorKind::CommandExecutionFailed);
    assert_eq!(e.message(), "Search failed: err");
}
