//! The packages that the data layer serves, and the cache-first facade over
//! the two upstream sources.

use vstd::prelude::*;
use crate::clock::now_ms;
use crate::codec::JsonText;
use crate::codec::json_syntax_error;
use crate::error::{
    after_fallback,
    display_text,
    retry_decision,
    transient,
    backoff_delay,
    BrewDeckError,
    ErrorKind,
    ErrorRecovery,
};
use crate::services::brew_client::{kind_name, PackageType};
use crate::services::cache_entry::fresh_entry;
use crate::services::cache_manager::{
    lookup,
    eviction_batch,
    evicted,
    fetched_text,
    key_matches,
    set_post,
    stored_after_set,
    text_of,
    without_matching,
    CacheManager,
    Contents,
    EvictionStrategy,
};
use crate::text::{
    clean_lines,
    clean_lines_of,
    concat_str,
    contains_string,
    is_substring,
    join,
    joined,
    lowercase_of,
    occurs_at,
    second_piece,
    second_piece_bounds,
    second_word,
    second_word_bounds,
    str_contains,
    str_eq,
    str_starts_with,
    to_chars,
    to_lowercase,
    views,
};
use vstd::string::StrSliceExecFns;

verus! {

/// How often a package was installed.
#[derive(Clone, Copy, Debug, PartialEq, Eq, Structural)]
pub struct PackageAnalytics {
    /// The installations of the trailing year.
    pub downloads_365d: u64,
}

impl Default for PackageAnalytics {
    fn default() -> (a: Self)
        ensures
            a.downloads_365d == 0,
    {
        PackageAnalytics { downloads_365d: 0 }
    }
}

/// What a warning is about.
#[derive(Clone, Copy, Debug, PartialEq, Eq, Structural)]
pub enum WarningType {
    Security,
    Compatibility,
    Deprecated,
    Experimental,
    RequiresRoot,
    ConflictsWith,
}

/// How much a warning matters.
#[derive(Clone, Copy, Debug, PartialEq, Eq, Structural)]
pub enum WarningSeverity {
    Low,
    Medium,
    High,
}

/// Something a user should know before installing a package.
#[derive(Debug)]
pub struct PackageWarning {
    pub warning_type: WarningType,
    pub message: String,
    pub severity: WarningSeverity,
}

/// The mathematical content of a [`PackageWarning`].
pub struct WarningView {
    pub warning_type: WarningType,
    pub message: Seq<char>,
    pub severity: WarningSeverity,
}

impl View for PackageWarning {
    type V = WarningView;

    open spec fn view(&self) -> WarningView {
        WarningView {
            warning_type: self.warning_type,
            message: self.message@,
            severity: self.severity,
        }
    }
}

/// One installable item. `last_updated` is in milliseconds since the Unix
/// epoch.
#[derive(Debug)]
pub struct BrewPackage {
    pub name: String,
    pub version: String,
    pub description: String,
    pub installed: bool,
    pub outdated: bool,
    pub homepage: String,
    pub dependencies: Vec<String>,
    pub conflicts: Vec<String>,
    pub caveats: String,
    pub analytics: PackageAnalytics,
    pub category: Option<String>,
    pub warnings: Vec<PackageWarning>,
    pub install_size: Option<u64>,
    pub last_updated: Option<i64>,
    pub package_type: PackageType,
}

/// The packages found by a search.
#[derive(Debug)]
pub struct PackageSearchResult {
    pub packages: Vec<BrewPackage>,
    pub total_count: usize,
    pub search_time_ms: u64,
}

/// What a mutating operation reports: failure is a value, not an error.
#[derive(Debug)]
pub struct InstallResult {
    pub success: bool,
    pub message: String,
    pub package_name: String,
    pub duration_ms: u64,
}

/// The views of a list of warnings.
pub open spec fn warning_views(warnings: Seq<PackageWarning>) -> Seq<WarningView> {
    warnings.map_values(|w: PackageWarning| w@)
}

/// The view of an optional text.
pub open spec fn optional_text(text: Option<String>) -> Option<Seq<char>> {
    match text {
        Some(t) => Some(t@),
        None => None,
    }
}

/// The mathematical content of a [`BrewPackage`].
pub struct BrewPackageView {
    pub name: Seq<char>,
    pub version: Seq<char>,
    pub description: Seq<char>,
    pub installed: bool,
    pub outdated: bool,
    pub homepage: Seq<char>,
    pub dependencies: Seq<Seq<char>>,
    pub conflicts: Seq<Seq<char>>,
    pub caveats: Seq<char>,
    pub analytics: PackageAnalytics,
    pub category: Option<Seq<char>>,
    pub warnings: Seq<WarningView>,
    pub install_size: Option<u64>,
    pub last_updated: Option<i64>,
    pub package_type: PackageType,
}

impl View for BrewPackage {
    type V = BrewPackageView;

    open spec fn view(&self) -> BrewPackageView {
        BrewPackageView {
            name: self.name@,
            version: self.version@,
            description: self.description@,
            installed: self.installed,
            outdated: self.outdated,
            homepage: self.homepage@,
            dependencies: views(self.dependencies@),
            conflicts: views(self.conflicts@),
            caveats: self.caveats@,
            analytics: self.analytics,
            category: optional_text(self.category),
            warnings: warning_views(self.warnings@),
            install_size: self.install_size,
            last_updated: self.last_updated,
            package_type: self.package_type,
        }
    }
}

/// A package of which only the name and the kind are known.
pub open spec fn bare_package(name: Seq<char>, kind: PackageType) -> BrewPackageView {
    BrewPackageView {
        name,
        version: "unknown"@,
        description: Seq::empty(),
        installed: false,
        outdated: false,
        homepage: Seq::empty(),
        dependencies: Seq::empty(),
        conflicts: Seq::empty(),
        caveats: Seq::empty(),
        analytics: PackageAnalytics { downloads_365d: 0 },
        category: None,
        warnings: Seq::empty(),
        install_size: None,
        last_updated: None,
        package_type: kind,
    }
}

impl BrewPackage {
    /// A package of which only the name and the kind are known: its version
    /// is `unknown`, and everything else is empty.
    pub fn bare(name: &str, kind: PackageType) -> (package: Self)
        ensures
            package@ == bare_package(name@, kind),
    {
        let package = BrewPackage {
            name: name.to_owned(),
            version: "unknown".to_owned(),
            description: String::new(),
            installed: false,
            outdated: false,
            homepage: String::new(),
            dependencies: Vec::new(),
            conflicts: Vec::new(),
            caveats: String::new(),
            analytics: PackageAnalytics { downloads_365d: 0 },
            category: None,
            warnings: Vec::new(),
            install_size: None,
            last_updated: None,
            package_type: kind,
        };
        assert(package@.dependencies =~= Seq::empty());
        assert(package@.conflicts =~= Seq::empty());
        assert(package@.warnings =~= Seq::empty());
        package
    }

    /// The entry that stands for an installed package whose details the
    /// local tool could not give: it is installed, described by its kind, and
    /// outdated if its name is among the outdated ones.
    pub fn minimal(name: &str, kind: PackageType, outdated: &Vec<String>) -> (package: Self)
        ensures
            package@ == (BrewPackageView {
                description: kind_name(kind) + " package"@,
                installed: true,
                outdated: views(outdated@).contains(name@),
                ..bare_package(name@, kind)
            }),
    {
        let mut package = Self::bare(name, kind);
        package.description = concat_str(kind.name(), " package");
        package.installed = true;
        package.outdated = contains_string(outdated, name);
        package
    }
}

/// The fields that the data layer reads of a record of the remote catalog,
/// each as the record holds it: `None` where the field is missing or of
/// another type, and within a list `None` for an element that is no text.
#[derive(Debug)]
pub struct CatalogRecord {
    pub name: Option<String>,
    pub token: Option<String>,
    pub installs_365d: Option<u64>,
    pub deprecated: Option<bool>,
    pub conflicts_with: Option<Vec<Option<String>>>,
    pub stable_version: Option<String>,
    pub desc: Option<String>,
    pub homepage: Option<String>,
    pub dependencies: Option<Vec<Option<String>>>,
    pub caveats: Option<String>,
}

/// The texts among the elements of a list.
pub open spec fn texts_in(items: Seq<Option<String>>) -> Seq<Seq<char>>
    decreases items.len(),
{
    if items.len() == 0 {
        Seq::empty()
    } else {
        let front = texts_in(items.drop_last());
        match items.last() {
            Some(t) => front.push(t@),
            None => front,
        }
    }
}

/// The texts of an optional list, none for a missing list.
pub open spec fn texts_of_list(list: Option<Vec<Option<String>>>) -> Seq<Seq<char>> {
    match list {
        Some(items) => texts_in(items@),
        None => Seq::empty(),
    }
}

/// The text, or `default` where it is missing.
pub open spec fn text_or(text: Option<String>, default: Seq<char>) -> Seq<char> {
    match text {
        Some(t) => t@,
        None => default,
    }
}

/// The name under which a record is known: the name of a formula, the token
/// of a cask.
pub open spec fn record_name(record: CatalogRecord, kind: PackageType) -> Option<Seq<char>> {
    match kind {
        PackageType::Formula => optional_text(record.name),
        PackageType::Cask => optional_text(record.token),
    }
}

/// The warnings of a record: that it is deprecated, and what it conflicts
/// with.
pub open spec fn record_warnings(record: CatalogRecord) -> Seq<WarningView> {
    (if record.deprecated == Some(true) {
        seq![
            WarningView {
                warning_type: WarningType::Deprecated,
                message: "This package is deprecated"@,
                severity: WarningSeverity::Medium,
            },
        ]
    } else {
        Seq::empty()
    }) + (match record.conflicts_with {
        Some(list) => if list@.len() > 0 {
            seq![
                WarningView {
                    warning_type: WarningType::ConflictsWith,
                    message: "Conflicts with: "@ + joined(texts_in(list@), ", "@),
                    severity: WarningSeverity::Low,
                },
            ]
        } else {
            Seq::empty()
        },
        None => Seq::empty(),
    })
}

/// The package that a record of the remote catalog describes, given the
/// names of the installed and of the outdated packages.
pub open spec fn package_of_record(
    record: CatalogRecord,
    name: Seq<char>,
    kind: PackageType,
    installed: Seq<Seq<char>>,
    outdated: Seq<Seq<char>>,
) -> BrewPackageView {
    BrewPackageView {
        name,
        version: text_or(record.stable_version, "unknown"@),
        description: text_or(record.desc, "No description available"@),
        installed: installed.contains(name),
        outdated: installed.contains(name) && outdated.contains(name),
        homepage: text_or(record.homepage, Seq::empty()),
        dependencies: texts_of_list(record.dependencies),
        conflicts: texts_of_list(record.conflicts_with),
        caveats: text_or(record.caveats, Seq::empty()),
        analytics: PackageAnalytics {
            downloads_365d: match record.installs_365d {
                Some(n) => n,
                None => 0,
            },
        },
        category: None,
        warnings: record_warnings(record),
        install_size: None,
        last_updated: None,
        package_type: kind,
    }
}

/// The texts among the elements of a list, copied.
pub fn collect_texts(items: &Vec<Option<String>>) -> (texts: Vec<String>)
    ensures
        views(texts@) == texts_in(items@),
{
    let mut texts: Vec<String> = Vec::new();
    let mut i: usize = 0;
    proof {
        assert(items@.take(0) =~= Seq::<Option<String>>::empty());
        assert(views(texts@) =~= Seq::<Seq<char>>::empty());
    }
    while i < items.len()
        invariant
            i <= items.len(),
            views(texts@) == texts_in(items@.take(i as int)),
        decreases items.len() - i,
    {
        proof {
            assert(items@.take(i + 1).drop_last() =~= items@.take(i as int));
            assert(items@.take(i + 1).last() == items@[i as int]);
        }
        match &items[i] {
            Some(t) => {
                let copy = t.clone();
                let ghost before = views(texts@);
                texts.push(copy);
                assert(views(texts@) =~= before.push(copy@));
            },
            None => {},
        }
        i += 1;
    }
    proof {
        assert(items@.take(items.len() as int) =~= items@);
    }
    texts
}

fn texts_of_optional(list: &Option<Vec<Option<String>>>) -> (texts: Vec<String>)
    ensures
        views(texts@) == texts_of_list(*list),
{
    match list {
        Some(items) => collect_texts(items),
        None => {
            let texts: Vec<String> = Vec::new();
            assert(views(texts@) =~= Seq::<Seq<char>>::empty());
            texts
        },
    }
}

fn text_or_empty(text: Option<String>) -> (r: String)
    ensures
        r@ == text_or(text, Seq::empty()),
{
    match text {
        Some(t) => t,
        None => String::new(),
    }
}

fn text_or_default(text: Option<String>, default: &str) -> (r: String)
    ensures
        r@ == text_or(text, default@),
{
    match text {
        Some(t) => t,
        None => default.to_owned(),
    }
}

/// The package that a record of the remote catalog describes.
///
/// A record without a name (a formula) or token (a cask) is a
/// `ParsingError`. Missing fields take their defaults: the version
/// `unknown`, the description `No description available`, empty texts and
/// lists, and no installs. The package counts as installed if its name is
/// among `installed`, and as outdated if it is installed and its name is
/// among `outdated`.
pub fn parse_api_package(
    record: CatalogRecord,
    package_type: PackageType,
    installed: &Vec<String>,
    outdated: &Vec<String>,
) -> (r: Result<BrewPackage, BrewDeckError>)
    ensures
        match record_name(record, package_type) {
            Some(name) => r matches Ok(package) && package@ == package_of_record(
                record,
                name,
                package_type,
                views(installed@),
                views(outdated@),
            ),
            None => r matches Err(e) && e@.kind == ErrorKind::ParsingError && e@.message
                == "Missing package name"@,
        },
{
    let dependencies = texts_of_optional(&record.dependencies);
    let conflicts = texts_of_optional(&record.conflicts_with);
    let mut warnings: Vec<PackageWarning> = Vec::new();
    let ghost mut said: Seq<WarningView> = Seq::empty();
    assert(warning_views(warnings@) =~= said);
    let deprecated = match record.deprecated {
        Some(flag) => flag,
        None => false,
    };
    if deprecated {
        let warning = PackageWarning {
            warning_type: WarningType::Deprecated,
            message: "This package is deprecated".to_owned(),
            severity: WarningSeverity::Medium,
        };
        proof {
            said = said.push(warning@);
        }
        warnings.push(warning);
        assert(warning_views(warnings@) =~= said);
    }
    match &record.conflicts_with {
        Some(list) => {
            if list.len() > 0 {
                let listed = join(&conflicts, ", ");
                let warning = PackageWarning {
                    warning_type: WarningType::ConflictsWith,
                    message: concat_str("Conflicts with: ", listed.as_str()),
                    severity: WarningSeverity::Low,
                };
                proof {
                    said = said.push(warning@);
                }
                warnings.push(warning);
                assert(warning_views(warnings@) =~= said);
            }
        },
        None => {},
    }
    assert(said =~= record_warnings(record));
    let name = match package_type {
        PackageType::Formula => record.name,
        PackageType::Cask => record.token,
    };
    let name = match name {
        Some(n) => n,
        None => {
            return Err(BrewDeckError::ParsingError("Missing package name".to_owned()));
        },
    };
    let is_installed = contains_string(installed, name.as_str());
    let is_outdated = is_installed && contains_string(outdated, name.as_str());
    Ok(
        BrewPackage {
            name,
            version: text_or_default(record.stable_version, "unknown"),
            description: text_or_default(record.desc, "No description available"),
            installed: is_installed,
            outdated: is_outdated,
            homepage: text_or_empty(record.homepage),
            dependencies,
            conflicts,
            caveats: text_or_empty(record.caveats),
            analytics: PackageAnalytics {
                downloads_365d: match record.installs_365d {
                    Some(n) => n,
                    None => 0,
                },
            },
            category: None,
            warnings,
            install_size: None,
            last_updated: None,
            package_type,
        },
    )
}

/// Whether a record is known under `name`.
pub open spec fn is_record_of(record: CatalogRecord, name: Seq<char>, kind: PackageType) -> bool {
    record_name(record, kind) == Some(name)
}

/// The position of the first record that is known under `name`, or a
/// `PackageNotFound` error that quotes the name.
pub fn find_record(records: &Vec<CatalogRecord>, name: &str, package_type: PackageType) -> (r:
    Result<usize, BrewDeckError>)
    ensures
        match r {
            Ok(at) => {
                &&& at < records.len()
                &&& is_record_of(records@[at as int], name@, package_type)
                &&& forall|j: int| 0 <= j < at ==> !is_record_of(records@[j], name@, package_type)
            },
            Err(e) => {
                &&& forall|j: int|
                    0 <= j < records.len() ==> !is_record_of(records@[j], name@, package_type)
                &&& e@.kind == ErrorKind::PackageNotFound
                &&& e@.message == "Package '"@ + name@ + "' not found"@
            },
        },
{
    let mut i: usize = 0;
    while i < records.len()
        invariant
            i <= records.len(),
            forall|j: int| 0 <= j < i ==> !is_record_of(records@[j], name@, package_type),
        decreases records.len() - i,
    {
        let known = match package_type {
            PackageType::Formula => &records[i].name,
            PackageType::Cask => &records[i].token,
        };
        let found = match known {
            Some(n) => str_eq(n.as_str(), name),
            None => false,
        };
        if found {
            return Ok(i);
        }
        i += 1;
    }
    let head = concat_str("Package '", name);
    Err(BrewDeckError::PackageNotFound(concat_str(head.as_str(), "' not found")))
}

/// The most packages that a search of the remote catalog returns.
pub const SEARCH_RESULT_LIMIT: usize = 50;

/// The most names of a search with the local tool whose details are
/// fetched.
pub const LOCAL_SEARCH_LIMIT: usize = 20;

/// Whether a package answers a query: the lower-case query occurs in its
/// lower-case name or description.
pub open spec fn answers(package: BrewPackage, query_lower: Seq<char>) -> bool {
    is_substring(query_lower, lowercase_of(package.name@)) || is_substring(
        query_lower,
        lowercase_of(package.description@),
    )
}

/// The first [`SEARCH_RESULT_LIMIT`] packages that answer a query, in their
/// order.
pub open spec fn search_hits(packages: Seq<BrewPackage>, query_lower: Seq<char>) -> Seq<
    BrewPackage,
>
    decreases packages.len(),
{
    if packages.len() == 0 {
        Seq::empty()
    } else {
        let front = search_hits(packages.drop_last(), query_lower);
        if front.len() < SEARCH_RESULT_LIMIT && answers(packages.last(), query_lower) {
            front.push(packages.last())
        } else {
            front
        }
    }
}

/// The packages of the remote catalog that answer a query, whatever the case
/// of the letters, and at most [`SEARCH_RESULT_LIMIT`] of them.
pub fn filter_packages(packages: Vec<BrewPackage>, query: &str) -> (hits: Vec<BrewPackage>)
    ensures
        hits@ == search_hits(packages@, lowercase_of(query@)),
{
    let query_lower = to_lowercase(query);
    filter_by_lowercase(packages, query_lower.as_str())
}

/// The packages that answer a query that is given in lower case.
pub fn filter_by_lowercase(packages: Vec<BrewPackage>, query_lower: &str) -> (hits: Vec<
    BrewPackage,
>)
    ensures
        hits@ == search_hits(packages@, query_lower@),
{
    let n = packages.len();
    let mut rest = packages;
    let mut reversed: Vec<BrewPackage> = Vec::new();
    while reversed.len() < n
        invariant
            n == packages.len(),
            reversed.len() + rest.len() == n,
            forall|j: int| 0 <= j < rest.len() ==> rest@[j] == packages@[j],
            forall|j: int| 0 <= j < reversed.len() ==> reversed@[j] == packages@[n - 1 - j],
        decreases n - reversed.len(),
    {
        match rest.pop() {
            Some(package) => {
                reversed.push(package);
            },
            None => {
                assert(false);
            },
        }
    }
    let mut hits: Vec<BrewPackage> = Vec::new();
    proof {
        assert(packages@.take(0) =~= Seq::<BrewPackage>::empty());
    }
    while reversed.len() > 0
        invariant
            n == packages.len(),
            reversed.len() <= n,
            forall|j: int| 0 <= j < reversed.len() ==> reversed@[j] == packages@[n - 1 - j],
            hits@ == search_hits(packages@.take(n - reversed.len()), query_lower@),
        decreases reversed.len(),
    {
        let ghost done = n - reversed.len();
        match reversed.pop() {
            Some(package) => {
                proof {
                    assert(package == packages@[done]);
                    assert(packages@.take(done + 1).drop_last() =~= packages@.take(done));
                    assert(packages@.take(done + 1).last() == package);
                }
                if hits.len() < SEARCH_RESULT_LIMIT {
                    let name = to_lowercase(package.name.as_str());
                    let hit = if str_contains(name.as_str(), query_lower) {
                        true
                    } else {
                        let description = to_lowercase(package.description.as_str());
                        str_contains(description.as_str(), query_lower)
                    };
                    if hit {
                        hits.push(package);
                    }
                }
            },
            None => {},
        }
    }
    proof {
        assert(packages@.take(n as int) =~= packages@);
    }
    hits
}

/// The number of packages that are installed.
pub open spec fn installed_count(packages: Seq<BrewPackage>) -> nat
    decreases packages.len(),
{
    if packages.len() == 0 {
        0
    } else {
        installed_count(packages.drop_last()) + if packages.last().installed {
            1nat
        } else {
            0nat
        }
    }
}

/// The number of packages that are outdated.
pub open spec fn outdated_count(packages: Seq<BrewPackage>) -> nat
    decreases packages.len(),
{
    if packages.len() == 0 {
        0
    } else {
        outdated_count(packages.drop_last()) + if packages.last().outdated {
            1nat
        } else {
            0nat
        }
    }
}

/// The packages of a kind with the numbers of those that are installed and
/// of those that are outdated.
#[derive(Debug)]
pub struct BrewInfo {
    pub packages: Vec<BrewPackage>,
    pub total_installed: usize,
    pub total_outdated: usize,
}

impl BrewInfo {
    /// The packages with their counts.
    pub fn new(packages: Vec<BrewPackage>) -> (info: Self)
        ensures
            info.packages == packages,
            info.total_installed == installed_count(packages@),
            info.total_outdated == outdated_count(packages@),
    {
        let mut total_installed: usize = 0;
        let mut total_outdated: usize = 0;
        let mut i: usize = 0;
        proof {
            assert(packages@.take(0) =~= Seq::<BrewPackage>::empty());
        }
        while i < packages.len()
            invariant
                i <= packages.len(),
                total_installed <= i,
                total_outdated <= i,
                total_installed == installed_count(packages@.take(i as int)),
                total_outdated == outdated_count(packages@.take(i as int)),
            decreases packages.len() - i,
        {
            proof {
                assert(packages@.take(i + 1).drop_last() =~= packages@.take(i as int));
                assert(packages@.take(i + 1).last() == packages@[i as int]);
            }
            if packages[i].installed {
                total_installed += 1;
            }
            if packages[i].outdated {
                total_outdated += 1;
            }
            i += 1;
        }
        proof {
            assert(packages@.take(packages.len() as int) =~= packages@);
        }
        BrewInfo { packages, total_installed, total_outdated }
    }
}

/// What the lines of a description by the local tool have yielded so far.
pub struct InfoView {
    pub version: Seq<char>,
    pub description: Seq<char>,
    pub homepage: Seq<char>,
    pub in_caveats: bool,
    pub caveats: Seq<Seq<char>>,
}

/// What is known before the first line: the version `unknown`, nothing else.
pub open spec fn info_start() -> InfoView {
    InfoView {
        version: "unknown"@,
        description: Seq::empty(),
        homepage: Seq::empty(),
        in_caveats: false,
        caveats: Seq::empty(),
    }
}

/// The heading that carries the version of the package `name`.
pub open spec fn version_heading(name: Seq<char>) -> Seq<char> {
    "==> "@ + name + ": "@
}

/// The version that a version heading states: the second word behind its
/// first colon and space.
pub open spec fn version_in(line: Seq<char>) -> Option<Seq<char>> {
    match second_piece(line, ": "@) {
        Some(piece) => second_word(piece),
        None => None,
    }
}

/// What one more line yields. The first rule that applies decides:
/// a version heading states the version, if it holds one; the first line
/// that is neither a heading nor an address is the description; an address
/// is the homepage; the heading of the caveats opens them; and within the
/// caveats another heading closes them and any other line is one of them.
pub open spec fn info_step(state: InfoView, heading: Seq<char>, line: Seq<char>) -> InfoView {
    if heading.is_prefix_of(line) {
        match version_in(line) {
            Some(version) => InfoView { version, ..state },
            None => state,
        }
    } else if !"==>"@.is_prefix_of(line) && !"https://"@.is_prefix_of(line)
        && state.description.len() == 0 {
        InfoView { description: line, ..state }
    } else if "https://"@.is_prefix_of(line) {
        InfoView { homepage: line, ..state }
    } else if "==> Caveats"@.is_prefix_of(line) {
        InfoView { in_caveats: true, ..state }
    } else if state.in_caveats {
        if "==>"@.is_prefix_of(line) {
            InfoView { in_caveats: false, ..state }
        } else {
            InfoView { caveats: state.caveats.push(line), ..state }
        }
    } else {
        state
    }
}

/// What a sequence of lines yields.
pub open spec fn info_of(lines: Seq<Seq<char>>, heading: Seq<char>) -> InfoView
    decreases lines.len(),
{
    if lines.len() == 0 {
        info_start()
    } else {
        info_step(info_of(lines.drop_last(), heading), heading, lines.last())
    }
}

/// The package that a description by the local tool describes.
pub open spec fn package_of_info(
    name: Seq<char>,
    output: Seq<char>,
    kind: PackageType,
    installed: Seq<Seq<char>>,
    outdated: Seq<Seq<char>>,
) -> BrewPackageView {
    let info = info_of(clean_lines_of(output), version_heading(name));
    BrewPackageView {
        version: info.version,
        description: info.description,
        installed: installed.contains(name),
        outdated: installed.contains(name) && outdated.contains(name),
        homepage: info.homepage,
        caveats: joined(info.caveats, "\n"@),
        ..bare_package(name, kind)
    }
}

/// The version that a version heading states; see [`version_in`].
pub fn version_of(line: &str) -> (version: Option<String>)
    ensures
        optional_text(version) == version_in(line@),
{
    let chars = to_chars(line);
    let sep = to_chars(": ");
    match second_piece_bounds(chars.as_slice(), sep.as_slice()) {
        None => None,
        Some((from, to)) => {
            match second_word_bounds(chars.as_slice(), from, to) {
                None => None,
                Some((a, b)) => Some(line.substring_char(a, b).to_owned()),
            }
        },
    }
}

/// The package that the local tool describes in `info_output`.
///
/// The lines are trimmed and the empty ones dropped; see [`info_step`] for
/// what each of the others yields. The caveats are their lines, joined by
/// line feeds. The package counts as installed if its name is among
/// `installed`, and as outdated if it is installed and its name is among
/// `outdated`.
pub fn parse_brew_info(
    name: &str,
    info_output: &str,
    package_type: PackageType,
    installed: &Vec<String>,
    outdated: &Vec<String>,
) -> (package: BrewPackage)
    ensures
        package@ == package_of_info(
            name@,
            info_output@,
            package_type,
            views(installed@),
            views(outdated@),
        ),
{
    let lines = clean_lines(info_output);
    let head = concat_str("==> ", name);
    let heading = concat_str(head.as_str(), ": ");
    let mut package = BrewPackage::bare(name, package_type);
    let mut in_caveats = false;
    let mut caveats: Vec<String> = Vec::new();
    let mut i: usize = 0;
    proof {
        assert(views(lines@).take(0) =~= Seq::<Seq<char>>::empty());
        assert(views(caveats@) =~= Seq::<Seq<char>>::empty());
    }
    while i < lines.len()
        invariant
            i <= lines.len(),
            heading@ == version_heading(name@),
            package@ == (BrewPackageView {
                version: package@.version,
                description: package@.description,
                homepage: package@.homepage,
                ..bare_package(name@, package_type)
            }),
            info_of(views(lines@).take(i as int), heading@) == (InfoView {
                version: package@.version,
                description: package@.description,
                homepage: package@.homepage,
                in_caveats,
                caveats: views(caveats@),
            }),
        decreases lines.len() - i,
    {
        proof {
            let all = views(lines@);
            assert(all.take(i + 1).drop_last() =~= all.take(i as int));
            assert(all.take(i + 1).last() == lines@[i as int]@);
        }
        let line = lines[i].as_str();
        if str_starts_with(line, heading.as_str()) {
            match version_of(line) {
                Some(version) => {
                    package.version = version;
                },
                None => {},
            }
        } else if !str_starts_with(line, "==>") && !str_starts_with(line, "https://")
            && package.description.as_str().is_empty() {
            package.description = line.to_owned();
        } else if str_starts_with(line, "https://") {
            package.homepage = line.to_owned();
        } else if str_starts_with(line, "==> Caveats") {
            in_caveats = true;
        } else if in_caveats {
            if str_starts_with(line, "==>") {
                in_caveats = false;
            } else {
                let copy = line.to_owned();
                let ghost before = views(caveats@);
                caveats.push(copy);
                assert(views(caveats@) =~= before.push(copy@));
            }
        }
        i += 1;
    }
    proof {
        assert(views(lines@).take(lines.len() as int) =~= views(lines@));
    }
    package.caveats = join(&caveats, "\n");
    package.installed = contains_string(installed, name);
    package.outdated = package.installed && contains_string(outdated, name);
    package
}

/// The time to live of a cached listing, in milliseconds.
pub const LISTING_TTL_MS: u64 = 300_000;

/// The time to live of a cached search, in milliseconds.
pub const SEARCH_TTL_MS: u64 = 60_000;

/// The time to live of cached details, in milliseconds.
pub const DETAILS_TTL_MS: u64 = 600_000;

/// A read that the facade answers.
#[derive(Debug)]
pub enum Query {
    /// All packages of a kind.
    Packages(PackageType),
    /// The packages of a kind that match a query.
    Search { query: String, package_type: PackageType },
    /// One package of a kind.
    Details { name: String, package_type: PackageType },
}

/// The mathematical content of a [`Query`].
pub enum QueryView {
    Packages(PackageType),
    Search { query: Seq<char>, package_type: PackageType },
    Details { name: Seq<char>, package_type: PackageType },
}

impl View for Query {
    type V = QueryView;

    open spec fn view(&self) -> QueryView {
        match self {
            Query::Packages(kind) => QueryView::Packages(*kind),
            Query::Search { query, package_type } => QueryView::Search {
                query: query@,
                package_type: *package_type,
            },
            Query::Details { name, package_type } => QueryView::Details {
                name: name@,
                package_type: *package_type,
            },
        }
    }
}

/// The key under which the listing of a kind is cached.
pub open spec fn listing_key_text(kind: PackageType) -> Seq<char> {
    "packages_"@ + kind_name(kind)
}

/// The key under which a search is cached.
pub open spec fn search_key_text(query: Seq<char>, kind: PackageType) -> Seq<char> {
    "search_"@ + kind_name(kind) + "_"@ + query
}

/// The key under which the details of a package are cached.
pub open spec fn details_key_text(name: Seq<char>, kind: PackageType) -> Seq<char> {
    "package_"@ + kind_name(kind) + "_"@ + name
}

/// The tag that all cached views of a kind carry.
pub open spec fn kind_tag_text(kind: PackageType) -> Seq<char> {
    "kind:"@ + kind_name(kind)
}

impl QueryView {
    /// The key under which the answer is cached.
    pub open spec fn key(self) -> Seq<char> {
        match self {
            QueryView::Packages(kind) => listing_key_text(kind),
            QueryView::Search { query, package_type } => search_key_text(query, package_type),
            QueryView::Details { name, package_type } => details_key_text(name, package_type),
        }
    }

    /// The time to live of the cached answer, in milliseconds.
    pub open spec fn ttl(self) -> u64 {
        match self {
            QueryView::Packages(_) => LISTING_TTL_MS,
            QueryView::Search { .. } => SEARCH_TTL_MS,
            QueryView::Details { .. } => DETAILS_TTL_MS,
        }
    }

    /// The tags of the cached answer: one for the form of the view, one for
    /// the kind, and for details the name of the package.
    pub open spec fn tags(self) -> Seq<Seq<char>> {
        match self {
            QueryView::Packages(kind) => seq!["entities"@, kind_tag_text(kind)],
            QueryView::Search { query, package_type } => seq![
                "search"@,
                kind_tag_text(package_type),
            ],
            QueryView::Details { name, package_type } => seq![
                "package_details"@,
                kind_tag_text(package_type),
                name,
            ],
        }
    }
}

/// The key under which the listing of a kind is cached.
pub fn listing_key(kind: PackageType) -> (key: String)
    ensures
        key@ == listing_key_text(kind),
{
    concat_str("packages_", kind.name())
}

/// The key under which a search is cached.
pub fn search_key(query: &str, kind: PackageType) -> (key: String)
    ensures
        key@ == search_key_text(query@, kind),
{
    let head = concat_str("search_", kind.name());
    let head = concat_str(head.as_str(), "_");
    concat_str(head.as_str(), query)
}

/// The key under which the details of a package are cached.
pub fn details_key(name: &str, kind: PackageType) -> (key: String)
    ensures
        key@ == details_key_text(name@, kind),
{
    let head = concat_str("package_", kind.name());
    let head = concat_str(head.as_str(), "_");
    concat_str(head.as_str(), name)
}

/// The tag that all cached views of a kind carry.
pub fn kind_tag(kind: PackageType) -> (tag: String)
    ensures
        tag@ == kind_tag_text(kind),
{
    concat_str("kind:", kind.name())
}

impl Query {
    /// The key under which the answer is cached.
    pub fn cache_key(&self) -> (key: String)
        ensures
            key@ == self@.key(),
    {
        match self {
            Query::Packages(kind) => listing_key(*kind),
            Query::Search { query, package_type } => search_key(query.as_str(), *package_type),
            Query::Details { name, package_type } => details_key(name.as_str(), *package_type),
        }
    }

    /// The time to live of the cached answer, in milliseconds.
    pub fn cache_ttl(&self) -> (ttl: u64)
        ensures
            ttl == self@.ttl(),
    {
        match self {
            Query::Packages(_) => LISTING_TTL_MS,
            Query::Search { .. } => SEARCH_TTL_MS,
            Query::Details { .. } => DETAILS_TTL_MS,
        }
    }

    /// The tags of the cached answer.
    pub fn cache_tags(&self) -> (tags: Vec<String>)
        ensures
            views(tags@) == self@.tags(),
    {
        let mut tags: Vec<String> = Vec::new();
        match self {
            Query::Packages(kind) => {
                tags.push("entities".to_owned());
                tags.push(kind_tag(*kind));
            },
            Query::Search { query, package_type } => {
                tags.push("search".to_owned());
                tags.push(kind_tag(*package_type));
            },
            Query::Details { name, package_type } => {
                tags.push("package_details".to_owned());
                tags.push(kind_tag(*package_type));
                tags.push(name.clone());
            },
        }
        assert(views(tags@) =~= self@.tags());
        tags
    }
}

/// What follows the fetch from the preferred source.
#[derive(Debug)]
pub enum FetchStep {
    /// The read is over, with this result.
    Done(Result<String, BrewDeckError>),
    /// The preferred source failed with this error: fetch from the other
    /// source and hand the outcome to [`PackageService::fallback_fetched_at`].
    TryFallback(BrewDeckError),
}

/// What the cache holds after a fetched answer to `query` was handed in at
/// time `now`, and what the caller gets: the answer itself once it is stored,
/// or a `SerializationError` for an answer that is not well-formed JSON.
pub open spec fn answer_stored(
    before: Contents,
    after: Contents,
    given: Result<String, BrewDeckError>,
    max_entries: usize,
    strategy: EvictionStrategy,
    query: QueryView,
    answer: Seq<char>,
    now: i64,
) -> bool {
    &&& set_post(
        before,
        after,
        match given {
            Ok(_) => Ok(()),
            Err(e) => Err(e),
        },
        max_entries,
        strategy,
        query.key(),
        answer,
        query.ttl(),
        query.tags(),
        now,
    )
    &&& given matches Ok(text) ==> text@ == answer
}

/// Once an answer to a query is stored, the cache holds it under the key of
/// the query with the tags of the query, and a read of the query returns it
/// until its time to live has passed, without a fetch.
pub proof fn lemma_stored_answer_is_served(
    before: Contents,
    after: Contents,
    max_entries: usize,
    strategy: EvictionStrategy,
    query: QueryView,
    answer: Seq<char>,
    stored_at: i64,
    now: i64,
)
    requires
        stored_after_set(
            before,
            after,
            max_entries,
            strategy,
            query.key(),
            fresh_entry(answer, query.ttl(), query.tags(), stored_at),
            stored_at,
        ),
    ensures
        after.contains_key(query.key()),
        after[query.key()].tags == query.tags(),
        now <= stored_at + query.ttl() ==> lookup(after, query.key(), now).0 == Some(answer),
        now > stored_at + query.ttl() ==> lookup(after, query.key(), now).0 is None,
{
    let entry = fresh_entry(answer, query.ttl(), query.tags(), stored_at);
    if before.len() >= max_entries {
        let mid = choose|mid: Contents|
            #![trigger mid.insert(query.key(), entry)]
            evicted(before, mid, strategy, eviction_batch(max_entries), stored_at) && after
                == mid.insert(query.key(), entry);
        assert(after[query.key()] == entry);
    }
}

/// The content without every cached view that a change of the package `name`
/// of the given kind may have made stale: its details, the listing of its
/// kind, and every key in which `search_` occurs.
pub open spec fn caches_invalidated(m: Contents, name: Seq<char>, kind: PackageType) -> Contents {
    without_matching(
        m.remove(details_key_text(name, kind)).remove(listing_key_text(kind)),
        "search_"@,
    )
}

/// After a successful mutation of a package the cache holds neither its
/// details nor the listing of its kind nor any search, of either kind and for
/// any query; every other entry whose key does not hold `search_` stays as it
/// was.
pub proof fn lemma_mutation_drops_stale_views(
    m: Contents,
    name: Seq<char>,
    kind: PackageType,
    query: Seq<char>,
    searched: PackageType,
    other: Seq<char>,
)
    ensures
        !caches_invalidated(m, name, kind).contains_key(details_key_text(name, kind)),
        !caches_invalidated(m, name, kind).contains_key(listing_key_text(kind)),
        !caches_invalidated(m, name, kind).contains_key(search_key_text(query, searched)),
        m.contains_key(other) && other != details_key_text(name, kind) && other
            != listing_key_text(kind) && !key_matches("search_"@, other) ==> caches_invalidated(
            m,
            name,
            kind,
        ).contains_key(other) && caches_invalidated(m, name, kind)[other] == m[other],
{
    let key = search_key_text(query, searched);
    let head = "search_"@;
    assert(key.subrange(0, 0 + head.len() as int) =~= head);
    assert(occurs_at(head, key, 0));
    assert(is_substring(head, key));
}

/// The mathematical content of an [`InstallResult`].
pub struct InstallResultView {
    pub success: bool,
    pub message: Seq<char>,
    pub package_name: Seq<char>,
    pub duration_ms: u64,
}

impl View for InstallResult {
    type V = InstallResultView;

    open spec fn view(&self) -> InstallResultView {
        InstallResultView {
            success: self.success,
            message: self.message@,
            package_name: self.package_name@,
            duration_ms: self.duration_ms,
        }
    }
}

/// The policy under which a fetch from the remote catalog is retried within
/// a read: two retries, one second of base delay, and a fallback behind it.
pub open spec fn remote_policy() -> ErrorRecovery {
    ErrorRecovery {
        can_retry: true,
        retry_count: 0,
        max_retries: 2,
        backoff_ms: 1000,
        fallback_available: true,
    }
}

/// A remote catalog that fails with a transient failure every time is asked
/// exactly three times within a read, once and two retries, after waits of
/// one and two seconds; the third failure is final, and the fallback
/// follows. A permanent failure is final at once.
pub proof fn lemma_remote_fetch_attempts(kind: ErrorKind)
    ensures
        transient(kind) ==> retry_decision(remote_policy().after_failures(0), kind) == Some(
            1000int,
        ),
        transient(kind) ==> retry_decision(remote_policy().after_failures(1), kind) == Some(
            2000int,
        ),
        retry_decision(remote_policy().after_failures(2), kind) is None,
        !transient(kind) ==> retry_decision(remote_policy(), kind) is None,
{
    let policy = remote_policy();
    crate::error::lemma_failures_are_counted(policy, 0);
    crate::error::lemma_failures_are_counted(policy, 1);
    crate::error::lemma_failures_are_counted(policy, 2);
    assert(crate::error::two_to(0) == 1);
    assert(crate::error::two_to(1) == 2) by {
        assert(crate::error::two_to(0) == 1);
    }
    assert(backoff_delay(1000, 0) == 1000);
    assert(backoff_delay(1000, 1) == 2000);
}

/// What the end of a background refresh of `query` at time `now` leaves
/// behind: a fetched answer that is well-formed JSON is stored anew, as a
/// fresh entry with the time to live and the tags of the query, in place of
/// the entry that was cached; a failed fetch or any other answer changes
/// nothing.
pub open spec fn refresh_stored(
    before: Contents,
    after: Contents,
    stored: bool,
    max_entries: usize,
    strategy: EvictionStrategy,
    query: QueryView,
    fetched: Option<Seq<char>>,
    now: i64,
) -> bool {
    match fetched {
        Some(answer) => if json_syntax_error(answer) is None {
            &&& stored
            &&& stored_after_set(
                before,
                after,
                max_entries,
                strategy,
                query.key(),
                fresh_entry(answer, query.ttl(), query.tags(), now),
                now,
            )
        } else {
            !stored && after == before
        },
        None => !stored && after == before,
    }
}

/// The cache-first facade over the remote catalog and the local tool.
///
/// A read looks into the cache first. On a miss the caller fetches from the
/// remote catalog, and if that fails from the local tool; the facade decides
/// after each fetch what follows and stores what was fetched. A mutation runs
/// against the local tool alone; the facade turns its outcome into a report
/// and drops the cached views that it made stale.
pub struct PackageService {
    pub cache: CacheManager,
}

impl PackageService {
    /// A facade over the given cache.
    pub fn new(cache: CacheManager) -> (service: Self)
        ensures
            service.cache == cache,
    {
        PackageService { cache }
    }

    /// The policy under which a fetch from the remote catalog is retried
    /// within a read, before the local tool is asked; see [`remote_policy`].
    pub fn remote_fetch_policy() -> (policy: ErrorRecovery)
        ensures
            policy == remote_policy(),
            policy.max_retries == 2,
    {
        ErrorRecovery::new().with_max_retries(2).with_backoff(1000).with_fallback()
    }

    /// Ends a background refresh of `query` at the current time; see
    /// [`PackageService::refresh_fetched_at`].
    pub fn refresh_fetched(&mut self, query: &Query, outcome: Result<String, BrewDeckError>) -> (stored:
        bool)
        ensures
            exists|now: i64|
                #[trigger] refresh_stored(
                    old(self).cache@,
                    final(self).cache@,
                    stored,
                    old(self).cache.max_entries(),
                    old(self).cache.strategy(),
                    query@,
                    fetched_text(outcome),
                    now,
                ),
            final(self).cache.same_settings(&old(self).cache),
    {
        let now = now_ms();
        let ghost handed = outcome;
        let stored = self.refresh_fetched_at(query, outcome, now);
        assert(refresh_stored(
            old(self).cache@,
            self.cache@,
            stored,
            old(self).cache.max_entries(),
            old(self).cache.strategy(),
            query@,
            fetched_text(handed),
            now,
        ));
        stored
    }

    /// Ends a background refresh of `query` at time `now`.
    ///
    /// The answer was fetched from the sources, past the cache. If it is
    /// well-formed JSON it is stored anew under the key of the query, as a
    /// fresh entry made at `now` with the time to live and the tags of the
    /// query, in place of the entry that was cached. A failed fetch, or an
    /// answer that is not well-formed JSON, changes nothing: the failure is
    /// the caller's to log and reaches nobody else.
    pub fn refresh_fetched_at(
        &mut self,
        query: &Query,
        outcome: Result<String, BrewDeckError>,
        now: i64,
    ) -> (stored: bool)
        ensures
            refresh_stored(
                old(self).cache@,
                final(self).cache@,
                stored,
                old(self).cache.max_entries(),
                old(self).cache.strategy(),
                query@,
                fetched_text(outcome),
                now,
            ),
            final(self).cache.same_settings(&old(self).cache),
    {
        match outcome {
            Ok(answer) => match JsonText::parse(answer) {
                Ok(json) => {
                    self.store_answer_at(query, json, now);
                    true
                },
                Err(_) => false,
            },
            Err(_) => false,
        }
    }

    /// Looks for the answer to `query` in the cache at the current time; see
    /// [`PackageService::cached_at`].
    pub fn cached(&mut self, query: &Query) -> (hit: Option<String>)
        ensures
            exists|now: i64|
                (text_of(hit), final(self).cache@) == lookup(old(self).cache@, query@.key(), now),
            final(self).cache.same_settings(&old(self).cache),
    {
        let now = now_ms();
        let hit = self.cached_at(query, now);
        assert((text_of(hit), self.cache@) == lookup(old(self).cache@, query@.key(), now));
        hit
    }

    /// Looks for the answer to `query` in the cache at time `now`. A hit is
    /// the answer; on a miss the caller fetches from the remote catalog and
    /// hands the outcome to [`PackageService::primary_fetched_at`].
    pub fn cached_at(&mut self, query: &Query, now: i64) -> (hit: Option<String>)
        ensures
            (text_of(hit), final(self).cache@) == lookup(old(self).cache@, query@.key(), now),
            final(self).cache.same_settings(&old(self).cache),
    {
        let key = query.cache_key();
        self.cache.get_at(key.as_str(), now)
    }

    /// Stores a checked answer to `query` at time `now`, under the key, time
    /// to live and tags of the query, and hands its text back.
    pub fn store_answer_at(&mut self, query: &Query, answer: JsonText, now: i64) -> (text: String)
        ensures
            text@ == answer@,
            stored_after_set(
                old(self).cache@,
                final(self).cache@,
                old(self).cache.max_entries(),
                old(self).cache.strategy(),
                query@.key(),
                fresh_entry(answer@, query@.ttl(), query@.tags(), now),
                now,
            ),
            final(self).cache.same_settings(&old(self).cache),
    {
        let key = query.cache_key();
        let text = answer.as_str().to_owned();
        self.cache.put_at(key.as_str(), answer, Some(query.cache_ttl()), query.cache_tags(), now);
        text
    }

    /// Checks a fetched answer to `query` and stores it at time `now`.
    fn check_and_store_at(&mut self, query: &Query, answer: String, now: i64) -> (r: Result<
        String,
        BrewDeckError,
    >)
        ensures
            answer_stored(
                old(self).cache@,
                final(self).cache@,
                r,
                old(self).cache.max_entries(),
                old(self).cache.strategy(),
                query@,
                answer@,
                now,
            ),
            final(self).cache.same_settings(&old(self).cache),
    {
        match JsonText::parse(answer) {
            Ok(json) => Ok(self.store_answer_at(query, json, now)),
            Err(e) => Err(e),
        }
    }

    /// Decides what follows the fetch from the remote catalog, at the
    /// current time; see [`PackageService::primary_fetched_at`].
    pub fn primary_fetched(&mut self, query: &Query, outcome: Result<String, BrewDeckError>) -> (step:
        FetchStep)
        ensures
            match outcome {
                Ok(answer) => step matches FetchStep::Done(given) && exists|now: i64|
                    #[trigger] answer_stored(
                        old(self).cache@,
                        final(self).cache@,
                        given,
                        old(self).cache.max_entries(),
                        old(self).cache.strategy(),
                        query@,
                        answer@,
                        now,
                    ),
                Err(error) => step == FetchStep::TryFallback(error) && final(self).cache@ == old(
                    self,
                ).cache@,
            },
            final(self).cache.same_settings(&old(self).cache),
    {
        let now = now_ms();
        let ghost handed = outcome;
        let step = self.primary_fetched_at(query, outcome, now);
        proof {
            if handed is Ok {
                assert(answer_stored(
                    old(self).cache@,
                    self.cache@,
                    step->Done_0,
                    old(self).cache.max_entries(),
                    old(self).cache.strategy(),
                    query@,
                    handed->Ok_0@,
                    now,
                ));
            }
        }
        step
    }

    /// Decides what follows the fetch from the remote catalog, at time
    /// `now`.
    ///
    /// A fetched answer is stored under the key, time to live and tags of the
    /// query and ends the read; an answer that is not well-formed JSON ends it
    /// with a `SerializationError` and is not stored. A failure changes
    /// nothing and asks for the fetch from the local tool, keeping the error.
    pub fn primary_fetched_at(
        &mut self,
        query: &Query,
        outcome: Result<String, BrewDeckError>,
        now: i64,
    ) -> (step: FetchStep)
        ensures
            match outcome {
                Ok(answer) => step matches FetchStep::Done(given) && answer_stored(
                    old(self).cache@,
                    final(self).cache@,
                    given,
                    old(self).cache.max_entries(),
                    old(self).cache.strategy(),
                    query@,
                    answer@,
                    now,
                ),
                Err(error) => step == FetchStep::TryFallback(error) && final(self).cache@ == old(
                    self,
                ).cache@,
            },
            final(self).cache.same_settings(&old(self).cache),
    {
        match outcome {
            Ok(answer) => FetchStep::Done(self.check_and_store_at(query, answer, now)),
            Err(error) => FetchStep::TryFallback(error),
        }
    }

    /// Ends a read whose fetch from the remote catalog failed, at the
    /// current time; see [`PackageService::fallback_fetched_at`].
    pub fn fallback_fetched(
        &mut self,
        query: &Query,
        primary_error: BrewDeckError,
        outcome: Result<String, BrewDeckError>,
    ) -> (r: Result<String, BrewDeckError>)
        ensures
            match outcome {
                Ok(answer) => exists|now: i64|
                    #[trigger] answer_stored(
                        old(self).cache@,
                        final(self).cache@,
                        r,
                        old(self).cache.max_entries(),
                        old(self).cache.strategy(),
                        query@,
                        answer@,
                        now,
                    ),
                Err(_) => r == Err::<String, BrewDeckError>(primary_error) && final(self).cache@
                    == old(self).cache@,
            },
            final(self).cache.same_settings(&old(self).cache),
    {
        let now = now_ms();
        let ghost handed = outcome;
        let r = self.fallback_fetched_at(query, primary_error, outcome, now);
        proof {
            if handed is Ok {
                assert(answer_stored(
                    old(self).cache@,
                    self.cache@,
                    r,
                    old(self).cache.max_entries(),
                    old(self).cache.strategy(),
                    query@,
                    handed->Ok_0@,
                    now,
                ));
            }
        }
        r
    }

    /// Ends a read whose fetch from the remote catalog failed with
    /// `primary_error`, at time `now`.
    ///
    /// An answer of the local tool is stored like one of the remote catalog
    /// and returned. If the local tool failed too, the read fails with the
    /// error of the remote catalog, not with that of the local tool, and the
    /// cache stays as it was.
    pub fn fallback_fetched_at(
        &mut self,
        query: &Query,
        primary_error: BrewDeckError,
        outcome: Result<String, BrewDeckError>,
        now: i64,
    ) -> (r: Result<String, BrewDeckError>)
        ensures
            match outcome {
                Ok(answer) => answer_stored(
                    old(self).cache@,
                    final(self).cache@,
                    r,
                    old(self).cache.max_entries(),
                    old(self).cache.strategy(),
                    query@,
                    answer@,
                    now,
                ),
                Err(_) => r == Err::<String, BrewDeckError>(primary_error) && final(self).cache@
                    == old(self).cache@,
            },
            final(self).cache.same_settings(&old(self).cache),
    {
        match after_fallback(primary_error, outcome) {
            Ok(answer) => self.check_and_store_at(query, answer, now),
            Err(error) => Err(error),
        }
    }

    /// Drops every cached view that a change of the package `name` of the
    /// given kind may have made stale; see [`caches_invalidated`].
    pub fn invalidate_package_caches(&mut self, name: &str, kind: PackageType)
        ensures
            final(self).cache@ == caches_invalidated(old(self).cache@, name@, kind),
            final(self).cache.same_settings(&old(self).cache),
    {
        let details = details_key(name, kind);
        self.cache.invalidate(details.as_str());
        let listing = listing_key(kind);
        self.cache.invalidate(listing.as_str());
        self.cache.invalidate_pattern("search_");
    }

    /// Turns the outcome of an install, uninstall or update of the package
    /// `name` into a report.
    ///
    /// A success carries the tool's message and drops the cached views that
    /// the change made stale. A failure is reported with `success` unset and
    /// the text of the error as the message; it is not an error of this call,
    /// and the cache stays as it was.
    pub fn finish_mutation(
        &mut self,
        name: &str,
        kind: PackageType,
        outcome: Result<String, BrewDeckError>,
        duration_ms: u64,
    ) -> (report: InstallResult)
        ensures
            report@.package_name == name@,
            report@.duration_ms == duration_ms,
            match outcome {
                Ok(message) => {
                    &&& report@.success
                    &&& report@.message == message@
                    &&& final(self).cache@ == caches_invalidated(old(self).cache@, name@, kind)
                },
                Err(error) => {
                    &&& !report@.success
                    &&& report@.message == display_text(error@)
                    &&& final(self).cache@ == old(self).cache@
                },
            },
            final(self).cache.same_settings(&old(self).cache),
    {
        match outcome {
            Ok(message) => {
                self.invalidate_package_caches(name, kind);
                InstallResult { success: true, message, package_name: name.to_owned(), duration_ms }
            },
            Err(error) => InstallResult {
                success: false,
                message: error.describe(),
                package_name: name.to_owned(),
                duration_ms,
            },
        }
    }
}

} // verus!
