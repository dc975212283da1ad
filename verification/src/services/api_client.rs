//! The records of the remote catalog and what the data layer makes of them.
//!
//! Fetching and decoding the records is left to the caller. This module
//! names the addresses of the catalog, holds the records, and turns a record
//! into the summary that the data layer serves, with its warnings.

use vstd::prelude::*;
use std::collections::HashMap;
use crate::error::ErrorRecovery;
use crate::services::brew_client::PackageType;
use crate::services::package_service::{PackageWarning, WarningSeverity, WarningType};
use crate::text::{
    concat_str,
    is_substring,
    join,
    joined,
    lowercase_of,
    str_contains,
    to_lowercase,
    views,
};

verus! {

/// `serde_json::Value`, declared so that a record can carry its fields of
/// free form. Nothing is known of its inside, and nothing here reads it.
#[verifier::external_type_specification]
#[verifier::external_body]
pub struct ExJsonValue(serde_json::Value);

/// The summary of a catalog record.
#[derive(Debug)]
pub struct ApiPackageInfo {
    pub name: String,
    pub token: Option<String>,
    pub version: String,
    pub description: String,
    pub homepage: Option<String>,
    pub dependencies: Vec<String>,
    pub conflicts: Vec<String>,
    pub caveats: Option<String>,
    pub analytics: ApiAnalytics,
    pub deprecated: bool,
    pub disabled: bool,
    pub warnings: Vec<String>,
    pub license: Option<String>,
    pub tap: String,
}

/// Install counts by period.
#[derive(Debug)]
pub struct ApiAnalytics {
    pub install: HashMap<String, u64>,
    pub install_on_request: HashMap<String, u64>,
    pub build_error: HashMap<String, u64>,
}

/// The catalog record of a formula.
#[derive(Debug)]
pub struct ApiFormulaResponse {
    pub name: String,
    pub full_name: String,
    pub tap: String,
    pub oldname: Option<String>,
    pub aliases: Vec<String>,
    pub versioned_formulae: Vec<String>,
    pub desc: Option<String>,
    pub license: Option<String>,
    pub homepage: Option<String>,
    pub versions: ApiVersions,
    pub urls: ApiUrls,
    pub revision: u32,
    pub version_scheme: u32,
    pub bottle: ApiBottle,
    pub keg_only: bool,
    pub keg_only_reason: Option<String>,
    pub options: Vec<String>,
    pub build_dependencies: Vec<String>,
    pub dependencies: Vec<String>,
    pub test_dependencies: Vec<String>,
    pub recommended_dependencies: Vec<String>,
    pub optional_dependencies: Vec<String>,
    pub uses_from_macos: Vec<String>,
    pub requirements: Vec<String>,
    pub conflicts_with: Vec<String>,
    pub conflicts_with_reasons: Vec<String>,
    pub link_overwrite: Vec<String>,
    pub caveats: Option<String>,
    pub installed: Vec<ApiInstalled>,
    pub linked_keg: Option<String>,
    pub pinned: bool,
    pub outdated: bool,
    pub deprecated: bool,
    pub deprecation_date: Option<String>,
    pub deprecation_reason: Option<String>,
    pub disabled: bool,
    pub disable_date: Option<String>,
    pub disable_reason: Option<String>,
    pub analytics: ApiAnalytics,
}

/// The catalog record of a cask. The fields of free form are carried as
/// they come.
#[derive(Debug)]
pub struct ApiCaskResponse {
    pub token: String,
    pub full_token: String,
    pub tap: String,
    pub name: Vec<String>,
    pub desc: Option<String>,
    pub homepage: Option<String>,
    pub url: String,
    pub appcast: Option<String>,
    pub version: String,
    pub installed: Option<String>,
    pub outdated: bool,
    pub sha256: String,
    pub artifacts: Vec<serde_json::Value>,
    pub caveats: Option<String>,
    pub depends_on: ApiDependsOn,
    pub conflicts_with: Option<serde_json::Value>,
    pub container: Option<String>,
    pub auto_updates: Option<bool>,
    pub tap_git_head: String,
    pub languages: Vec<String>,
    pub ruby_source_path: String,
    pub ruby_source_checksum: HashMap<String, String>,
    pub variations: HashMap<String, serde_json::Value>,
    pub analytics: ApiAnalytics,
}

#[derive(Debug)]
pub struct ApiVersions {
    pub stable: String,
    pub head: Option<String>,
    pub bottle: bool,
}

#[derive(Debug)]
pub struct ApiUrls {
    pub stable: ApiUrl,
    pub head: Option<ApiUrl>,
}

#[derive(Debug)]
pub struct ApiUrl {
    pub url: String,
    pub tag: Option<String>,
    pub revision: Option<String>,
    pub checksum: Option<String>,
}

#[derive(Debug)]
pub struct ApiBottle {
    pub rebuild: u32,
    pub root_url: String,
    pub files: HashMap<String, ApiBottleFile>,
}

#[derive(Debug)]
pub struct ApiBottleFile {
    pub cellar: String,
    pub url: String,
    pub sha256: String,
}

#[derive(Debug)]
pub struct ApiInstalled {
    pub version: String,
    pub used_options: Vec<String>,
    pub built_as_bottle: bool,
    pub poured_from_bottle: bool,
    pub time: u64,
    pub runtime_dependencies: Vec<String>,
    pub installed_as_dependency: bool,
    pub installed_on_request: bool,
}

#[derive(Debug)]
pub struct ApiDependsOn {
    pub macos: Option<HashMap<String, Vec<String>>>,
    pub arch: Option<HashMap<String, Vec<String>>>,
    pub formula: Vec<String>,
    pub cask: Vec<String>,
}

/// The addresses of the remote catalog.
#[derive(Debug)]
pub struct ApiClient {
    pub base_url: String,
}

impl ApiClient {
    /// The catalog at its public address.
    pub fn new() -> (client: Self)
        ensures
            client.base_url@ == "https://formulae.brew.sh/api"@,
    {
        ApiClient { base_url: "https://formulae.brew.sh/api".to_owned() }
    }

    /// The policy under which a fetch is retried: three retries, one second
    /// of base delay.
    pub fn fetch_policy() -> (policy: ErrorRecovery)
        ensures
            policy == (ErrorRecovery {
                can_retry: true,
                retry_count: 0,
                max_retries: 3,
                backoff_ms: 1000,
                fallback_available: false,
            }),
    {
        ErrorRecovery::new().with_max_retries(3).with_backoff(1000)
    }

    /// The address of the list of all formulae.
    pub fn all_formulae_url(&self) -> (url: String)
        ensures
            url@ == self.base_url@ + "/formula.json"@,
    {
        concat_str(self.base_url.as_str(), "/formula.json")
    }

    /// The address of the list of all casks.
    pub fn all_casks_url(&self) -> (url: String)
        ensures
            url@ == self.base_url@ + "/cask.json"@,
    {
        concat_str(self.base_url.as_str(), "/cask.json")
    }

    /// The address of the record of one formula.
    pub fn formula_url(&self, name: &str) -> (url: String)
        ensures
            url@ == self.base_url@ + "/formula/"@ + name@ + ".json"@,
    {
        let head = concat_str(self.base_url.as_str(), "/formula/");
        let head = concat_str(head.as_str(), name);
        concat_str(head.as_str(), ".json")
    }

    /// The address of the record of one cask.
    pub fn cask_url(&self, name: &str) -> (url: String)
        ensures
            url@ == self.base_url@ + "/cask/"@ + name@ + ".json"@,
    {
        let head = concat_str(self.base_url.as_str(), "/cask/");
        let head = concat_str(head.as_str(), name);
        concat_str(head.as_str(), ".json")
    }

    /// The address of the install counts of the trailing year.
    pub fn analytics_url(&self, package_type: PackageType) -> (url: String)
        ensures
            url@ == self.base_url@ + "/"@ + match package_type {
                PackageType::Formula => "analytics/install/365d.json"@,
                PackageType::Cask => "analytics-linux/cask-install/365d.json"@,
            },
    {
        let head = concat_str(self.base_url.as_str(), "/");
        match package_type {
            PackageType::Formula => concat_str(head.as_str(), "analytics/install/365d.json"),
            PackageType::Cask => concat_str(head.as_str(), "analytics-linux/cask-install/365d.json"),
        }
    }
}

/// A sentence, followed by a colon and a reason if there is one.
pub open spec fn with_reason(sentence: Seq<char>, reason: Option<String>) -> Seq<char> {
    match reason {
        Some(r) => sentence + ": "@ + r@,
        None => sentence,
    }
}

/// One warning if the condition holds, none otherwise.
pub open spec fn warning_if(condition: bool, warning: Seq<char>) -> Seq<Seq<char>> {
    if condition {
        seq![warning]
    } else {
        Seq::empty()
    }
}

/// The warnings of a formula, in this order: that it is deprecated, that it
/// is disabled, that it is keg-only, each with its reason if one is given,
/// and the formulae it conflicts with.
pub open spec fn formula_warnings(f: ApiFormulaResponse) -> Seq<Seq<char>> {
    warning_if(f.deprecated, with_reason("This formula is deprecated"@, f.deprecation_reason))
        + warning_if(f.disabled, with_reason("This formula is disabled"@, f.disable_reason))
        + warning_if(f.keg_only, with_reason("This formula is keg-only"@, f.keg_only_reason))
        + warning_if(
        f.conflicts_with@.len() > 0,
        "Conflicts with: "@ + joined(views(f.conflicts_with@), ", "@),
    )
}

/// The warnings of a cask, in this order: that it does not update itself,
/// the formulae it needs, and the casks it needs.
pub open spec fn cask_warnings(c: ApiCaskResponse) -> Seq<Seq<char>> {
    warning_if(c.auto_updates == Some(false), "This application does not auto-update"@)
        + warning_if(
        c.depends_on.formula@.len() > 0,
        "Requires formulae: "@ + joined(views(c.depends_on.formula@), ", "@),
    ) + warning_if(
        c.depends_on.cask@.len() > 0,
        "Requires other casks: "@ + joined(views(c.depends_on.cask@), ", "@),
    )
}

/// What a warning is about and how much it matters, by the words that occur
/// in its lower-case text. The first line that applies decides.
pub open spec fn warning_class(lower: Seq<char>) -> (WarningType, WarningSeverity) {
    if is_substring("deprecated"@, lower) {
        (WarningType::Deprecated, WarningSeverity::Medium)
    } else if is_substring("disabled"@, lower) {
        (WarningType::Deprecated, WarningSeverity::High)
    } else if is_substring("conflicts"@, lower) {
        (WarningType::ConflictsWith, WarningSeverity::Medium)
    } else if is_substring("requires"@, lower) || is_substring("depends"@, lower) {
        (WarningType::Compatibility, WarningSeverity::Low)
    } else if is_substring("keg-only"@, lower) {
        (WarningType::Compatibility, WarningSeverity::Low)
    } else if is_substring("experimental"@, lower) || is_substring("beta"@, lower) {
        (WarningType::Experimental, WarningSeverity::Medium)
    } else {
        (WarningType::Compatibility, WarningSeverity::Low)
    }
}

/// The description of a record, or the words that stand for a missing one.
pub open spec fn description_of(desc: Option<String>) -> Seq<char> {
    match desc {
        Some(d) => d@,
        None => "No description available"@,
    }
}

/// Turns catalog records into summaries.
pub struct PackageParser;

impl PackageParser {
    /// The summary of a formula: its fields as they come, the words
    /// `No description available` for a missing description, and its
    /// warnings; see [`formula_warnings`].
    pub fn parse_formula_to_package_info(formula: ApiFormulaResponse) -> (info: ApiPackageInfo)
        ensures
            info.name == formula.name,
            info.token is None,
            info.version == formula.versions.stable,
            info.description@ == description_of(formula.desc),
            info.homepage == formula.homepage,
            info.dependencies == formula.dependencies,
            info.conflicts == formula.conflicts_with,
            info.caveats == formula.caveats,
            info.analytics == formula.analytics,
            info.deprecated == formula.deprecated,
            info.disabled == formula.disabled,
            views(info.warnings@) == formula_warnings(formula),
            info.license == formula.license,
            info.tap == formula.tap,
    {
        let warnings = Self::extract_formula_warnings(&formula);
        ApiPackageInfo {
            name: formula.name,
            token: None,
            version: formula.versions.stable,
            description: match formula.desc {
                Some(d) => d,
                None => "No description available".to_owned(),
            },
            homepage: formula.homepage,
            dependencies: formula.dependencies,
            conflicts: formula.conflicts_with,
            caveats: formula.caveats,
            analytics: formula.analytics,
            deprecated: formula.deprecated,
            disabled: formula.disabled,
            warnings,
            license: formula.license,
            tap: formula.tap,
        }
    }

    /// The summary of a cask: its first name, or its token if it has no
    /// name; the formulae it needs as its dependencies; no conflicts and no
    /// license; never deprecated or disabled; and its warnings, see
    /// [`cask_warnings`].
    pub fn parse_cask_to_package_info(cask: ApiCaskResponse) -> (info: ApiPackageInfo)
        ensures
            info.name@ == (if cask.name@.len() > 0 {
                cask.name@[0]@
            } else {
                cask.token@
            }),
            info.token == Some(cask.token),
            info.version == cask.version,
            info.description@ == description_of(cask.desc),
            info.homepage == cask.homepage,
            info.dependencies == cask.depends_on.formula,
            info.conflicts@.len() == 0,
            info.caveats == cask.caveats,
            info.analytics == cask.analytics,
            !info.deprecated,
            !info.disabled,
            views(info.warnings@) == cask_warnings(cask),
            info.license is None,
            info.tap == cask.tap,
    {
        let warnings = Self::extract_cask_warnings(&cask);
        let name = if cask.name.len() > 0 {
            cask.name[0].clone()
        } else {
            cask.token.clone()
        };
        ApiPackageInfo {
            name,
            token: Some(cask.token),
            version: cask.version,
            description: match cask.desc {
                Some(d) => d,
                None => "No description available".to_owned(),
            },
            homepage: cask.homepage,
            dependencies: cask.depends_on.formula,
            conflicts: Vec::new(),
            caveats: cask.caveats,
            analytics: cask.analytics,
            deprecated: false,
            disabled: false,
            warnings,
            license: None,
            tap: cask.tap,
        }
    }

    /// A sentence, followed by a colon and a reason if there is one.
    fn sentence_with_reason(sentence: &str, reason: &Option<String>) -> (text: String)
        ensures
            text@ == with_reason(sentence@, *reason),
    {
        match reason {
            Some(r) => {
                let head = concat_str(sentence, ": ");
                concat_str(head.as_str(), r.as_str())
            },
            None => sentence.to_owned(),
        }
    }

    /// The warnings of a formula; see [`formula_warnings`].
    pub fn extract_formula_warnings(formula: &ApiFormulaResponse) -> (warnings: Vec<String>)
        ensures
            views(warnings@) == formula_warnings(*formula),
    {
        let mut warnings: Vec<String> = Vec::new();
        let ghost mut said: Seq<Seq<char>> = Seq::empty();
        assert(views(warnings@) =~= said);
        if formula.deprecated {
            let text = Self::sentence_with_reason(
                "This formula is deprecated",
                &formula.deprecation_reason,
            );
            proof {
                said = said.push(text@);
            }
            warnings.push(text);
            assert(views(warnings@) =~= said);
        }
        if formula.disabled {
            let text = Self::sentence_with_reason(
                "This formula is disabled",
                &formula.disable_reason,
            );
            proof {
                said = said.push(text@);
            }
            warnings.push(text);
            assert(views(warnings@) =~= said);
        }
        if formula.keg_only {
            let text = Self::sentence_with_reason(
                "This formula is keg-only",
                &formula.keg_only_reason,
            );
            proof {
                said = said.push(text@);
            }
            warnings.push(text);
            assert(views(warnings@) =~= said);
        }
        if formula.conflicts_with.len() > 0 {
            let list = join(&formula.conflicts_with, ", ");
            let text = concat_str("Conflicts with: ", list.as_str());
            proof {
                said = said.push(text@);
            }
            warnings.push(text);
            assert(views(warnings@) =~= said);
        }
        assert(said =~= formula_warnings(*formula));
        warnings
    }

    /// The warnings of a cask; see [`cask_warnings`].
    pub fn extract_cask_warnings(cask: &ApiCaskResponse) -> (warnings: Vec<String>)
        ensures
            views(warnings@) == cask_warnings(*cask),
    {
        let mut warnings: Vec<String> = Vec::new();
        let ghost mut said: Seq<Seq<char>> = Seq::empty();
        assert(views(warnings@) =~= said);
        let silent = match cask.auto_updates {
            Some(updates) => !updates,
            None => false,
        };
        if silent {
            let text = "This application does not auto-update".to_owned();
            proof {
                said = said.push(text@);
            }
            warnings.push(text);
            assert(views(warnings@) =~= said);
        }
        if cask.depends_on.formula.len() > 0 {
            let list = join(&cask.depends_on.formula, ", ");
            let text = concat_str("Requires formulae: ", list.as_str());
            proof {
                said = said.push(text@);
            }
            warnings.push(text);
            assert(views(warnings@) =~= said);
        }
        if cask.depends_on.cask.len() > 0 {
            let list = join(&cask.depends_on.cask, ", ");
            let text = concat_str("Requires other casks: ", list.as_str());
            proof {
                said = said.push(text@);
            }
            warnings.push(text);
            assert(views(warnings@) =~= said);
        }
        assert(said =~= cask_warnings(*cask));
        warnings
    }

    /// The warnings with what each is about and how much it matters; see
    /// [`warning_class`]. The texts and their order stay.
    pub fn convert_to_package_warnings(warning_strings: Vec<String>) -> (warnings: Vec<
        PackageWarning,
    >)
        ensures
            warnings.len() == warning_strings.len(),
            forall|i: int|
                0 <= i < warnings.len() ==> {
                    &&& (#[trigger] warnings@[i]).message@ == warning_strings@[i]@
                    &&& (warnings@[i].warning_type, warnings@[i].severity) == warning_class(
                        lowercase_of(warning_strings@[i]@),
                    )
                },
    {
        let mut warnings: Vec<PackageWarning> = Vec::new();
        let mut i: usize = 0;
        while i < warning_strings.len()
            invariant
                i <= warning_strings.len(),
                warnings.len() == i,
                forall|j: int|
                    0 <= j < i ==> {
                        &&& (#[trigger] warnings@[j]).message@ == warning_strings@[j]@
                        &&& (warnings@[j].warning_type, warnings@[j].severity) == warning_class(
                            lowercase_of(warning_strings@[j]@),
                        )
                    },
            decreases warning_strings.len() - i,
        {
            let message = warning_strings[i].clone();
            let (warning_type, severity) = Self::classify_warning(message.as_str());
            warnings.push(PackageWarning { warning_type, message, severity });
            i += 1;
        }
        warnings
    }

    /// What a warning is about and how much it matters; see
    /// [`warning_class`].
    pub fn classify_warning(warning: &str) -> (class: (WarningType, WarningSeverity))
        ensures
            class == warning_class(lowercase_of(warning@)),
    {
        let lower = to_lowercase(warning);
        Self::classify_lowercase(lower.as_str())
    }

    /// What a warning with the lower-case text `lower` is about and how much
    /// it matters; see [`warning_class`].
    pub fn classify_lowercase(lower: &str) -> (class: (WarningType, WarningSeverity))
        ensures
            class == warning_class(lower@),
    {
        if str_contains(lower, "deprecated") {
            (WarningType::Deprecated, WarningSeverity::Medium)
        } else if str_contains(lower, "disabled") {
            (WarningType::Deprecated, WarningSeverity::High)
        } else if str_contains(lower, "conflicts") {
            (WarningType::ConflictsWith, WarningSeverity::Medium)
        } else if str_contains(lower, "requires") || str_contains(lower, "depends") {
            (WarningType::Compatibility, WarningSeverity::Low)
        } else if str_contains(lower, "keg-only") {
            (WarningType::Compatibility, WarningSeverity::Low)
        } else if str_contains(lower, "experimental") || str_contains(lower, "beta") {
            (WarningType::Experimental, WarningSeverity::Medium)
        } else {
            (WarningType::Compatibility, WarningSeverity::Low)
        }
    }
}

} // verus!
