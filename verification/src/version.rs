//! Versions and version specifications, as far as this library reads them.
//!
//! The grammar of versions, requirements, ranges and aliases belongs to the
//! `version_spec` crate. A parsed value is kept here as the few plain fields
//! that the rules of this library depend on, together with its printed form.

use vstd::prelude::*;
use crate::text::str_eq;

verus! {

/// A fully-qualified version: its three numbers and its printed form.
#[derive(Debug, PartialEq, Eq)]
pub struct Version {
    pub major: u32,
    pub minor: u32,
    pub patch: u32,
    /// The printed form, with pre-release and build metadata.
    pub text: String,
}

/// The value of a [`Version`].
pub struct VersionView {
    pub major: u32,
    pub minor: u32,
    pub patch: u32,
    pub text: Seq<char>,
}

impl View for Version {
    type V = VersionView;

    open spec fn view(&self) -> VersionView {
        VersionView { major: self.major, minor: self.minor, patch: self.patch, text: self.text@ }
    }
}

impl Clone for Version {
    fn clone(&self) -> (copy: Self)
        ensures
            copy@ == self@,
    {
        Version { major: self.major, minor: self.minor, patch: self.patch, text: self.text.clone() }
    }
}

/// A version requirement such as `~4` or `>=16`: the major number that it
/// names, if any, and its printed form.
#[derive(Debug, PartialEq, Eq)]
pub struct Requirement {
    pub major: Option<u32>,
    pub text: String,
}

/// A resolved version or alias.
#[derive(Debug, PartialEq, Eq)]
pub enum VersionSpec {
    Canary,
    Alias(String),
    Version(Version),
}

/// The value of a [`VersionSpec`].
pub enum VersionSpecView {
    Canary,
    Alias(Seq<char>),
    Version(VersionView),
}

impl View for VersionSpec {
    type V = VersionSpecView;

    open spec fn view(&self) -> VersionSpecView {
        match self {
            VersionSpec::Canary => VersionSpecView::Canary,
            VersionSpec::Alias(alias) => VersionSpecView::Alias(alias@),
            VersionSpec::Version(version) => VersionSpecView::Version(version@),
        }
    }
}

/// A version, requirement, range or alias that is still to be resolved.
#[derive(Debug, PartialEq, Eq)]
pub enum UnresolvedVersionSpec {
    Canary,
    Alias(String),
    /// A range of several clauses, by its printed form.
    Range(String),
    Requirement(Requirement),
    Version(Version),
}

/// The value of an [`UnresolvedVersionSpec`].
pub enum UnresolvedView {
    Canary,
    Alias(Seq<char>),
    Range(Seq<char>),
    Requirement(Option<u32>, Seq<char>),
    Version(VersionView),
}

impl View for UnresolvedVersionSpec {
    type V = UnresolvedView;

    open spec fn view(&self) -> UnresolvedView {
        match self {
            UnresolvedVersionSpec::Canary => UnresolvedView::Canary,
            UnresolvedVersionSpec::Alias(alias) => UnresolvedView::Alias(alias@),
            UnresolvedVersionSpec::Range(text) => UnresolvedView::Range(text@),
            UnresolvedVersionSpec::Requirement(req) => UnresolvedView::Requirement(
                req.major,
                req.text@,
            ),
            UnresolvedVersionSpec::Version(version) => UnresolvedView::Version(version@),
        }
    }
}

/// A resolved specification, read as one that is still to be resolved.
pub open spec fn unresolved_of(spec: VersionSpecView) -> UnresolvedView {
    match spec {
        VersionSpecView::Canary => UnresolvedView::Canary,
        VersionSpecView::Alias(alias) => UnresolvedView::Alias(alias),
        VersionSpecView::Version(version) => UnresolvedView::Version(version),
    }
}

/// The printed form of a resolved specification.
pub open spec fn text_of(spec: VersionSpecView) -> Seq<char> {
    match spec {
        VersionSpecView::Canary => "canary"@,
        VersionSpecView::Alias(alias) => alias,
        VersionSpecView::Version(version) => version.text,
    }
}

/// Whether the canary build is asked for, by the variant or by the alias of
/// that name.
pub open spec fn asks_canary(spec: VersionSpecView) -> bool {
    match spec {
        VersionSpecView::Canary => true,
        VersionSpecView::Alias(alias) => alias == "canary"@,
        VersionSpecView::Version(_) => false,
    }
}

/// A text that does not parse as what was asked for.
#[derive(Debug, PartialEq, Eq)]
pub struct InvalidVersion {
    pub text: String,
}

/// The error of `version_spec`'s parsers, of which nothing is read.
#[verifier::external_type_specification]
#[verifier::external_body]
pub struct ExSpecError(proto_pdk_api::SpecError);

/// What `version_spec` reads `text` as when asked for a version, if anything.
pub uninterp spec fn parsed_version(text: Seq<char>) -> Option<VersionView>;

/// What `version_spec` reads `text` as when asked for a resolved
/// specification, if anything.
pub uninterp spec fn parsed_version_spec(text: Seq<char>) -> Option<VersionSpecView>;

/// What `version_spec` reads `text` as when asked for an unresolved
/// specification, if anything.
pub uninterp spec fn parsed_unresolved_spec(text: Seq<char>) -> Option<UnresolvedView>;

/// Calls `version_spec::Version::parse` (by `proto_pdk_api`, which hands the
/// crate on). The result is taken to depend on the
/// text alone; the numbers and the printed form of the version that comes
/// back are kept.
#[verifier::external_body]
fn version_from_text(text: &str) -> (parsed: Result<Version, proto_pdk_api::SpecError>)
    ensures
        parsed is Ok <==> parsed_version(text@) is Some,
        parsed is Ok ==> Some(parsed->Ok_0@) == parsed_version(text@),
{
    let v = proto_pdk_api::Version::parse(text)?;
    Ok(Version { major: v.major, minor: v.minor, patch: v.patch, text: v.to_string() })
}

/// Calls `version_spec::VersionSpec::parse`. The result is taken to depend on
/// the text alone; an alias comes back by its name, a version by its numbers
/// and printed form.
#[verifier::external_body]
fn version_spec_from_text(text: &str) -> (parsed: Result<VersionSpec, proto_pdk_api::SpecError>)
    ensures
        parsed is Ok <==> parsed_version_spec(text@) is Some,
        parsed is Ok ==> Some(parsed->Ok_0@) == parsed_version_spec(text@),
{
    Ok(match proto_pdk_api::VersionSpec::parse(text)? {
        proto_pdk_api::VersionSpec::Canary => VersionSpec::Canary,
        proto_pdk_api::VersionSpec::Alias(a) => VersionSpec::Alias(a.to_string()),
        proto_pdk_api::VersionSpec::Version(v) => VersionSpec::Version(
            Version { major: v.major, minor: v.minor, patch: v.patch, text: v.to_string() },
        ),
    })
}

/// Calls `version_spec::UnresolvedVersionSpec::parse`. The result is taken to
/// depend on the text alone; an alias comes back by its name, a range by its
/// printed form, a requirement by its major number and printed form, a
/// version by its numbers and printed form.
#[verifier::external_body]
fn unresolved_spec_from_text(text: &str) -> (parsed: Result<
    UnresolvedVersionSpec,
    proto_pdk_api::SpecError,
>)
    ensures
        parsed is Ok <==> parsed_unresolved_spec(text@) is Some,
        parsed is Ok ==> Some(parsed->Ok_0@) == parsed_unresolved_spec(text@),
{
    Ok(match proto_pdk_api::UnresolvedVersionSpec::parse(text)? {
        proto_pdk_api::UnresolvedVersionSpec::Canary => UnresolvedVersionSpec::Canary,
        proto_pdk_api::UnresolvedVersionSpec::Alias(a) => UnresolvedVersionSpec::Alias(a.to_string()),
        proto_pdk_api::UnresolvedVersionSpec::Range(r) => UnresolvedVersionSpec::Range(r.to_string()),
        proto_pdk_api::UnresolvedVersionSpec::Requirement(r) => UnresolvedVersionSpec::Requirement(
            Requirement { major: r.major, text: r.to_string() },
        ),
        proto_pdk_api::UnresolvedVersionSpec::Version(v) => UnresolvedVersionSpec::Version(
            Version { major: v.major, minor: v.minor, patch: v.patch, text: v.to_string() },
        ),
    })
}

impl Version {
    /// Reads a version from its text.
    pub fn parse(text: &str) -> (parsed: Result<Version, InvalidVersion>)
        ensures
            match parsed_version(text@) {
                Some(version) => parsed is Ok && parsed->Ok_0@ == version,
                None => parsed is Err && parsed->Err_0.text@ == text@,
            },
    {
        match version_from_text(text) {
            Ok(version) => Ok(version),
            Err(_) => Err(InvalidVersion { text: text.to_owned() }),
        }
    }

    /// The printed form of the version.
    pub fn to_string(&self) -> (text: String)
        ensures
            text@ == self@.text,
    {
        self.text.clone()
    }
}

impl VersionSpec {
    /// Reads a resolved specification from its text.
    pub fn parse(text: &str) -> (parsed: Result<VersionSpec, InvalidVersion>)
        ensures
            match parsed_version_spec(text@) {
                Some(spec) => parsed is Ok && parsed->Ok_0@ == spec,
                None => parsed is Err && parsed->Err_0.text@ == text@,
            },
    {
        match version_spec_from_text(text) {
            Ok(spec) => Ok(spec),
            Err(_) => Err(InvalidVersion { text: text.to_owned() }),
        }
    }

    /// Whether the canary build is asked for.
    pub fn is_canary(&self) -> (canary: bool)
        ensures
            canary == asks_canary(self@),
    {
        match self {
            VersionSpec::Canary => true,
            VersionSpec::Alias(alias) => str_eq(alias.as_str(), "canary"),
            VersionSpec::Version(_) => false,
        }
    }

    /// The same specification, as one that is still to be resolved.
    pub fn to_unresolved_spec(&self) -> (spec: UnresolvedVersionSpec)
        ensures
            spec@ == unresolved_of(self@),
    {
        match self {
            VersionSpec::Canary => UnresolvedVersionSpec::Canary,
            VersionSpec::Alias(alias) => UnresolvedVersionSpec::Alias(alias.clone()),
            VersionSpec::Version(version) => UnresolvedVersionSpec::Version(version.clone()),
        }
    }

    /// The printed form of the specification.
    pub fn to_string(&self) -> (text: String)
        ensures
            text@ == text_of(self@),
    {
        match self {
            VersionSpec::Canary => "canary".to_owned(),
            VersionSpec::Alias(alias) => alias.clone(),
            VersionSpec::Version(version) => version.text.clone(),
        }
    }
}

impl UnresolvedVersionSpec {
    /// Reads an unresolved specification from its text.
    pub fn parse(text: &str) -> (parsed: Result<UnresolvedVersionSpec, InvalidVersion>)
        ensures
            match parsed_unresolved_spec(text@) {
                Some(spec) => parsed is Ok && parsed->Ok_0@ == spec,
                None => parsed is Err && parsed->Err_0.text@ == text@,
            },
    {
        match unresolved_spec_from_text(text) {
            Ok(spec) => Ok(spec),
            Err(_) => Err(InvalidVersion { text: text.to_owned() }),
        }
    }

    /// Whether the specification is the alias `name`.
    pub open spec fn spec_is_alias(self, name: Seq<char>) -> bool {
        match self {
            UnresolvedVersionSpec::Alias(alias) => alias@ == name,
            _ => false,
        }
    }

    /// Whether the specification is the alias `name`.
    pub fn is_alias(&self, name: &str) -> (same: bool)
        ensures
            same == self.spec_is_alias(name@),
    {
        match self {
            UnresolvedVersionSpec::Alias(alias) => str_eq(alias.as_str(), name),
            _ => false,
        }
    }
}

/// What reading an optional text gives: nothing where there is no text, else
/// the text as a specification, or the text itself where it is none.
pub open spec fn reads_as(
    text: Option<Seq<char>>,
    read: Result<Option<UnresolvedVersionSpec>, InvalidVersion>,
) -> bool {
    match text {
        None => read is Ok && read->Ok_0 is None,
        Some(text) => match parsed_unresolved_spec(text) {
            Some(spec) => read is Ok && read->Ok_0 is Some && read->Ok_0->Some_0@ == spec,
            None => read is Err && read->Err_0.text@ == text,
        },
    }
}

/// Reads a specification from a text, if there is one.
pub fn read_requested(text: Option<String>) -> (read: Result<
    Option<UnresolvedVersionSpec>,
    InvalidVersion,
>)
    ensures
        reads_as(
            match text {
                Some(text) => Some(text@),
                None => None,
            },
            read,
        ),
{
    match text {
        None => Ok(None),
        Some(text) => {
            let spec = UnresolvedVersionSpec::parse(text.as_str())?;
            Ok(Some(spec))
        },
    }
}

} // verus!
