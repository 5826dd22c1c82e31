//! Dependency descriptors: a package named by a Package URL, by explicit
//! fields, or by both.

use vstd::prelude::*;
use std::str::FromStr;
use crate::error::Error;
use crate::error::ErrorView;
use crate::text::clone_text;
use crate::error::custom;

verus! {

/// A package that a container depends on. Each of the provider, the package
/// name and the version is given explicitly or taken from the Package URL.
#[derive(Debug, PartialEq)]
pub struct Dependency {
    pub purl: Option<String>,
    pub provider: Option<String>,
    pub package: Option<String>,
    pub version: Option<String>,
}

/// Mathematical model of a [`Dependency`].
pub struct DependencyView {
    pub purl: Option<Seq<char>>,
    pub provider: Option<Seq<char>>,
    pub package: Option<Seq<char>>,
    pub version: Option<Seq<char>>,
}

impl View for Dependency {
    type V = DependencyView;

    open spec fn view(&self) -> DependencyView {
        DependencyView {
            purl: self.purl.deep_view(),
            provider: self.provider.deep_view(),
            package: self.package.deep_view(),
            version: self.version.deep_view(),
        }
    }
}

impl DeepView for Dependency {
    type V = DependencyView;

    open spec fn deep_view(&self) -> DependencyView {
        self@
    }
}

/// What a Package URL says of a package: its type, its name and, where the
/// URL holds one, its version.
#[derive(Debug, PartialEq)]
pub struct PackageUrlParts {
    pub ty: String,
    pub name: String,
    pub version: Option<String>,
}

/// Mathematical model of [`PackageUrlParts`].
pub struct PackageUrlPartsView {
    pub ty: Seq<char>,
    pub name: Seq<char>,
    pub version: Option<Seq<char>>,
}

impl View for PackageUrlParts {
    type V = PackageUrlPartsView;

    open spec fn view(&self) -> PackageUrlPartsView {
        PackageUrlPartsView { ty: self.ty@, name: self.name@, version: self.version.deep_view() }
    }
}

impl DeepView for PackageUrlParts {
    type V = PackageUrlPartsView;

    open spec fn deep_view(&self) -> PackageUrlPartsView {
        self@
    }
}

/// What `packageurl::PackageUrl::from_str` makes of a text: the type, name
/// and version of the package, or nothing where the text is no Package URL.
pub uninterp spec fn purl_parse(text: Seq<char>) -> Option<PackageUrlPartsView>;

/// Calls `packageurl::PackageUrl::from_str` and hands out the type, the name
/// and the version of the parsed URL, or nothing where the parse fails. What
/// comes back depends on the text alone.
#[verifier::external_body]
pub(crate) fn parse_purl(text: &str) -> (r: Option<PackageUrlParts>)
    ensures
        r.deep_view() == purl_parse(text@),
{
    match packageurl::PackageUrl::from_str(text) {
        Ok(url) => Some(
            PackageUrlParts {
                ty: url.ty().to_owned(),
                name: url.name().to_owned(),
                version: url.version().map(str::to_owned),
            },
        ),
        Err(_) => None,
    }
}

/// What the Package URL of a dependency says, where it has one that parses.
pub open spec fn parsed_url(d: DependencyView) -> Option<PackageUrlPartsView> {
    match d.purl {
        Some(url) => purl_parse(url),
        None => None,
    }
}

/// The provider of a dependency: the explicit one, else the type of the URL.
pub open spec fn provider_of(
    explicit: Option<Seq<char>>,
    url: Option<PackageUrlPartsView>,
) -> Result<Seq<char>, ErrorView> {
    match (explicit, url) {
        (Some(p), _) => Ok(p),
        (None, Some(parts)) => Ok(parts.ty),
        (None, None) => Err(custom("Could not parse provider"@)),
    }
}

/// The package of a dependency: the explicit one, else the name of the URL.
pub open spec fn package_of(
    explicit: Option<Seq<char>>,
    url: Option<PackageUrlPartsView>,
) -> Result<Seq<char>, ErrorView> {
    match (explicit, url) {
        (Some(p), _) => Ok(p),
        (None, Some(parts)) => Ok(parts.name),
        (None, None) => Err(custom("Could not parse package"@)),
    }
}

/// The version of a dependency: the explicit one, else the version of the
/// URL, which is empty where the URL holds none.
pub open spec fn version_of(
    explicit: Option<Seq<char>>,
    url: Option<PackageUrlPartsView>,
) -> Result<Seq<char>, ErrorView> {
    match (explicit, url) {
        (Some(v), _) => Ok(v),
        (None, Some(parts)) => match parts.version {
            Some(v) => Ok(v),
            None => Ok(Seq::empty()),
        },
        (None, None) => Err(custom("Could not parse version"@)),
    }
}

/// The model of the result of an accessor.
pub open spec fn text_result(r: Result<String, Error>) -> Result<Seq<char>, ErrorView> {
    match r {
        Ok(s) => Ok(s@),
        Err(e) => Err(e@),
    }
}

/// The provider of a dependency with the explicit provider `explicit`, whose
/// Package URL parsed to `url`.
pub fn provider_from(explicit: &Option<String>, url: &Option<PackageUrlParts>) -> (r: Result<
    String,
    Error,
>)
    ensures
        text_result(r) == provider_of(explicit.deep_view(), url.deep_view()),
{
    match explicit {
        Some(p) => Ok(p.clone()),
        None => match url {
            Some(parts) => Ok(parts.ty.clone()),
            None => Err(Error::new("Could not parse provider")),
        },
    }
}

/// The package of a dependency with the explicit package `explicit`, whose
/// Package URL parsed to `url`.
pub fn package_from(explicit: &Option<String>, url: &Option<PackageUrlParts>) -> (r: Result<
    String,
    Error,
>)
    ensures
        text_result(r) == package_of(explicit.deep_view(), url.deep_view()),
{
    match explicit {
        Some(p) => Ok(p.clone()),
        None => match url {
            Some(parts) => Ok(parts.name.clone()),
            None => Err(Error::new("Could not parse package")),
        },
    }
}

/// The version of a dependency with the explicit version `explicit`, whose
/// Package URL parsed to `url`.
pub fn version_from(explicit: &Option<String>, url: &Option<PackageUrlParts>) -> (r: Result<
    String,
    Error,
>)
    ensures
        text_result(r) == version_of(explicit.deep_view(), url.deep_view()),
{
    match explicit {
        Some(v) => Ok(v.clone()),
        None => match url {
            Some(parts) => match &parts.version {
                Some(v) => Ok(v.clone()),
                None => Ok(String::new()),
            },
            None => Err(Error::new("Could not parse version")),
        },
    }
}

impl Clone for Dependency {
    fn clone(&self) -> (r: Dependency)
        ensures
            r@ == self@,
    {
        Dependency {
            purl: clone_text(&self.purl),
            provider: clone_text(&self.provider),
            package: clone_text(&self.package),
            version: clone_text(&self.version),
        }
    }
}

impl Dependency {
    /// A dependency with explicit fields and no Package URL.
    pub fn new(provider: &str, package: &str, version: &str) -> (d: Dependency)
        ensures
            d@ == (DependencyView {
                purl: None,
                provider: Some(provider@),
                package: Some(package@),
                version: Some(version@),
            }),
    {
        Dependency {
            purl: None,
            provider: Some(provider.to_owned()),
            package: Some(package.to_owned()),
            version: Some(version.to_owned()),
        }
    }

    /// What the Package URL of this dependency says, where it has one that
    /// parses.
    pub fn parsed_url(&self) -> (url: Option<PackageUrlParts>)
        ensures
            url.deep_view() == parsed_url(self@),
    {
        match &self.purl {
            Some(text) => parse_purl(text.as_str()),
            None => None,
        }
    }

    /// The provider: the explicit one, whatever the Package URL says; else
    /// the type of the Package URL. An error where there is neither an
    /// explicit provider nor a Package URL that parses.
    pub fn provider(&self) -> (r: Result<String, Error>)
        ensures
            text_result(r) == provider_of(self@.provider, parsed_url(self@)),
            self@.provider is Some ==> text_result(r) == Ok::<Seq<char>, ErrorView>(
                self@.provider->Some_0,
            ),
    {
        match &self.provider {
            Some(p) => Ok(p.clone()),
            None => provider_from(&self.provider, &self.parsed_url()),
        }
    }

    /// The package: the explicit one, whatever the Package URL says; else
    /// the name of the Package URL. An error where there is neither an
    /// explicit package nor a Package URL that parses.
    pub fn package(&self) -> (r: Result<String, Error>)
        ensures
            text_result(r) == package_of(self@.package, parsed_url(self@)),
            self@.package is Some ==> text_result(r) == Ok::<Seq<char>, ErrorView>(
                self@.package->Some_0,
            ),
    {
        match &self.package {
            Some(p) => Ok(p.clone()),
            None => package_from(&self.package, &self.parsed_url()),
        }
    }

    /// The version: the explicit one, whatever the Package URL says; else
    /// the version of the Package URL, empty where the URL holds none. An
    /// error where there is neither an explicit version nor a Package URL
    /// that parses.
    pub fn version(&self) -> (r: Result<String, Error>)
        ensures
            text_result(r) == version_of(self@.version, parsed_url(self@)),
            self@.version is Some ==> text_result(r) == Ok::<Seq<char>, ErrorView>(
                self@.version->Some_0,
            ),
    {
        match &self.version {
            Some(v) => Ok(v.clone()),
            None => version_from(&self.version, &self.parsed_url()),
        }
    }
}

/// An explicit field is returned as it is, whatever the Package URL: two
/// descriptors with the same explicit provider, package or version have the
/// same provider, package or version.
pub proof fn lemma_explicit_fields_win(a: DependencyView, b: DependencyView)
    ensures
        a.provider is Some && a.provider == b.provider ==> provider_of(a.provider, parsed_url(a))
            == provider_of(b.provider, parsed_url(b)) && provider_of(a.provider, parsed_url(a))
            == Ok::<Seq<char>, ErrorView>(a.provider->Some_0),
        a.package is Some && a.package == b.package ==> package_of(a.package, parsed_url(a))
            == package_of(b.package, parsed_url(b)) && package_of(a.package, parsed_url(a)) == Ok::<
            Seq<char>,
            ErrorView,
        >(a.package->Some_0),
        a.version is Some && a.version == b.version ==> version_of(a.version, parsed_url(a))
            == version_of(b.version, parsed_url(b)) && version_of(a.version, parsed_url(a)) == Ok::<
            Seq<char>,
            ErrorView,
        >(a.version->Some_0),
{
}

/// Without explicit fields the Package URL decides: where it parses, the
/// accessors return what it says; where it does not, or where there is none,
/// each accessor fails.
pub proof fn lemma_url_decides_without_explicit_fields(d: DependencyView)
    requires
        d.provider is None,
        d.package is None,
        d.version is None,
    ensures
        parsed_url(d) matches Some(parts) ==> {
            &&& provider_of(d.provider, parsed_url(d)) == Ok::<Seq<char>, ErrorView>(parts.ty)
            &&& package_of(d.package, parsed_url(d)) == Ok::<Seq<char>, ErrorView>(parts.name)
            &&& version_of(d.version, parsed_url(d)) == Ok::<Seq<char>, ErrorView>(
                match parts.version {
                    Some(v) => v,
                    None => Seq::empty(),
                },
            )
        },
        parsed_url(d) is None ==> {
            &&& provider_of(d.provider, parsed_url(d)) is Err
            &&& package_of(d.package, parsed_url(d)) is Err
            &&& version_of(d.version, parsed_url(d)) is Err
        },
{
}

} // verus!
