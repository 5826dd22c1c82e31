//! The provider backed by the system's package cache.

use vstd::prelude::*;
use crate::dependency::Dependency;
use crate::dependency::DependencyView;
use crate::dependency::package_of;
use crate::dependency::parsed_url;
use crate::error::Error;
use crate::error::ErrorView;
use crate::error::custom;

verus! {

/// The name of the provider.
pub const APT: &'static str = "apt";

/// The provider of packages from the system's package cache.
#[derive(Debug, PartialEq)]
pub struct APTProvider {
    name: &'static str,
}

/// A package as the cache lists it: its name and its versions, in the
/// cache's order.
#[derive(Debug, PartialEq)]
pub struct CachedPackage {
    pub name: String,
    pub versions: Vec<String>,
}

/// The dependencies that stand for the versions of a package of the given
/// provider.
pub open spec fn candidates(
    provider: Seq<char>,
    package: Seq<char>,
    versions: Seq<Seq<char>>,
) -> Seq<DependencyView> {
    versions.map_values(
        |v: Seq<char>|
            DependencyView {
                purl: None,
                provider: Some(provider),
                package: Some(package),
                version: Some(v),
            },
    )
}

/// The model of the result of a search.
pub open spec fn search_result(r: Result<Vec<Dependency>, Error>) -> Result<
    Seq<DependencyView>,
    ErrorView,
> {
    match r {
        Ok(v) => Ok(v.deep_view()),
        Err(e) => Err(e@),
    }
}

impl APTProvider {
    /// The provider.
    pub fn new() -> (p: APTProvider)
        ensures
            p.provider_name() == APT@,
    {
        APTProvider { name: APT }
    }

    /// The name of the provider, as dependencies give it.
    pub closed spec fn provider_name(&self) -> Seq<char> {
        self.name@
    }

    /// The name of the provider.
    pub fn name(&self) -> (n: String)
        ensures
            n@ == self.provider_name(),
    {
        self.name.to_owned()
    }

    /// What a search for a dependency comes to, given what the cache lists
    /// under the name of the dependency's package: one dependency for each
    /// version of the package, in the cache's order. A dependency without a
    /// package fails with the reason, whatever the cache lists; one that the
    /// cache does not list is an error.
    pub fn search(&self, dependency: &Dependency, found: Option<CachedPackage>) -> (r: Result<
        Vec<Dependency>,
        Error,
    >)
        ensures
            search_result(r) == (match package_of(dependency@.package, parsed_url(dependency@)) {
                Err(e) => Err(e),
                Ok(_) => match found {
                    Some(package) => Ok(
                        candidates(
                            self.provider_name(),
                            package.name@,
                            package.versions.deep_view(),
                        ),
                    ),
                    None => Err(custom("No packages available"@)),
                },
            }),
    {
        match dependency.package() {
            Ok(_) => {},
            Err(e) => {
                return Err(e);
            },
        }
        match found {
            Some(package) => {
                let mut items: Vec<Dependency> = Vec::new();
                let mut i: usize = 0;
                let ghost all = candidates(
                    self.provider_name(),
                    package.name@,
                    package.versions.deep_view(),
                );
                assert(items.deep_view() =~= all.take(0));
                while i < package.versions.len()
                    invariant
                        0 <= i <= package.versions.len(),
                        all == candidates(
                            self.provider_name(),
                            package.name@,
                            package.versions.deep_view(),
                        ),
                        items.deep_view() == all.take(i as int),
                    decreases package.versions.len() - i,
                {
                    let ghost before = items.deep_view();
                    let item: Dependency = Dependency::new(
                        self.name,
                        package.name.as_str(),
                        package.versions[i].as_str(),
                    );
                    proof {
                        let versions = package.versions.deep_view();
                        assert(versions[i as int] == package.versions@[i as int]@);
                        assert(item@ == all[i as int]);
                    }
                    items.push(item);
                    assert(items.deep_view() =~= before.push(all[i as int]));
                    i = i + 1;
                    assert(items.deep_view() =~= all.take(i as int));
                }
                assert(all.take(i as int) =~= all);
                Ok(items)
            },
            None => Err(Error::new("No packages available")),
        }
    }
}

} // verus!
