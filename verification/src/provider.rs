//! Providers of dependencies: what a package ecosystem offers to a
//! container, and how a list of dependencies is resolved against one.

use vstd::prelude::*;
use crate::dependency::Dependency;
use crate::dependency::DependencyView;
use crate::dependency::parsed_url;
use crate::dependency::provider_of;
use crate::error::Error;
use crate::error::ErrorView;
use crate::error::ErrorKindView;

verus! {

/// What a provider knows of one package.
pub trait DependencyInfo {
    /// The name of the package.
    fn name(&self) -> String;

    /// What the package is.
    fn description(&self) -> String;

    /// The version of the package.
    fn version(&self) -> String;

    /// The name of the provider that knows the package.
    fn provider(&self) -> String;
}

/// A package ecosystem that can look for dependencies and install them.
pub trait DependencyProvider {
    /// What the provider knows of one package.
    type Info: DependencyInfo;

    /// The name of the provider, as dependencies give it.
    fn name(&self) -> String;

    /// The best matches for a dependency. That nothing matches is an error.
    fn search(&self, dependency: &Dependency) -> Result<Vec<Dependency>, Error>;

    /// What is known of a dependency. One that does not exist may be an
    /// error.
    fn info(&self, dependency: &Dependency) -> Result<Self::Info, Error>;

    /// Installs a dependency. One that does not exist is an error.
    fn install(&self, dependency: &Dependency) -> Result<(), Error>;
}

/// Why a provider is not asked for a dependency, if it is not: the
/// dependency has no provider, or another one.
pub open spec fn refusal(d: DependencyView, provider: Seq<char>) -> Option<ErrorView> {
    match provider_of(d.provider, parsed_url(d)) {
        Ok(wanted) => if wanted == provider {
            None
        } else {
            Some(
                ErrorView {
                    kind: ErrorKindView::Custom,
                    msg: "No provider for the dependency"@,
                },
            )
        },
        Err(e) => Some(e),
    }
}

/// The model of an error that may be absent.
pub open spec fn opt_error(e: Option<Error>) -> Option<ErrorView> {
    match e {
        Some(e) => Some(e@),
        None => None,
    }
}

/// Why the provider named `provider` is not asked for a dependency, if it is
/// not.
pub fn refuse(dependency: &Dependency, provider: &str) -> (r: Option<Error>)
    ensures
        opt_error(r) == refusal(dependency@, provider@),
{
    match dependency.provider() {
        Ok(wanted) => {
            if wanted == provider.to_owned() {
                None
            } else {
                Some(Error::new("No provider for the dependency"))
            }
        },
        Err(e) => Some(e),
    }
}

/// What came of resolving a list of dependencies against a provider.
#[derive(Debug, PartialEq)]
pub struct Resolution {
    /// The name that the provider gave.
    pub provider: String,
    /// How it went for each dependency, in the order of the list.
    pub outcomes: Vec<Result<(), Error>>,
}

/// Resolves dependencies against a provider, one after the other, and says
/// for each how it went. The provider is asked for its name once. A
/// dependency of another provider, or of none, is not handed to the provider
/// and fails with the reason; every other one is handed to the provider to
/// install, and what the provider says stands. No failure stops the others.
pub fn resolve_dependencies<P: DependencyProvider>(provider: &P, dependencies: &Vec<Dependency>) -> (r:
    Resolution)
    ensures
        call_ensures(P::name, (provider,), r.provider),
        r.outcomes.len() == dependencies.len(),
        forall|i: int|
            0 <= i < dependencies.len() ==> (#[trigger] refusal(dependencies[i]@, r.provider@)
                matches Some(e) ==> r.outcomes[i] is Err && r.outcomes[i]->Err_0@ == e),
        forall|i: int|
            0 <= i < dependencies.len() ==> (#[trigger] refusal(dependencies[i]@, r.provider@)
                is None ==> call_ensures(P::install, (provider, &dependencies[i]), r.outcomes[i])),
{
    let name: String = provider.name();
    let mut outcomes: Vec<Result<(), Error>> = Vec::new();
    let mut i: usize = 0;
    while i < dependencies.len()
        invariant
            0 <= i <= dependencies.len(),
            outcomes.len() == i,
            forall|k: int|
                0 <= k < i ==> (#[trigger] refusal(dependencies[k]@, name@) matches Some(e)
                    ==> outcomes[k] is Err && outcomes[k]->Err_0@ == e),
            forall|k: int|
                0 <= k < i ==> (#[trigger] refusal(dependencies[k]@, name@) is None
                    ==> call_ensures(P::install, (provider, &dependencies[k]), outcomes[k])),
        decreases dependencies.len() - i,
    {
        let outcome: Result<(), Error> = match refuse(&dependencies[i], name.as_str()) {
            Some(e) => Err(e),
            None => provider.install(&dependencies[i]),
        };
        outcomes.push(outcome);
        i = i + 1;
    }
    Resolution { provider: name, outcomes }
}

} // verus!
