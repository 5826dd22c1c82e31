//! The configuration of a development environment.

use vstd::prelude::*;
use crate::dependency::Dependency;
use crate::dependency::DependencyView;

verus! {

/// The image that a container runs on.
#[derive(Debug, PartialEq)]
pub struct Image {
    /// The directory that is the lower layer of the overlay.
    pub path: String,
}

/// What a development environment is made of.
#[derive(Debug, PartialEq)]
pub struct Configuration {
    /// The directory that holds the container's layout.
    pub dest: Option<String>,
    /// The image; the root directory where none is given.
    pub image: Option<Image>,
    /// The name of the environment variable that holds the shell.
    pub shell: Option<String>,
    /// What the container depends on, in order.
    pub dependencies: Vec<Dependency>,
}

/// Mathematical model of a [`Configuration`].
pub struct ConfigurationView {
    pub dest: Option<Seq<char>>,
    pub image: Option<Seq<char>>,
    pub shell: Option<Seq<char>>,
    pub dependencies: Seq<DependencyView>,
}

impl View for Configuration {
    type V = ConfigurationView;

    open spec fn view(&self) -> ConfigurationView {
        ConfigurationView {
            dest: self.dest.deep_view(),
            image: match self.image {
                Some(image) => Some(image.path@),
                None => None,
            },
            shell: self.shell.deep_view(),
            dependencies: self.dependencies.deep_view(),
        }
    }
}

} // verus!
