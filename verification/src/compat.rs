//! The compatibility filter: which projects and releases fit the target game
//! version and mod loader.
//!
//! A game version or a loader fits when the record lists exactly that text:
//! nothing is normalised and no version range is read.

use crate::error::{Failure, FailureView};
use crate::model::{
    Dependency, DependencyView, ModrinthProject, ModrinthProjectView, ProjectVersion,
    ProjectVersionView,
};
use crate::text::{list_holds, same_text};
use vstd::prelude::*;
use vstd::string::StringExecFns;

verus! {

/// The list of game versions names `target`.
pub open spec fn compatible_with(game_versions: Seq<Seq<char>>, target: Seq<char>) -> bool {
    game_versions.contains(target)
}

/// The list of loaders names `loader`.
pub open spec fn loader_supported(loaders: Seq<Seq<char>>, loader: Seq<char>) -> bool {
    loaders.contains(loader)
}

/// A release is eligible when it lists both the target game version and the
/// target loader.
pub open spec fn eligible(
    version: ProjectVersionView,
    target: Seq<char>,
    loader: Seq<char>,
) -> bool {
    compatible_with(version.game_versions, target) && loader_supported(version.loaders, loader)
}

/// A project fits the target when it lists the target game version.
pub open spec fn project_compatible(project: ModrinthProjectView, target: Seq<char>) -> bool {
    compatible_with(project.game_versions, target)
}

/// The name that a release is reported under: its id, or nothing where it
/// has none.
pub open spec fn release_name(version: ProjectVersionView) -> Seq<char> {
    match version.id {
        Some(id) => id,
        None => Seq::empty(),
    }
}

/// Why a release is no candidate: it does not list the game version, or it
/// lists the game version and not the loader. `None` for an eligible one.
pub open spec fn excluded_for(
    version: ProjectVersionView,
    target: Seq<char>,
    loader: Seq<char>,
) -> Option<FailureView> {
    if !compatible_with(version.game_versions, target) {
        Some(FailureView::IncompatibleVersion { id: release_name(version), target })
    } else if !loader_supported(version.loaders, loader) {
        Some(FailureView::IncompatibleLoader { id: release_name(version), target: loader })
    } else {
        None
    }
}

/// A release is excluded for a reason exactly when it is not eligible.
pub proof fn lemma_excluded_iff_not_eligible(
    version: ProjectVersionView,
    target: Seq<char>,
    loader: Seq<char>,
)
    ensures
        excluded_for(version, target, loader) is None <==> eligible(version, target, loader),
{
}

impl ProjectVersion {
    /// Whether this release lists the game version `target`.
    pub fn is_compatible(&self, target: &str) -> (fits: bool)
        ensures
            fits == compatible_with(self@.game_versions, target@),
    {
        list_holds(&self.game_versions, target)
    }

    /// Whether this release lists the loader `loader`.
    pub fn supports_loader(&self, loader: &str) -> (fits: bool)
        ensures
            fits == loader_supported(self@.loaders, loader@),
    {
        list_holds(&self.loaders, loader)
    }

    /// Whether this release lists both the game version `target` and the
    /// loader `loader`.
    pub fn is_eligible(&self, target: &str, loader: &str) -> (fits: bool)
        ensures
            fits == eligible(self@, target@, loader@),
    {
        self.is_compatible(target) && self.supports_loader(loader)
    }

    /// Why this release is no candidate for `target` and `loader`, or `None`
    /// if it is one.
    pub fn exclusion(&self, target: &str, loader: &str) -> (reason: Option<Failure>)
        ensures
            match reason {
                Some(failure) => excluded_for(self@, target@, loader@) == Some(failure@),
                None => excluded_for(self@, target@, loader@) is None,
            },
    {
        if self.is_eligible(target, loader) {
            return None;
        }
        let id = match &self.id {
            Some(id) => id.clone(),
            None => String::new(),
        };
        if !self.is_compatible(target) {
            Some(Failure::IncompatibleVersion { id, target: String::from_str(target) })
        } else {
            Some(Failure::IncompatibleLoader { id, target: String::from_str(loader) })
        }
    }
}

/// A dependency is required when its kind is given as `required`. Only
/// required dependencies are meant to be installed with a mod.
pub open spec fn required(dependency: DependencyView) -> bool {
    dependency.dependency_type == Some("required"@)
}

impl Dependency {
    /// Whether this dependency is a required one.
    pub fn is_required(&self) -> (yes: bool)
        ensures
            yes == required(self@),
    {
        match &self.dependency_type {
            Some(kind) => same_text(kind.as_str(), "required"),
            None => false,
        }
    }
}

impl ModrinthProject {
    /// Whether this project lists the game version `target`.
    pub fn is_compatible(&self, target: &str) -> (fits: bool)
        ensures
            fits == project_compatible(self@, target@),
    {
        list_holds(&self.game_versions, target)
    }
}

} // verus!
