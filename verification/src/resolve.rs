//! The dependency resolver: a requested project and those of its
//! dependencies that fit the target game version.
//!
//! Only the dependencies of the requested project itself are looked at: the
//! dependencies of a dependency are not followed.

use crate::compat::project_compatible;
use crate::error::{failure_views, Failure, FailureView};
use crate::model::{project_views, Dependencies, ModrinthProject, ModrinthProjectView};
use vstd::prelude::*;
use vstd::string::StringExecFns;

verus! {

/// The dependencies that stay: those that list the game version `target`,
/// in the order in which the registry gave them.
pub open spec fn kept_dependencies(
    dependencies: Seq<ModrinthProjectView>,
    target: Seq<char>,
) -> Seq<ModrinthProjectView> {
    dependencies.filter(|d: ModrinthProjectView| project_compatible(d, target))
}

/// The dependencies that are dropped: those that do not list `target`.
pub open spec fn dropped_dependencies(
    dependencies: Seq<ModrinthProjectView>,
    target: Seq<char>,
) -> Seq<ModrinthProjectView> {
    dependencies.filter(|d: ModrinthProjectView| !project_compatible(d, target))
}

/// The projects to download for a request: the requested project first, then
/// the dependencies that stay.
pub open spec fn resolved_projects(
    project: ModrinthProjectView,
    dependencies: Seq<ModrinthProjectView>,
    target: Seq<char>,
) -> Seq<ModrinthProjectView> {
    seq![project] + kept_dependencies(dependencies, target)
}

/// The warning for a dropped dependency.
pub open spec fn dropped_warning(
    dependency: ModrinthProjectView,
    target: Seq<char>,
) -> FailureView {
    FailureView::IncompatibleVersion { id: dependency.id, target }
}

/// The warnings for the dropped dependencies, in their order.
pub open spec fn dropped_warnings(
    dependencies: Seq<ModrinthProjectView>,
    target: Seq<char>,
) -> Seq<FailureView> {
    dropped_dependencies(dependencies, target).map_values(
        |d: ModrinthProjectView| dropped_warning(d, target),
    )
}

/// What a resolution gives: the projects to download, and a warning for each
/// dependency that was dropped.
#[derive(Debug, Clone, PartialEq)]
pub struct Resolution {
    pub projects: Vec<ModrinthProject>,
    pub warnings: Vec<Failure>,
}

/// A project without dependencies resolves to itself alone, with no warning.
pub proof fn lemma_resolve_without_dependencies(project: ModrinthProjectView, target: Seq<char>)
    ensures
        resolved_projects(project, Seq::empty(), target) == seq![project],
        dropped_warnings(Seq::empty(), target) == Seq::<FailureView>::empty(),
{
    reveal(Seq::filter);
    assert(kept_dependencies(Seq::empty(), target) =~= Seq::empty());
    assert(dropped_dependencies(Seq::empty(), target) =~= Seq::empty());
    assert(resolved_projects(project, Seq::empty(), target) =~= seq![project]);
    assert(dropped_warnings(Seq::empty(), target) =~= Seq::<FailureView>::empty());
}

/// A dependency that does not fit the target is dropped and the others stay:
/// the requested project comes first, every project after it is a
/// dependency that lists the target, every dependency that lists the target
/// is among them, and none that does not list it is.
pub proof fn lemma_resolve_keeps_compatible_only(
    project: ModrinthProjectView,
    dependencies: Seq<ModrinthProjectView>,
    target: Seq<char>,
)
    ensures
        resolved_projects(project, dependencies, target).len() >= 1,
        resolved_projects(project, dependencies, target)[0] == project,
        forall|k: int|
            1 <= k < resolved_projects(project, dependencies, target).len() ==> {
                &&& project_compatible(
                    #[trigger] resolved_projects(project, dependencies, target)[k],
                    target,
                )
                &&& dependencies.contains(resolved_projects(project, dependencies, target)[k])
            },
        forall|i: int|
            0 <= i < dependencies.len() && project_compatible(#[trigger] dependencies[i], target)
                ==> kept_dependencies(dependencies, target).contains(dependencies[i]),
        forall|i: int|
            0 <= i < dependencies.len() && !project_compatible(#[trigger] dependencies[i], target)
                ==> !kept_dependencies(dependencies, target).contains(dependencies[i]),
{
    let pred = |d: ModrinthProjectView| project_compatible(d, target);
    let kept = kept_dependencies(dependencies, target);
    let all = resolved_projects(project, dependencies, target);
    dependencies.lemma_filter_len(pred);
    assert forall|k: int| 1 <= k < all.len() implies project_compatible(#[trigger] all[k], target)
        && dependencies.contains(all[k]) by {
        assert(all[k] == kept[k - 1]);
        dependencies.lemma_filter_pred(pred, k - 1);
        lemma_filter_is_part(dependencies, pred, k - 1);
    }
    assert forall|i: int|
        0 <= i < dependencies.len() && project_compatible(
            #[trigger] dependencies[i],
            target,
        ) implies kept.contains(dependencies[i]) by {
        dependencies.lemma_filter_contains(pred, i);
    }
    assert forall|i: int|
        0 <= i < dependencies.len() && !project_compatible(
            #[trigger] dependencies[i],
            target,
        ) implies !kept.contains(dependencies[i]) by {
        if kept.contains(dependencies[i]) {
            let k = choose|k: int| 0 <= k < kept.len() && kept[k] == dependencies[i];
            dependencies.lemma_filter_pred(pred, k);
        }
    }
}

/// Each item of a filtered sequence is an item of the sequence.
proof fn lemma_filter_is_part<A>(s: Seq<A>, pred: spec_fn(A) -> bool, k: int)
    requires
        0 <= k < s.filter(pred).len(),
    ensures
        s.contains(s.filter(pred)[k]),
    decreases s.len(),
{
    reveal(Seq::filter);
    if s.len() > 0 {
        let rest = s.drop_last().filter(pred);
        if k < rest.len() {
            lemma_filter_is_part(s.drop_last(), pred, k);
            let i = choose|i: int| 0 <= i < s.drop_last().len() && s.drop_last()[i] == rest[k];
            assert(s[i] == rest[k]);
        } else {
            assert(s[s.len() - 1] == s.last());
        }
    }
}

/// Taking one more dependency into account: it joins the kept ones at the
/// end if it lists the target, and the dropped ones if it does not.
proof fn lemma_resolve_step(dependencies: Seq<ModrinthProjectView>, target: Seq<char>, i: int)
    requires
        0 <= i < dependencies.len(),
    ensures
        project_compatible(dependencies[i], target) ==> {
            &&& kept_dependencies(dependencies.take(i + 1), target) == kept_dependencies(
                dependencies.take(i),
                target,
            ).push(dependencies[i])
            &&& dropped_warnings(dependencies.take(i + 1), target) == dropped_warnings(
                dependencies.take(i),
                target,
            )
        },
        !project_compatible(dependencies[i], target) ==> {
            &&& kept_dependencies(dependencies.take(i + 1), target) == kept_dependencies(
                dependencies.take(i),
                target,
            )
            &&& dropped_warnings(dependencies.take(i + 1), target) == dropped_warnings(
                dependencies.take(i),
                target,
            ).push(dropped_warning(dependencies[i], target))
        },
{
    reveal(Seq::filter);
    assert(dependencies.take(i + 1).drop_last() =~= dependencies.take(i));
    assert(dependencies.take(i + 1).last() == dependencies[i]);
    if !project_compatible(dependencies[i], target) {
        assert(dropped_warnings(dependencies.take(i + 1), target) =~= dropped_warnings(
            dependencies.take(i),
            target,
        ).push(dropped_warning(dependencies[i], target)));
    }
}

/// Resolves a requested project: keeps it, and of the dependency projects in
/// `bundle` those that list the game version `target`. Each one dropped
/// leaves a warning that names it and the target.
pub fn resolve(project: ModrinthProject, bundle: Dependencies, target: &str) -> (resolution:
    Resolution)
    ensures
        project_views(resolution.projects@) == resolved_projects(
            project@,
            project_views(bundle.projects@),
            target@,
        ),
        failure_views(resolution.warnings@) == dropped_warnings(
            project_views(bundle.projects@),
            target@,
        ),
{
    let ghost root = project@;
    let ghost all = project_views(bundle.projects@);
    let mut projects: Vec<ModrinthProject> = Vec::new();
    let mut warnings: Vec<Failure> = Vec::new();
    projects.push(project);
    let dependencies = bundle.projects;
    proof {
        lemma_resolve_without_dependencies(root, target@);
        assert(all.take(0) =~= Seq::empty());
        assert(project_views(projects@) =~= seq![root]);
        assert(failure_views(warnings@) =~= Seq::empty());
    }
    for dependency in it: dependencies
        invariant
            all == project_views(it.seq()),
            project_views(projects@) == resolved_projects(
                root,
                all.take(it.index() as int),
                target@,
            ),
            failure_views(warnings@) == dropped_warnings(all.take(it.index() as int), target@),
    {
        let ghost i = it.index() as int;
        let ghost before = projects@;
        let ghost warned = warnings@;
        proof {
            lemma_resolve_step(all, target@, i);
            assert(all[i] == dependency@);
        }
        if dependency.is_compatible(target) {
            projects.push(dependency);
            assert(project_views(projects@) =~= project_views(before).push(all[i]));
            assert(project_views(projects@) =~= resolved_projects(root, all.take(i + 1), target@));
        } else {
            let warning = Failure::IncompatibleVersion {
                id: dependency.id.clone(),
                target: String::from_str(target),
            };
            assert(warning@ == dropped_warning(all[i], target@));
            warnings.push(warning);
            assert(failure_views(warnings@) =~= failure_views(warned).push(
                dropped_warning(all[i], target@),
            ));
        }
    }
    proof {
        assert(all.take(all.len() as int) =~= all);
    }
    Resolution { projects, warnings }
}

} // verus!
