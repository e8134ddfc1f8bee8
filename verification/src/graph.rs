//! The in-memory model of the workspace: its packages, the dependency edges
//! pointing at the aggregation package, and package selection.
//!
//! The snapshot is built once per invocation from external metadata and is
//! read-only for the lifetime of the command; every planning decision of the
//! crate is a pure function of it.

use vstd::prelude::*;

verus! {

/// One workspace package, as far as the reconciliation protocol reads it:
/// its name and whether its manifest currently declares a dependency edge to
/// the aggregation package.
pub struct PackageInfo {
    /// Package name, unique within the workspace.
    pub name: String,
    /// Whether the package currently depends on the aggregation package.
    pub has_edge: bool,
}

/// Immutable snapshot of the workspace packages. A package is identified by
/// its index into `packages`; identifiers are never reused across rebuilds
/// because the snapshot itself is rebuilt from scratch each invocation.
pub struct WorkspaceGraph {
    /// All workspace packages.
    pub packages: Vec<PackageInfo>,
    /// Index of the aggregation ("workspace-hack") package itself.
    pub aggregation_index: usize,
}

impl WorkspaceGraph {
    /// Well-formedness: the aggregation package is a real workspace package,
    /// package names are unique, and the aggregation package never carries an
    /// edge to itself.
    pub open spec fn wf(self) -> bool {
        &&& self.aggregation_index < self.packages@.len()
        &&& forall|i: int, j: int|
            0 <= i < j < self.packages@.len() ==> self.packages@[i].name@ != self.packages@[j].name@
        &&& !self.packages@[self.aggregation_index as int].has_edge
    }

    /// Whether some workspace package is named `name`.
    pub open spec fn spec_has_name(self, name: Seq<char>) -> bool {
        exists|i: int| 0 <= i < self.packages@.len() && self.packages@[i].name@ == name
    }

    /// Number of workspace packages.
    pub fn len(&self) -> (n: usize)
        ensures
            n == self.packages@.len(),
    {
        self.packages.len()
    }

    /// Looks a package name up, returning its identifier.
    pub fn find_name(&self, name: &String) -> (found: Option<usize>)
        ensures
            match found {
                Some(i) => i < self.packages@.len() && self.packages@[i as int].name@ == name@,
                None => !self.spec_has_name(name@),
            },
    {
        let mut i: usize = 0;
        while i < self.packages.len()
            invariant
                i <= self.packages@.len(),
                forall|j: int| 0 <= j < i ==> self.packages@[j].name@ != name@,
            decreases self.packages@.len() - i,
        {
            if self.packages[i].name == *name {
                return Some(i);
            }
            i += 1;
        }
        None
    }
}

/// A set of package identifiers drawn from one [`WorkspaceGraph`], stored as
/// a membership table of the same length as the package list. Every member
/// is a real, current workspace package by construction.
pub struct PackageSelection {
    /// `member[i]` says whether package `i` is selected.
    pub member: Vec<bool>,
}

impl PackageSelection {
    /// Well-formedness against the graph the selection was drawn from.
    pub open spec fn wf(self, graph: WorkspaceGraph) -> bool {
        self.member@.len() == graph.packages@.len()
    }

    /// Whether package `i` is selected.
    pub open spec fn spec_contains(self, i: int) -> bool {
        0 <= i < self.member@.len() && self.member@[i]
    }

    /// Whether package `i` is selected.
    pub fn contains(&self, i: usize) -> (sel: bool)
        requires
            i < self.member@.len(),
        ensures
            sel == self.spec_contains(i as int),
    {
        self.member[i]
    }
}

/// Whether every requested name resolves to a workspace package.
pub open spec fn all_names_known(names: Seq<Seq<char>>, graph: WorkspaceGraph) -> bool {
    forall|k: int| 0 <= k < names.len() ==> graph.spec_has_name(#[trigger] names[k])
}

/// Turns a user-specified list of package names into a concrete selection.
///
/// An empty `names` list selects every workspace package. A non-empty list
/// selects exactly the named packages; the first name that does not resolve
/// against the graph fails the whole selection with `UnknownPackage`, so the
/// result is deterministic and reproducible for the same input.
pub fn select(names: &Vec<String>, graph: &WorkspaceGraph) -> (result: Result<
    PackageSelection,
    crate::outcome::CommandError,
>)
    ensures
        match result {
            Ok(sel) => {
                &&& sel.wf(*graph)
                &&& all_names_known(names.deep_view(), *graph)
                &&& names@.len() == 0 ==> forall|i: int|
                    0 <= i < graph.packages@.len() ==> sel.spec_contains(i)
                &&& names@.len() > 0 ==> forall|i: int|
                    0 <= i < graph.packages@.len() ==> (sel.spec_contains(i) <==> names.deep_view()
                        .contains(graph.packages@[i].name@))
            },
            Err(err) => {
                &&& err matches crate::outcome::CommandError::UnknownPackage { name } && exists|
                    k: int,
                |
                    {
                        &&& 0 <= k < names@.len()
                        &&& name@ == names.deep_view()[k]
                        &&& !graph.spec_has_name(names.deep_view()[k])
                        &&& forall|j: int|
                            0 <= j < k ==> graph.spec_has_name(#[trigger] names.deep_view()[j])
                    }
                &&& !all_names_known(names.deep_view(), *graph)
            },
        },
{
    let ghost name_views = names.deep_view();
    let n = graph.packages.len();
    if names.len() == 0 {
        let mut member: Vec<bool> = Vec::new();
        let mut i: usize = 0;
        while i < n
            invariant
                i <= n,
                n == graph.packages@.len(),
                member@.len() == i,
                forall|j: int| 0 <= j < i ==> member@[j],
            decreases n - i,
        {
            member.push(true);
            i += 1;
        }
        return Ok(PackageSelection { member });
    }

    // Resolve every name first, failing on the first unknown one.
    let mut k: usize = 0;
    while k < names.len()
        invariant
            k <= names@.len(),
            name_views == names.deep_view(),
            forall|j: int| 0 <= j < k ==> graph.spec_has_name(#[trigger] name_views[j]),
        decreases names@.len() - k,
    {
        if graph.find_name(&names[k]).is_none() {
            assert(name_views[k as int] == names@[k as int]@);
            return Err(
                crate::outcome::CommandError::UnknownPackage { name: names[k].clone() },
            );
        }
        assert(graph.spec_has_name(name_views[k as int]));
        k += 1;
    }

    // Mark exactly the packages whose name was requested.
    let mut member: Vec<bool> = Vec::new();
    let mut i: usize = 0;
    while i < n
        invariant
            i <= n,
            n == graph.packages@.len(),
            member@.len() == i,
            name_views == names.deep_view(),
            forall|j: int|
                0 <= j < i ==> (member@[j] <==> name_views.contains(
                    #[trigger] graph.packages@[j].name@,
                )),
        decreases n - i,
    {
        let mut found = false;
        let mut k2: usize = 0;
        while k2 < names.len()
            invariant
                k2 <= names@.len(),
                i < graph.packages@.len(),
                name_views == names.deep_view(),
                found <==> exists|j: int|
                    0 <= j < k2 && name_views[j] == graph.packages@[i as int].name@,
            decreases names@.len() - k2,
        {
            if names[k2] == graph.packages[i].name {
                assert(name_views[k2 as int] == graph.packages@[i as int].name@);
                found = true;
            }
            k2 += 1;
        }
        assert(found <==> name_views.contains(graph.packages@[i as int].name@));
        member.push(found);
        i += 1;
    }
    Ok(PackageSelection { member })
}

} // verus!
