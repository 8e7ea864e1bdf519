//! Deciding whether a discovered unit can be deployed: it needs an executable
//! target and every dependency of the runtime.

use vstd::prelude::*;
use vstd::string::*;
use crate::discovery::RustCrate;
use crate::text::same_text;

verus! {

/// One build target of a package: its name and its kinds, such as `bin` or
/// `lib`.
#[derive(Clone, Debug, PartialEq, Eq)]
pub struct TargetInfo {
    pub name: String,
    pub kind: Vec<String>,
}

/// What the resolved metadata says of one package: its name, its build targets
/// and the names of its dependencies.
#[derive(Clone, Debug, PartialEq, Eq)]
pub struct PackageInfo {
    pub name: String,
    pub targets: Vec<TargetInfo>,
    pub dependencies: Vec<String>,
}

/// What a `PackageInfo` holds: for each target its kinds, and the dependency
/// names.
pub struct PackageView {
    pub name: Seq<char>,
    pub target_kinds: Seq<Seq<Seq<char>>>,
    pub dependencies: Seq<Seq<char>>,
}

/// The texts of a list of strings.
pub open spec fn texts(names: Seq<String>) -> Seq<Seq<char>> {
    Seq::new(names.len(), |i: int| names[i]@)
}

/// The texts of a list of string slices.
pub open spec fn slice_texts(names: Seq<&str>) -> Seq<Seq<char>> {
    Seq::new(names.len(), |i: int| names[i]@)
}

impl View for PackageInfo {
    type V = PackageView;

    open spec fn view(&self) -> PackageView {
        PackageView {
            name: self.name@,
            target_kinds: Seq::new(self.targets@.len(), |i: int| texts(self.targets@[i].kind@)),
            dependencies: texts(self.dependencies@),
        }
    }
}

/// The packages of a list, each by what it holds.
pub open spec fn package_views(packages: Seq<PackageInfo>) -> Seq<PackageView> {
    Seq::new(packages.len(), |i: int| packages[i]@)
}

/// The verdict on one unit. The unit can be deployed when both flags hold.
#[derive(Clone, Debug, PartialEq, Eq)]
pub struct EligibilityResult {
    pub unit: RustCrate,
    pub has_entry_target: bool,
    pub has_required_dependencies: bool,
}

/// Whether `names` holds `name`.
pub open spec fn holds_name(names: Seq<Seq<char>>, name: Seq<char>) -> bool {
    exists|i: int| 0 <= i < names.len() && #[trigger] names[i] == name
}

/// Whether one of the package's targets is of kind `bin`.
pub open spec fn has_binary(package: PackageView) -> bool {
    exists|i: int|
        0 <= i < package.target_kinds.len() && holds_name(
            #[trigger] package.target_kinds[i],
            "bin"@,
        )
}

/// Whether the package depends on every one of `required`.
pub open spec fn depends_on_all(package: PackageView, required: Seq<Seq<char>>) -> bool {
    forall|i: int|
        0 <= i < required.len() ==> holds_name(package.dependencies, #[trigger] required[i])
}

/// Whether the package has an executable target and every required
/// dependency.
pub open spec fn deployable(package: PackageView, required: Seq<Seq<char>>) -> bool {
    has_binary(package) && depends_on_all(package, required)
}

/// The place of the first package called `name`, or the length of the list
/// where none is.
pub open spec fn first_named(packages: Seq<PackageView>, name: Seq<char>) -> int
    decreases packages.len(),
{
    if packages.len() == 0 {
        0
    } else if packages[0].name == name {
        0
    } else {
        1 + first_named(packages.drop_first(), name)
    }
}

/// The dependencies that a deployable handler cannot do without: the HTTP
/// adapter, the function runtime, the asynchronous runtime and this library.
pub open spec fn runtime_dependencies() -> Seq<Seq<char>> {
    seq!["lambda_http"@, "lambda_runtime"@, "tokio"@, "infra_builder"@]
}

/// Whether `names` holds `name`.
pub fn contains_name(names: &Vec<String>, name: &str) -> (r: bool)
    ensures
        r == holds_name(texts(names@), name@),
{
    let mut i: usize = 0;
    while i < names.len()
        invariant
            i <= names.len(),
            forall|k: int| 0 <= k < i ==> #[trigger] texts(names@)[k] != name@,
        decreases names.len() - i,
    {
        if same_text(names[i].as_str(), name) {
            assert(texts(names@)[i as int] == name@);
            return true;
        }
        i += 1;
    }
    false
}

/// Whether the package has a target of kind `bin`.
pub fn has_binary_target(package: &PackageInfo) -> (r: bool)
    ensures
        r == has_binary(package@),
{
    let mut i: usize = 0;
    while i < package.targets.len()
        invariant
            i <= package.targets.len(),
            forall|k: int| 0 <= k < i ==> !holds_name(#[trigger] package@.target_kinds[k], "bin"@),
        decreases package.targets.len() - i,
    {
        if contains_name(&package.targets[i].kind, "bin") {
            assert(holds_name(package@.target_kinds[i as int], "bin"@));
            return true;
        }
        i += 1;
    }
    false
}

/// Whether every name of `dependencies` is among the package's dependencies.
pub fn has_all_dependencies(package: &PackageInfo, dependencies: &[&str]) -> (r: bool)
    ensures
        r == depends_on_all(package@, slice_texts(dependencies@)),
{
    let mut i: usize = 0;
    while i < dependencies.len()
        invariant
            i <= dependencies.len(),
            forall|k: int|
                0 <= k < i ==> holds_name(
                    package@.dependencies,
                    #[trigger] slice_texts(dependencies@)[k],
                ),
        decreases dependencies.len() - i,
    {
        if !contains_name(&package.dependencies, dependencies[i]) {
            assert(!holds_name(package@.dependencies, slice_texts(dependencies@)[i as int]));
            return false;
        }
        i += 1;
    }
    true
}

/// The place of the first package called `package_name`.
pub fn find_package(package_name: &str, metadata: &Vec<PackageInfo>) -> (r: Option<usize>)
    ensures
        match r {
            Some(at) => at < metadata.len() && at == first_named(
                package_views(metadata@),
                package_name@,
            ) && metadata[at as int].name@ == package_name@,
            None => first_named(package_views(metadata@), package_name@) == metadata.len(),
        },
{
    let ghost all = package_views(metadata@);
    let mut i: usize = 0;
    assert(all.subrange(0, all.len() as int) =~= all);
    while i < metadata.len()
        invariant
            i <= metadata.len(),
            all == package_views(metadata@),
            first_named(all, package_name@) == i + first_named(
                all.subrange(i as int, all.len() as int),
                package_name@,
            ),
        decreases metadata.len() - i,
    {
        let ghost rest = all.subrange(i as int, all.len() as int);
        assert(rest[0] == metadata[i as int]@);
        if same_text(metadata[i].name.as_str(), package_name) {
            return Some(i);
        }
        assert(rest.drop_first() =~= all.subrange(i + 1, all.len() as int));
        i += 1;
    }
    None
}

/// Whether the package called `package_name` has an executable target and
/// every one of `dependencies`. Where several packages have that name, the
/// first of them is judged.
pub fn has_binary_target_and_dependencies(
    package_name: &str,
    metadata: &Vec<PackageInfo>,
    dependencies: &[&str],
) -> (r: bool)
    requires
        first_named(package_views(metadata@), package_name@) < metadata.len(),
    ensures
        r == deployable(
            package_views(metadata@)[first_named(package_views(metadata@), package_name@)],
            slice_texts(dependencies@),
        ),
{
    match find_package(package_name, metadata) {
        Some(at) => {
            let package = &metadata[at];
            has_binary_target(package) && has_all_dependencies(package, dependencies)
        },
        None => false,
    }
}

/// The names of the runtime dependencies.
pub fn required_dependencies() -> (r: Vec<&'static str>)
    ensures
        slice_texts(r@) == runtime_dependencies(),
{
    let mut names: Vec<&'static str> = Vec::new();
    names.push("lambda_http");
    names.push("lambda_runtime");
    names.push("tokio");
    names.push("infra_builder");
    assert(slice_texts(names@) =~= runtime_dependencies());
    names
}

impl EligibilityResult {
    /// Whether the unit passed both checks.
    pub open spec fn deployable(&self) -> bool {
        self.has_entry_target && self.has_required_dependencies
    }

    /// Whether the unit can be deployed: it passed both checks.
    pub fn is_deployable(&self) -> (r: bool)
        ensures
            r == self.deployable(),
    {
        self.has_entry_target && self.has_required_dependencies
    }
}

/// Judges one unit against the resolved metadata. The unit's package is the
/// first one of its name; a unit without a package there has no target and no
/// dependency. Failing a check is an outcome, not an error.
pub fn validate(unit: RustCrate, metadata: &Vec<PackageInfo>, required: &[&str]) -> (r:
    EligibilityResult)
    ensures
        r.unit == unit,
        ({
            let packages = package_views(metadata@);
            let at = first_named(packages, unit.name@);
            if at < packages.len() {
                &&& r.has_entry_target == has_binary(packages[at])
                &&& r.has_required_dependencies == depends_on_all(
                    packages[at],
                    slice_texts(required@),
                )
            } else {
                &&& !r.has_entry_target
                &&& r.has_required_dependencies == (required@.len() == 0)
            }
        }),
{
    match find_package(unit.name.as_str(), metadata) {
        Some(at) => {
            let package = &metadata[at];
            let has_entry_target = has_binary_target(package);
            let has_required_dependencies = has_all_dependencies(package, required);
            EligibilityResult { unit, has_entry_target, has_required_dependencies }
        },
        None => {
            let has_required_dependencies = required.len() == 0;
            EligibilityResult { unit, has_entry_target: false, has_required_dependencies }
        },
    }
}

/// A unit is deployable exactly when its package has an executable target and
/// no required dependency is missing from it.
pub proof fn deployable_needs_both(package: PackageView, required: Seq<Seq<char>>)
    ensures
        deployable(package, required) <==> (has_binary(package) && forall|name: Seq<char>|
            holds_name(required, name) ==> holds_name(package.dependencies, name)),
{
    if depends_on_all(package, required) {
        assert forall|name: Seq<char>| holds_name(required, name) implies holds_name(
            package.dependencies,
            name,
        ) by {
            let i = choose|i: int| 0 <= i < required.len() && required[i] == name;
            assert(holds_name(package.dependencies, required[i]));
        }
    }
    if forall|name: Seq<char>| holds_name(required, name) ==> holds_name(package.dependencies, name) {
        assert forall|i: int| 0 <= i < required.len() implies holds_name(
            package.dependencies,
            #[trigger] required[i],
        ) by {
            assert(holds_name(required, required[i]));
        }
    }
}

} // verus!
