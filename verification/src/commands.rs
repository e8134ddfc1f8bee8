//! Per-command decision logic: initialization planning, package-name rules,
//! the generation-result triage, the explain lookup, and configuration
//! resolution.

use vstd::prelude::*;
use vstd::string::*;

use crate::outcome::CommandError;
use crate::plan::{Operation, Plan};

verus! {

/// The primary configuration path, relative to the workspace root.
pub fn default_config_path() -> (path: String)
    ensures
        path@ == ".config/hakari.toml"@,
{
    ".config/hakari.toml".to_owned()
}

/// The fallback configuration path, relative to the workspace root.
pub fn fallback_config_path() -> (path: String)
    ensures
        path@ == ".guppy/hakari.toml"@,
{
    ".guppy/hakari.toml".to_owned()
}

/// The placeholder written into the generated region when the aggregation
/// package is disabled: it removes all previously generated contents and
/// explains how to re-enable them.
pub fn disable_contents() -> (contents: String)
    ensures
        contents@
            == "\n# Disabled by running `cargo hakari disable`.\n# To re-enable, run:\n#     cargo hakari generate\n"@,
{
    "\n# Disabled by running `cargo hakari disable`.\n# To re-enable, run:\n#     cargo hakari generate\n".to_owned()
}

/// Whether a character may appear in a package name: ASCII alphanumeric,
/// `-` or `_`.
pub open spec fn name_char_ok(c: char) -> bool {
    ||| 97 <= c as u32 <= 122  // 'a'..'z'
    ||| 65 <= c as u32 <= 90  // 'A'..'Z'
    ||| 48 <= c as u32 <= 57  // '0'..'9'
    ||| c == '-'
    ||| c == '_'
}

/// The naming rules for a new aggregation package: non-empty, every
/// character alphanumeric, `-` or `_`, and not beginning with a digit or a
/// `-`.
pub open spec fn valid_package_name(name: Seq<char>) -> bool {
    &&& name.len() > 0
    &&& forall|i: int| 0 <= i < name.len() ==> name_char_ok(#[trigger] name[i])
    &&& !(48 <= name[0] as u32 <= 57)
    &&& name[0] != '-'
}

/// Checks the naming rules.
pub fn is_valid_package_name(name: &String) -> (valid: bool)
    ensures
        valid == valid_package_name(name@),
{
    let n = name.as_str().unicode_len();
    if n == 0 {
        return false;
    }
    let first = name.as_str().get_char(0);
    let f = first as u32;
    if 48 <= f && f <= 57 {
        return false;
    }
    if first == '-' {
        return false;
    }
    let mut i: usize = 0;
    while i < n
        invariant
            i <= n,
            n == name@.len(),
            forall|j: int| 0 <= j < i ==> name_char_ok(#[trigger] name@[j]),
        decreases n - i,
    {
        let c = name.as_str().get_char(i);
        let u = c as u32;
        let ok = (97 <= u && u <= 122) || (65 <= u && u <= 90) || (48 <= u && u <= 57) || c == '-'
            || c == '_';
        if !ok {
            return false;
        }
        i += 1;
    }
    true
}

/// The suffix of a path after its last separator: the name a package
/// created there would default to. Empty when the path is empty or ends in
/// a separator.
pub open spec fn name_after_last_slash(path: Seq<char>) -> Seq<char>
    decreases path.len(),
{
    if path.len() == 0 {
        Seq::empty()
    } else if path[path.len() - 1] == '/' {
        Seq::empty()
    } else {
        name_after_last_slash(path.subrange(0, path.len() - 1)).push(path[path.len() - 1])
    }
}

/// A suffix free of separators and preceded by one (or by nothing) is the
/// name after the last slash.
proof fn lemma_name_after_last_slash(path: Seq<char>, j: int)
    requires
        0 <= j <= path.len(),
        forall|k: int| j <= k < path.len() ==> path[k] != '/',
        j > 0 ==> path[j - 1] == '/',
    ensures
        name_after_last_slash(path) == path.subrange(j, path.len() as int),
    decreases path.len(),
{
    if path.len() == 0 {
        assert(path.subrange(0, 0) =~= Seq::<char>::empty());
    } else if j == path.len() {
        assert(path[path.len() - 1] == '/');
        assert(path.subrange(j, path.len() as int) =~= Seq::<char>::empty());
    } else {
        assert(path[path.len() - 1] != '/');
        let prefix = path.subrange(0, path.len() - 1);
        lemma_name_after_last_slash(prefix, j);
        assert(path.subrange(j, path.len() as int) =~= prefix.subrange(
            j,
            prefix.len() as int,
        ).push(path[path.len() - 1]));
    }
}

/// The package name for `init`: the explicit name when one was given,
/// otherwise the last path component. Fails with `InvalidPackageName` when
/// no name can be derived (an empty path, or one ending in a separator).
pub fn derive_package_name(path: &String, explicit: &Option<String>) -> (result: Result<
    String,
    CommandError,
>)
    ensures
        explicit matches Some(name) ==> (result matches Ok(n) && n@ == name@),
        explicit is None && name_after_last_slash(path@).len() == 0 ==> (result matches Err(
            CommandError::InvalidPackageName { name },
        ) && name@ == path@),
        explicit is None && name_after_last_slash(path@).len() > 0 ==> (result matches Ok(n) && n@
            == name_after_last_slash(path@)),
{
    match explicit {
        Some(name) => Ok(name.clone()),
        None => {
            let n = path.as_str().unicode_len();
            let mut j: usize = n;
            while j > 0 && path.as_str().get_char(j - 1) != '/'
                invariant
                    j <= n,
                    n == path@.len(),
                    forall|k: int| j <= k < n ==> path@[k] != '/',
                decreases j,
            {
                j -= 1;
            }
            proof {
                lemma_name_after_last_slash(path@, j as int);
            }
            if j == n {
                return Err(CommandError::InvalidPackageName { name: path.clone() });
            }
            let name = path.as_str().substring_char(j, n).to_owned();
            Ok(name)
        },
    }
}

/// Computes the initialization plan: create the package skeleton at the
/// workspace-relative target path and, unless suppressed, write a stub
/// configuration file at the primary configuration path.
///
/// `path_occupied` reports whether the target path is already populated;
/// the caller reads that from disk. Occupation is checked before the
/// naming rules.
pub fn init_plan(
    workspace_rel_path: &String,
    package_name: &String,
    skip_config: bool,
    path_occupied: bool,
) -> (result: Result<Plan, CommandError>)
    ensures
        path_occupied ==> (result matches Err(CommandError::PackageAlreadyExists { path }) && path@
            == workspace_rel_path@),
        !path_occupied && !valid_package_name(package_name@) ==> (result matches Err(
            CommandError::InvalidPackageName { name },
        ) && name@ == package_name@),
        !path_occupied && valid_package_name(package_name@) ==> (result matches Ok(plan) && {
            &&& plan.ops@.len() == (if skip_config {
                1int
            } else {
                2int
            })
            &&& (plan.ops@[0] matches Operation::CreatePackage { path, name } && path@
                == workspace_rel_path@ && name@ == package_name@)
            &&& !skip_config ==> (plan.ops@[1] matches Operation::WriteConfig { path } && path@
                == ".config/hakari.toml"@)
        }),
{
    if path_occupied {
        return Err(CommandError::PackageAlreadyExists { path: workspace_rel_path.clone() });
    }
    if !is_valid_package_name(package_name) {
        return Err(CommandError::InvalidPackageName { name: package_name.clone() });
    }
    let mut ops: Vec<Operation> = Vec::new();
    ops.push(
        Operation::CreatePackage {
            path: workspace_rel_path.clone(),
            name: package_name.clone(),
        },
    );
    if !skip_config {
        ops.push(Operation::WriteConfig { path: default_config_path() });
    }
    Ok(Plan { ops })
}

/// Computes the disable plan: a single operation that overwrites the
/// generated region of the manifest with the explanatory placeholder,
/// removing all previously generated contents.
pub fn disable_plan() -> (plan: Plan)
    ensures
        plan.ops@.len() == 1,
        plan.ops@[0] matches Operation::SetGeneratedContents { contents } && contents@
            == "\n# Disabled by running `cargo hakari disable`.\n# To re-enable, run:\n#     cargo hakari generate\n"@,
{
    let mut ops: Vec<Operation> = Vec::new();
    ops.push(Operation::SetGeneratedContents { contents: disable_contents() });
    Plan { ops }
}

/// What the external generation step reported: the newly computed
/// generated-region contents, or one of its two failure classes.
pub enum GenerationResult {
    /// Generation succeeded with these contents.
    Generated { contents: String },
    /// A dependency's resolved registry has no configured alias — a
    /// one-line configuration fix, surfaced as the advisory status.
    UnrecognizedRegistry { package: String, version: String, registry_url: String },
    /// Any other generation failure.
    Failed { cause: String },
}

/// Triage of the generation step: successful contents flow on to
/// reconciliation; an unrecognized registry becomes the advisory error (no
/// write may happen); anything else becomes a generation error.
pub fn generation_triage(generated: GenerationResult) -> (result: Result<String, CommandError>)
    ensures
        generated matches GenerationResult::Generated { contents } ==> (result matches Ok(c) && c@
            == contents@),
        generated matches GenerationResult::UnrecognizedRegistry {
            package,
            version,
            registry_url,
        } ==> (result matches Err(
            CommandError::UnrecognizedRegistry { package: p, version: v, registry_url: u },
        ) && p@ == package@ && v@ == version@ && u@ == registry_url@),
        generated matches GenerationResult::Failed { cause } ==> (result matches Err(
            CommandError::GenerationError { cause: c },
        ) && c@ == cause@),
{
    match generated {
        GenerationResult::Generated { contents } => Ok(contents),
        GenerationResult::UnrecognizedRegistry { package, version, registry_url } => Err(
            CommandError::UnrecognizedRegistry { package, version, registry_url },
        ),
        GenerationResult::Failed { cause } => Err(CommandError::GenerationError { cause }),
    }
}

/// Finds a dependency in the generated package's dependency table, by the
/// name it appears under there. Fails with `DependencyNotFound` (hinting at
/// regeneration) when the name is absent.
pub fn explain_lookup(dep_names: &Vec<String>, dep_name: &String) -> (result: Result<
    usize,
    CommandError,
>)
    ensures
        match result {
            Ok(i) => i < dep_names@.len() && dep_names.deep_view()[i as int] == dep_name@
                && (forall|j: int| 0 <= j < i ==> dep_names.deep_view()[j] != dep_name@),
            Err(err) => !dep_names.deep_view().contains(dep_name@) && (err matches
            CommandError::DependencyNotFound { name } && name@ == dep_name@),
        },
{
    let mut i: usize = 0;
    while i < dep_names.len()
        invariant
            i <= dep_names@.len(),
            forall|j: int| 0 <= j < i ==> dep_names.deep_view()[j] != dep_name@,
        decreases dep_names@.len() - i,
    {
        if dep_names[i] == *dep_name {
            assert(dep_names.deep_view()[i as int] == dep_names@[i as int]@);
            return Ok(i);
        }
        assert(dep_names.deep_view()[i as int] == dep_names@[i as int]@);
        i += 1;
    }
    assert forall|j: int| 0 <= j < dep_names.deep_view().len() implies dep_names.deep_view()[j]
        != dep_name@ by {}
    Err(CommandError::DependencyNotFound { name: dep_name.clone() })
}

/// Picks the configuration document: the primary path's contents when that
/// file exists, else the fallback path's, else `ConfigNotFound` naming both
/// paths. The boolean reports whether the primary path was used.
pub fn choose_config(primary: Option<String>, fallback: Option<String>) -> (result: Result<
    (bool, String),
    CommandError,
>)
    ensures
        primary matches Some(contents) ==> (result matches Ok((used_primary, chosen))
            && used_primary && chosen@ == contents@),
        fallback matches Some(contents) ==> (primary is None ==> (result matches Ok(
            (used_primary, chosen),
        ) && !used_primary && chosen@ == contents@)),
        primary is None && fallback is None ==> (result matches Err(
            CommandError::ConfigNotFound { primary: p, fallback: f },
        ) && p@ == ".config/hakari.toml"@ && f@ == ".guppy/hakari.toml"@),
{
    match primary {
        Some(contents) => Ok((true, contents)),
        None => match fallback {
            Some(contents) => Ok((false, contents)),
            None => Err(
                CommandError::ConfigNotFound {
                    primary: default_config_path(),
                    fallback: fallback_config_path(),
                },
            ),
        },
    }
}

} // verus!
