//! The dependencies of a game project and the directories they are kept in.

use crate::game_project::GameProject;
use crate::text::{str_eq, views};
use crate::utils::{project_id, project_id_text, IdError};
use vstd::prelude::*;

verus! {

/// The name of the directory that a dependency, or a project's dependencies, is kept
/// under: the first eight digits of the digest of `string`.
pub fn ident(string: &str) -> (r: Result<String, IdError>)
    ensures
        r matches Ok(id) && id@ == project_id_text(string@),
{
    project_id(string)
}

/// Whether `name` is the directory of one of `dependencies`.
pub open spec fn in_use(name: Seq<char>, dependencies: Seq<Seq<char>>) -> bool {
    exists|i: int| 0 <= i < dependencies.len() && project_id_text(#[trigger] dependencies[i]) == name
}

/// Whether the directory `name` holds one of `dependencies`, so that it is kept when
/// unused directories are removed.
pub fn is_dependency_dir(name: &str, dependencies: &Vec<String>) -> (r: Result<bool, IdError>)
    ensures
        r matches Ok(used) && used == in_use(name@, views(dependencies@)),
{
    let mut i: usize = 0;
    while i < dependencies.len()
        invariant
            i <= dependencies@.len(),
            forall|j: int|
                0 <= j < i ==> project_id_text(#[trigger] views(dependencies@)[j]) != name@,
        decreases dependencies@.len() - i,
    {
        assert(views(dependencies@)[i as int] == dependencies@[i as int]@);
        match ident(dependencies[i].as_str()) {
            Ok(id) => {
                if str_eq(name, id.as_str()) {
                    return Ok(true);
                }
            },
            Err(e) => {
                return Err(e);
            },
        }
        i = i + 1;
    }
    Ok(false)
}

/// Why a dependency offers nothing to the projects that depend on it.
#[derive(Debug, Clone, Copy, PartialEq, Eq, Structural)]
pub enum DependencyError {
    /// The dependency has no `[library]` section.
    NoLibrary,
    /// The `[library]` section names no directory.
    NoIncludeDirs,
}

/// The directories that the dependency `project` offers. Fails with `NoLibrary`
/// where it has no library section, with `NoIncludeDirs` where the section names no
/// directory.
pub fn include_dirs(project: &GameProject) -> (r: Result<&Vec<String>, DependencyError>)
    ensures
        match r {
            Ok(dirs) => project.library matches Some(l) && l.include_dirs == *dirs
                && dirs@.len() > 0,
            Err(DependencyError::NoLibrary) => project.library is None,
            Err(DependencyError::NoIncludeDirs) => project.library matches Some(l)
                && l.include_dirs@.len() == 0,
        },
{
    match &project.library {
        None => Err(DependencyError::NoLibrary),
        Some(library) => {
            if library.include_dirs.len() == 0 {
                Err(DependencyError::NoIncludeDirs)
            } else {
                Ok(&library.include_dirs)
            }
        },
    }
}

/// The name of the stub file that the description named `stem` is compiled to.
pub fn stub_file_name(stem: &str) -> (r: String)
    ensures
        r@ == stem@ + ".lua"@,
{
    let mut name: String = stem.to_owned();
    name.append(".lua");
    name
}

} // verus!
