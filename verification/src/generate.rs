//! The generation pipeline: resolves the world, parses every
//! interface file, assembles the generated crate's sources, and
//! prepares the build-manifest registrations.

use vstd::prelude::*;

use crate::assemble::InterfaceTypes;
use crate::assemble::assemble_lib_rs;
use crate::assemble::build_modules;
use crate::assemble::caller_utils_cargo_toml;
use crate::assemble::cargo_toml_text;
use crate::assemble::lib_rs_text;
use crate::assemble::module_entries;
use crate::assemble::type_entries;
use crate::manifest::ManifestError;
use crate::manifest::add_dependency_to_manifest;
use crate::manifest::manifest_dep_keys;
use crate::manifest::manifest_members;
use crate::manifest::manifest_parses;
use crate::manifest::needs_dependency;
use crate::manifest::needs_member;
use crate::manifest::update_workspace_manifest;
use crate::world::SourceFile;
use crate::world::file_views;
use crate::world::imports_of;
use crate::world::resolve_world;
use crate::world::resolved_world_of;

verus! {

/// Everything one generation run produces: the resolved world, the
/// generated crate's manifest and source texts, the per-interface
/// bookkeeping, and the updated build manifests (None where a
/// manifest needed no change).
pub struct GeneratedCrate {
    pub world_name: String,
    pub world_plain_fallback: bool,
    pub cargo_toml: String,
    pub lib_rs: String,
    pub interface_types: Vec<InterfaceTypes>,
    pub workspace_manifest: Option<String>,
    pub project_manifests: Vec<Option<String>>,
}

/// Why a generation run failed: no file declares a world, or a build
/// manifest could not be read back or written out.
#[derive(Debug)]
pub enum GenError {
    NoWorld,
    Workspace(ManifestError),
    Project(ManifestError),
}

/// What holds of one registered workspace manifest: the text parsed;
/// the update is present exactly when a members array exists that
/// still lacks the crate, and it then parses to the same document
/// with the member appended and the dependency table untouched.
pub open spec fn workspace_update_ok(input: Seq<char>, out: Option<String>) -> bool {
    &&& manifest_parses(input)
    &&& match manifest_members(input) {
        None => out is None,
        Some(ms) => if !needs_member(ms, "caller-utils"@) {
            out is None
        } else {
            match out {
                Some(text) => manifest_parses(text@) && manifest_members(text@) == Some(
                    ms.push(Some("caller-utils"@)),
                ) && manifest_dep_keys(text@) == manifest_dep_keys(input),
                None => false,
            }
        },
    }
}

/// What holds of one registered project manifest, as for the
/// workspace one: the update, when owed, carries the crate among the
/// dependency keys and leaves the workspace members untouched.
pub open spec fn project_update_ok(input: Seq<char>, out: Option<String>) -> bool {
    &&& manifest_parses(input)
    &&& match manifest_dep_keys(input) {
        None => out is None,
        Some(ks) => if !needs_dependency(ks.to_set(), "caller-utils"@) {
            out is None
        } else {
            match out {
                Some(text) => manifest_parses(text@) && (match manifest_dep_keys(text@) {
                    Some(ks2) => ks2.to_set() == ks.to_set().insert("caller-utils"@),
                    None => false,
                }) && manifest_members(text@) == manifest_members(input),
                None => false,
            }
        },
    }
}

/// Runs the whole pipeline on plain values: the interface files (name
/// and text), the enclosing workspace manifest text if one exists, and
/// the sibling projects' manifest texts.
#[verifier::loop_isolation(false)]
pub fn create_caller_utils(
    files: &Vec<SourceFile>,
    workspace_manifest: Option<&String>,
    project_manifests: &Vec<String>,
) -> (r: Result<GeneratedCrate, GenError>)
    ensures
        resolved_world_of(file_views(files@)) is None <==> r == Err::<
            GeneratedCrate,
            GenError,
        >(GenError::NoWorld),
        (match workspace_manifest {
            Some(m) => resolved_world_of(file_views(files@)) is Some && !manifest_parses(m@),
            None => false,
        }) ==> r matches Err(GenError::Workspace(ManifestError::Parse(_))),
        r matches Err(GenError::Workspace(_)) ==> (match workspace_manifest {
            Some(m) => !manifest_parses(m@),
            None => false,
        }),
        r matches Err(GenError::Project(_)) ==> exists|i: int|
            0 <= i < project_manifests.len() && !manifest_parses(
                project_manifests.deep_view()[i],
            ),
        (resolved_world_of(file_views(files@)) is Some && (match workspace_manifest {
            None => true,
            Some(m) => manifest_parses(m@),
        }) && (forall|i: int|
            0 <= i < project_manifests.len() ==> manifest_parses(
                #[trigger] project_manifests.deep_view()[i],
            ))) ==> r is Ok,
        match r {
            Ok(g) => {
                &&& resolved_world_of(file_views(files@)) == Some(
                    (g.world_name@, g.world_plain_fallback),
                )
                &&& g.cargo_toml@ == cargo_toml_text()
                &&& g.lib_rs@ == lib_rs_text(
                    g.world_name@,
                    imports_of(file_views(files@)),
                    module_entries(file_views(files@)),
                )
                &&& g.interface_types@.map_values(|t: InterfaceTypes| t@) == type_entries(
                    file_views(files@),
                )
                &&& match workspace_manifest {
                    None => g.workspace_manifest is None,
                    Some(m) => workspace_update_ok(m@, g.workspace_manifest),
                }
                &&& g.project_manifests.len() == project_manifests.len()
                &&& forall|i: int|
                    0 <= i < project_manifests.len() ==> project_update_ok(
                        project_manifests.deep_view()[i],
                        #[trigger] g.project_manifests@[i],
                    )
            },
            Err(_) => true,
        },
{
    let ghost fvs = file_views(files@);
    match resolve_world(files) {
        None => Err(GenError::NoWorld),
        Some(w) => {
            let built = build_modules(files);
            let mods = built.0;
            let itypes = built.1;
            let lib_rs = assemble_lib_rs(w.name.as_str(), &w.imports, &mods);
            let cargo_toml = caller_utils_cargo_toml();
            let ws_out: Option<String> = match workspace_manifest {
                None => None,
                Some(m) => match update_workspace_manifest(m.as_str()) {
                    Ok(o) => o,
                    Err(e) => {
                        return Err(GenError::Workspace(e));
                    },
                },
            };
            let mut proj_out: Vec<Option<String>> = Vec::new();
            let np = project_manifests.len();
            let mut i: usize = 0;
            while i < np
                invariant
                    np == project_manifests.len(),
                    project_manifests.deep_view().len() == np,
                    i <= np,
                    proj_out.len() == i,
                    forall|j: int|
                        0 <= j < i ==> project_update_ok(
                            project_manifests.deep_view()[j],
                            #[trigger] proj_out@[j],
                        ),
                decreases np - i,
            {
                proof {
                    assert(project_manifests.deep_view()[i as int]
                        == project_manifests@[i as int]@);
                }
                match add_dependency_to_manifest(project_manifests[i].as_str()) {
                    Ok(o) => {
                        proj_out.push(o);
                    },
                    Err(e) => {
                        return Err(GenError::Project(e));
                    },
                }
                i += 1;
            }
            Ok(
                GeneratedCrate {
                    world_name: w.name,
                    world_plain_fallback: w.plain_fallback,
                    cargo_toml,
                    lib_rs,
                    interface_types: itypes,
                    workspace_manifest: ws_out,
                    project_manifests: proj_out,
                },
            )
        },
    }
}

} // verus!
