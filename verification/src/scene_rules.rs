//! The rules for scenes: what may sit on the master node.

use crate::problems::SceneProblem;
use crate::scene::{Scene, SceneView};
use crate::script::ScriptKind;
use vstd::prelude::*;
use vstd::string::StringExecFns;

verus! {

/// Whether `gd_type` is one of the types that a master node may have.
pub open spec fn plain_node_type(gd_type: Seq<char>) -> bool {
    gd_type == "Node"@ || gd_type == "Node2D"@ || gd_type == "Node3D"@
}

/// All rules for a scene, in their fixed order: the first problem is the
/// verdict.
///
/// A scene with children has no script.  The master node is a `Node`,
/// `Node2D` or `Node3D`.  A behaviour or value script sits on a `Node` only,
/// and a reference script sits on no master node.
pub open spec fn scene_verdict(s: SceneView) -> Result<(), SceneProblem> {
    if s.has_children && s.script is Some {
        Err(SceneProblem::ChildrenAndScript)
    } else if !plain_node_type(s.gd_type) {
        Err(SceneProblem::MasterTypeNotNode)
    } else {
        match s.script {
            None => Ok(()),
            Some(script) => match script.kind {
                ScriptKind::Reference => Err(SceneProblem::ReferenceScriptOnMaster),
                _ => if s.gd_type == "Node"@ {
                    Ok(())
                } else {
                    Err(SceneProblem::ScriptOnTypedMaster)
                },
            },
        }
    }
}

/// Checks a scene against all rules; the first problem found is the result.
pub fn check_scene(scene: &Scene) -> (r: Result<(), SceneProblem>)
    ensures
        r == scene_verdict(scene@),
{
    if scene.has_children && scene.script.is_some() {
        return Err(SceneProblem::ChildrenAndScript);
    }
    let is_node = scene.gd_type == String::from_str("Node");
    let is_node_2d = scene.gd_type == String::from_str("Node2D");
    let is_node_3d = scene.gd_type == String::from_str("Node3D");
    if !(is_node || is_node_2d || is_node_3d) {
        return Err(SceneProblem::MasterTypeNotNode);
    }
    match scene.script {
        None => Ok(()),
        Some(script) => match script.kind {
            ScriptKind::Reference => Err(SceneProblem::ReferenceScriptOnMaster),
            _ => if is_node {
                Ok(())
            } else {
                Err(SceneProblem::ScriptOnTypedMaster)
            },
        },
    }
}

} // verus!
