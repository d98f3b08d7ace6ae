//! A whole project: the models of all its scripts and scenes are built, the
//! rules are checked, and what was found is gathered in three lists.

use crate::paths::{path_display_text, path_text};
use crate::problems::{
    build_error_text, scene_problem_text, script_problem_text, unreadable, BuildError,
    BuildErrorKind,
};
use crate::scene::{scene_outcome, script_views, Scene, SceneView};
use crate::scene_rules::{check_scene, scene_verdict};
use crate::script::{script_outcome, Script, ScriptView};
use crate::script_rules::{check_script_isolated, script_verdict, string_views};
use crate::text::{chars_of, position_of};
use std::path::PathBuf;
use vstd::prelude::*;
use vstd::slice::slice_subrange;
use vstd::string::StrSliceExecFns;
use vstd::string::StringExecFns;

verus! {

/// A script file that was found, and what came of reading it.
#[derive(Debug)]
pub struct ScriptFile {
    /// Where the file lies.
    pub path: PathBuf,
    /// The resource path by which scenes refer to the script.
    pub gd_path: String,
    /// The whole text of the file, or why it could not be read.
    pub contents: Result<String, String>,
}

/// A scene file that was found, and what came of reading it.
#[derive(Debug)]
pub struct SceneFile {
    /// Where the file lies.
    pub path: PathBuf,
    /// The whole text of the file, or why it could not be read.
    pub contents: Result<String, String>,
}

/// What was found in a project.
#[derive(Debug)]
pub struct Report {
    /// The files of which no model could be built, scripts first.
    pub general_problems: Vec<String>,
    /// The scripts that break a rule.
    pub script_problems: Vec<String>,
    /// The scenes that break a rule.
    pub scene_problems: Vec<String>,
}

/// `s` with every backslash turned into a forward slash.
pub open spec fn forward_slashes(s: Seq<char>) -> Seq<char> {
    s.map_values(
        |c: char|
            if c == '\\' {
                '/'
            } else {
                c
            },
    )
}

/// The resource path of the file that lies at `relative` below the project's
/// root.
pub open spec fn resource_path_of(relative: Seq<char>) -> Seq<char> {
    "res://"@ + forward_slashes(relative)
}

/// The models among `outcomes`, in order.
pub open spec fn built<T>(outcomes: Seq<Result<T, BuildError>>) -> Seq<T>
    decreases outcomes.len(),
{
    if outcomes.len() == 0 {
        Seq::empty()
    } else {
        built(outcomes.drop_last()) + match outcomes.last() {
            Ok(item) => seq![item],
            Err(_) => Seq::empty(),
        }
    }
}

/// The messages of the failures among `outcomes`, in order.
pub open spec fn failure_messages<T>(outcomes: Seq<Result<T, BuildError>>) -> Seq<Seq<char>>
    decreases outcomes.len(),
{
    if outcomes.len() == 0 {
        Seq::empty()
    } else {
        failure_messages(outcomes.drop_last()) + match outcomes.last() {
            Ok(_) => Seq::empty(),
            Err(e) => seq![build_error_text(e@)],
        }
    }
}

/// The messages of the scripts among `scripts` that break a rule, in order.
pub open spec fn script_messages(scripts: Seq<ScriptView>) -> Seq<Seq<char>>
    decreases scripts.len(),
{
    if scripts.len() == 0 {
        Seq::empty()
    } else {
        script_messages(scripts.drop_last()) + match script_verdict(scripts.last()) {
            Ok(_) => Seq::empty(),
            Err(p) => seq![scripts.last().full_name + script_problem_text(p)],
        }
    }
}

/// The views of a sequence of scenes.
pub open spec fn scene_views(scenes: Seq<Scene>) -> Seq<SceneView> {
    Seq::new(scenes.len(), |i: int| scenes[i]@)
}

/// The messages of the scenes among `scenes` that break a rule, in order.
pub open spec fn scene_messages(scenes: Seq<SceneView>) -> Seq<Seq<char>>
    decreases scenes.len(),
{
    if scenes.len() == 0 {
        Seq::empty()
    } else {
        scene_messages(scenes.drop_last()) + match scene_verdict(scenes.last()) {
            Ok(_) => Seq::empty(),
            Err(p) => seq![scenes.last().full_name + scene_problem_text(p)],
        }
    }
}

/// Whether `r` is the outcome for the script file `file`: the failure to
/// read it, which shows its path and gives the reason, or the outcome of
/// building the script from its text.
pub open spec fn script_file_outcome(file: ScriptFile, r: Result<Script, BuildError>) -> bool {
    match file.contents {
        Ok(text) => script_outcome(file.path, file.gd_path@, text@, r),
        Err(reason) => r matches Err(e) && e@ == unreadable(path_display_text(file.path), reason@),
    }
}

/// Whether `r` is the outcome for the scene file `file` among `scripts`: the
/// failure to read it, which shows its path and gives the reason, or the
/// outcome of building the scene from its text.
pub open spec fn scene_file_outcome(
    file: SceneFile,
    scripts: Seq<ScriptView>,
    r: Result<Scene, BuildError>,
) -> bool {
    match file.contents {
        Ok(text) => scene_outcome(file.path, text@, scripts, r),
        Err(reason) => r matches Err(e) && e@ == unreadable(path_display_text(file.path), reason@),
    }
}

/// Whether `outcomes` are the outcomes for the script files `files`, file by
/// file.
pub open spec fn script_outcomes(
    files: Seq<ScriptFile>,
    outcomes: Seq<Result<Script, BuildError>>,
) -> bool {
    &&& outcomes.len() == files.len()
    &&& forall|i: int|
        0 <= i < files.len() ==> script_file_outcome(files[i], #[trigger] outcomes[i])
}

/// Whether `outcomes` are the outcomes for the scene files `files` among
/// `scripts`, file by file.
pub open spec fn scene_outcomes(
    files: Seq<SceneFile>,
    scripts: Seq<ScriptView>,
    outcomes: Seq<Result<Scene, BuildError>>,
) -> bool {
    &&& outcomes.len() == files.len()
    &&& forall|i: int|
        0 <= i < files.len() ==> scene_file_outcome(files[i], scripts, #[trigger] outcomes[i])
}

/// Whether `report` is what is found in a project whose files have the
/// given outcomes: the general problems are the failures to read and to
/// build, those of scripts first; the script problems are those of the scripts
/// that were built; the scene problems are those of the scenes that were
/// built among these scripts.  All are in the order of the files.
pub open spec fn reports(
    script_files: Seq<ScriptFile>,
    scene_files: Seq<SceneFile>,
    scripts: Seq<Result<Script, BuildError>>,
    scenes: Seq<Result<Scene, BuildError>>,
    report: Report,
) -> bool {
    &&& script_outcomes(script_files, scripts)
    &&& scene_outcomes(scene_files, script_views(built(scripts)), scenes)
    &&& string_views(report.general_problems@) == failure_messages(scripts) + failure_messages(
        scenes,
    )
    &&& string_views(report.script_problems@) == script_messages(script_views(built(scripts)))
    &&& string_views(report.scene_problems@) == scene_messages(scene_views(built(scenes)))
}

/// The resource path of the file that lies at `relative` below the project's
/// root: `res://`, then `relative` with forward slashes only.
pub fn resource_path(relative: &str) -> (r: String)
    ensures
        r@ == resource_path_of(relative@),
{
    let text = chars_of(relative);
    let t = text.as_slice();
    let n: usize = t.len();
    let mut out = String::from_str("res://");
    let mut start: usize = 0;
    proof {
        reveal_strlit("/");
    }
    while start < n
        invariant
            start <= n,
            n == t@.len(),
            t@ == relative@,
            "/"@ == seq!['/'],
            out@ == "res://"@ + forward_slashes(t@.take(start as int)),
        decreases n - start,
    {
        let rest = slice_subrange(t, start, n);
        let k: usize = position_of(rest, '\\');
        out.append(relative.substring_char(start, start + k));
        proof {
            let run = t@.subrange(start as int, start + k);
            assert(forward_slashes(run) =~= run) by {
                assert forall|j: int| 0 <= j < run.len() implies run[j] == rest@[j] by {}
            }
            assert(forward_slashes(t@.take(start as int)) + run =~= forward_slashes(
                t@.take(start + k),
            ));
        }
        if start + k < n {
            out.append("/");
            assert(forward_slashes(t@.take(start + k)) + seq!['/'] =~= forward_slashes(
                t@.take(start + k + 1),
            ));
            start = start + k + 1;
        } else {
            start = n;
        }
    }
    out
}

/// Builds the script of each of `files` that could be read, and gives the
/// outcome for each file, in order.
pub fn build_scripts(files: Vec<ScriptFile>) -> (r: Vec<Result<Script, BuildError>>)
    ensures
        script_outcomes(files@, r@),
{
    let mut out: Vec<Result<Script, BuildError>> = Vec::new();
    for file in it: files
        invariant
            it.seq() == files@,
            out@.len() == it.index(),
            forall|i: int|
                0 <= i < it.index() ==> script_file_outcome(files@[i], #[trigger] out@[i]),
    {
        let outcome = match file.contents {
            Ok(text) => Script::new(file.path, file.gd_path, text),
            Err(reason) => Err(
                BuildError {
                    file: path_text(&file.path),
                    kind: BuildErrorKind::Unreadable,
                    detail: reason,
                },
            ),
        };
        out.push(outcome);
    }
    out
}

/// Builds the scene of each of `files` that could be read, among the scripts
/// `scripts`, and gives the outcome for each file, in order.
pub fn build_scenes<'a>(files: Vec<SceneFile>, scripts: &'a Vec<Script>) -> (r: Vec<
    Result<Scene<'a>, BuildError>,
>)
    ensures
        scene_outcomes(files@, script_views(scripts@), r@),
{
    let mut out: Vec<Result<Scene<'a>, BuildError>> = Vec::new();
    for file in it: files
        invariant
            it.seq() == files@,
            out@.len() == it.index(),
            forall|i: int|
                0 <= i < it.index() ==> scene_file_outcome(
                    files@[i],
                    script_views(scripts@),
                    #[trigger] out@[i],
                ),
    {
        let outcome = match file.contents {
            Ok(text) => Scene::new(file.path, text, scripts),
            Err(reason) => Err(
                BuildError {
                    file: path_text(&file.path),
                    kind: BuildErrorKind::Unreadable,
                    detail: reason,
                },
            ),
        };
        out.push(outcome);
    }
    out
}

/// Parts the outcomes of a build: the models are returned, and the message
/// of each failure is added to `problems`.
pub fn sort_outcomes<T>(outcomes: Vec<Result<T, BuildError>>, problems: &mut Vec<String>) -> (items:
    Vec<T>)
    ensures
        items@ == built(outcomes@),
        string_views(final(problems)@) == string_views(old(problems)@) + failure_messages(
            outcomes@,
        ),
{
    let ghost before = string_views(problems@);
    let mut items: Vec<T> = Vec::new();
    for outcome in it: outcomes
        invariant
            it.seq() == outcomes@,
            items@ == built(outcomes@.take(it.index())),
            string_views(problems@) == before + failure_messages(outcomes@.take(it.index())),
    {
        let ghost k = it.index();
        let ghost so_far = problems@;
        assert(outcomes@.take(k + 1).drop_last() =~= outcomes@.take(k));
        match outcome {
            Ok(item) => {
                items.push(item);
            },
            Err(e) => {
                problems.push(e.message());
                assert(string_views(problems@) =~= string_views(so_far) + seq![
                    build_error_text(e@),
                ]);
            },
        }
    }
    assert(outcomes@.take(outcomes@.len() as int) =~= outcomes@);
    items
}

/// Checks each of `scripts` and gives the messages of those that break a
/// rule, in order.
pub fn script_problems(scripts: &Vec<Script>) -> (r: Vec<String>)
    ensures
        string_views(r@) == script_messages(script_views(scripts@)),
{
    let ghost all = script_views(scripts@);
    let mut out: Vec<String> = Vec::new();
    let mut i: usize = 0;
    while i < scripts.len()
        invariant
            i <= scripts.len(),
            all == script_views(scripts@),
            string_views(out@) == script_messages(all.take(i as int)),
        decreases scripts.len() - i,
    {
        assert(all.take(i + 1).drop_last() =~= all.take(i as int));
        if let Err(p) = check_script_isolated(&scripts[i]) {
            out.push(p.message(scripts[i].full_name.as_str()));
        }
        i += 1;
    }
    assert(all.take(i as int) =~= all);
    out
}

/// Checks each of `scenes` and gives the messages of those that break a
/// rule, in order.
pub fn scene_problems(scenes: &Vec<Scene>) -> (r: Vec<String>)
    ensures
        string_views(r@) == scene_messages(scene_views(scenes@)),
{
    let ghost all = scene_views(scenes@);
    let mut out: Vec<String> = Vec::new();
    let mut i: usize = 0;
    while i < scenes.len()
        invariant
            i <= scenes.len(),
            all == scene_views(scenes@),
            string_views(out@) == scene_messages(all.take(i as int)),
        decreases scenes.len() - i,
    {
        assert(all.take(i + 1).drop_last() =~= all.take(i as int));
        if let Err(p) = check_scene(&scenes[i]) {
            out.push(p.message(scenes[i].full_name.as_str()));
        }
        i += 1;
    }
    assert(all.take(i as int) =~= all);
    out
}

/// Builds the models of all files of a project and checks them: all scripts
/// first, then the scenes among the scripts that could be built.  No file
/// that cannot be read, no failure and no problem ends the run; each is
/// reported in its list.
pub fn check_project(script_files: Vec<ScriptFile>, scene_files: Vec<SceneFile>) -> (report: Report)
    ensures
        exists|scripts: Seq<Result<Script, BuildError>>, scenes: Seq<Result<Scene, BuildError>>|
            reports(script_files@, scene_files@, scripts, scenes, report),
{
    let mut general_problems: Vec<String> = Vec::new();
    let outcomes = build_scripts(script_files);
    let ghost script_results = outcomes@;
    let scripts = sort_outcomes(outcomes, &mut general_problems);
    let script_problems = script_problems(&scripts);
    let outcomes = build_scenes(scene_files, &scripts);
    let ghost scene_results = outcomes@;
    let scenes = sort_outcomes(outcomes, &mut general_problems);
    let scene_problems = scene_problems(&scenes);
    let report = Report { general_problems, script_problems, scene_problems };
    assert(reports(script_files@, scene_files@, script_results, scene_results, report));
    report
}

} // verus!
