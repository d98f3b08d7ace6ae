//! What holds of every script and every scene, whatever the files contain.

use crate::header::header_of;
use crate::problems::{BuildError, BuildErrorKind, SceneProblem, ScriptProblem};
use crate::scene::{count_with_prefix, node_prefix, scene_built, SceneView};
use crate::scene_rules::scene_verdict;
use crate::paths::file_name_text;
use crate::script::{
    all_lines_parse, class_names, declarations, extends_targets, kind_of, script_assembled,
    script_outcome, well_formed, zero_or_one, Script, ScriptKind, ScriptView,
};
use crate::script_rules::{
    common_verdict, export_only, node_type, script_verdict, split_in_turn, untyped,
    upper_camel_case, var_keywords,
};
use crate::text::{has_char, lemma_position, lines, position, trim};
use std::path::PathBuf;
use vstd::prelude::*;

verus! {

/// The first two characters of `name`, or all of it where it has fewer.
pub open spec fn first_two(name: Seq<char>) -> Seq<char> {
    if name.len() >= 2 {
        name.take(2)
    } else {
        name
    }
}

/// The kind of a script depends on the first two characters of its file's
/// name and on nothing else: two names that begin alike give the same kind.
pub proof fn law_kind_depends_on_first_two(a: Seq<char>, b: Seq<char>)
    requires
        first_two(a) == first_two(b),
    ensures
        kind_of(a) == kind_of(b),
{
    if a.len() >= 2 {
        assert(b.take(2)[0] == b[0] && b.take(2)[1] == b[1]);
    }
}

/// A name that begins with `v_` makes a value script, one that begins with
/// `r_` a reference script, and every other name a behaviour script.
pub proof fn law_kind_by_prefix(name: Seq<char>)
    ensures
        kind_of(name) == ScriptKind::Value <==> seq!['v', '_'].is_prefix_of(name),
        kind_of(name) == ScriptKind::Reference <==> seq!['r', '_'].is_prefix_of(name),
        kind_of(name) == ScriptKind::Behaviour <==> !seq!['v', '_'].is_prefix_of(name) && !seq![
            'r',
            '_',
        ].is_prefix_of(name),
{
    if name.len() >= 2 {
        assert(name.subrange(0, 2)[0] == name[0] && name.subrange(0, 2)[1] == name[1]);
    }
}

/// Where the header lines of a text can be read, the text declares at most
/// one class name and at most one inheritance target, every line parses, and
/// what was read is what the lines declare.
pub proof fn law_declarations_are_sole(ls: Seq<Seq<char>>)
    requires
        declarations(ls) is Ok,
    ensures
        all_lines_parse(ls),
        class_names(ls) == zero_or_one(declarations(ls)->Ok_0.0),
        extends_targets(ls) == zero_or_one(declarations(ls)->Ok_0.1),
    decreases ls.len(),
{
    if ls.len() == 0 {
    } else {
        let front = ls.drop_last();
        law_declarations_are_sole(front);
        assert forall|i: int| 0 <= i < ls.len() implies (#[trigger] header_of(ls[i])) is Ok by {
            if i < ls.len() - 1 {
                assert(ls[i] == front[i]);
            }
        }
    }
}

/// The header lines of a text can be read exactly if every line parses and
/// no more than one class name and one inheritance target are declared.
pub proof fn law_declarations_read(ls: Seq<Seq<char>>)
    ensures
        declarations(ls) is Ok <==> all_lines_parse(ls) && class_names(ls).len() <= 1
            && extends_targets(ls).len() <= 1,
    decreases ls.len(),
{
    if declarations(ls) is Ok {
        law_declarations_are_sole(ls);
    }
    if ls.len() > 0 {
        let front = ls.drop_last();
        law_declarations_read(front);
        if all_lines_parse(ls) && class_names(ls).len() <= 1 && extends_targets(ls).len() <= 1 {
            assert(all_lines_parse(front)) by {
                assert forall|i: int| 0 <= i < front.len() implies (#[trigger] header_of(
                    front[i],
                )) is Ok by {
                    assert(front[i] == ls[i]);
                }
            }
            assert(header_of(ls.last()) is Ok);
            law_declarations_are_sole(front);
        }
    }
}

/// What a sequence of at most one text holds.
proof fn lemma_zero_or_one(o: Option<Seq<char>>, s: Seq<char>)
    ensures
        zero_or_one(o) == seq![s] <==> o == Some(s),
        zero_or_one(o) == Seq::<Seq<char>>::empty() <==> o is None,
{
    assert(seq![s].len() == 1 && seq![s][0] == s);
    if let Some(t) = o {
        assert(seq![t].len() == 1 && seq![t][0] == t);
    }
}

/// A behaviour or value script passes only if it declares exactly one class
/// name, which is its own name, and exactly one inheritance target, which is
/// `Node`.  It passes exactly if this is so, the common rules are kept and,
/// for a value script, the text holds exported variables only.
pub proof fn law_passing_class_declares_itself(s: ScriptView)
    requires
        well_formed(s),
        s.kind != ScriptKind::Reference,
    ensures
        script_verdict(s) is Ok <==> {
            &&& common_verdict(s) is Ok
            &&& class_names(lines(s.contents)) == seq![s.name]
            &&& extends_targets(lines(s.contents)) == seq![node_type()]
            &&& s.kind == ScriptKind::Value ==> export_only(s.contents)
        },
{
    law_declarations_are_sole(lines(s.contents));
    lemma_zero_or_one(s.class_name, s.name);
    lemma_zero_or_one(s.extends, node_type());
}

/// Whether `line` is neither empty, a comment nor a header once it is
/// trimmed.
pub open spec fn substantive(line: Seq<char>) -> bool {
    let t = trim(line);
    &&& t.len() > 0
    &&& !"#"@.is_prefix_of(t)
    &&& !"class_name"@.is_prefix_of(t)
    &&& !"extends"@.is_prefix_of(t)
}

/// A reference script passes only if it declares no class name and exactly
/// one inheritance target, which is `Node`, and each of its substantive lines
/// begins with `@export var `.  It passes exactly if this is so and the
/// common rules are kept.
pub proof fn law_passing_reference_exports_only(s: ScriptView)
    requires
        well_formed(s),
        s.kind == ScriptKind::Reference,
    ensures
        script_verdict(s) is Ok <==> {
            &&& common_verdict(s) is Ok
            &&& class_names(lines(s.contents)) == Seq::<Seq<char>>::empty()
            &&& extends_targets(lines(s.contents)) == seq![node_type()]
            &&& forall|i: int|
                0 <= i < lines(s.contents).len() && substantive(#[trigger] lines(s.contents)[i])
                    ==> "@export var "@.is_prefix_of(trim(lines(s.contents)[i]))
        },
{
    law_declarations_are_sole(lines(s.contents));
    lemma_zero_or_one(s.class_name, s.name);
    lemma_zero_or_one(s.extends, node_type());
}

/// A part of a text is untyped exactly if it holds a `=` with no `:` before
/// it.
pub proof fn law_untyped_is_equals_before_colon(segment: Seq<char>)
    ensures
        untyped(segment) <==> exists|i: int|
            0 <= i < segment.len() && #[trigger] segment[i] == '=' && forall|j: int|
                0 <= j < i ==> segment[j] != ':',
{
    lemma_position(segment, '=');
    lemma_position(segment, ':');
    if untyped(segment) {
        assert(segment[position(segment, '=') as int] == '=');
    }
}

/// A script is reported for its typing exactly if its name and its use of
/// `$` give no earlier problem and some part of its text, split at the
/// variable keywords, holds a `=` with no `:` before it.
pub proof fn law_typing_is_flagged(s: ScriptView)
    ensures
        script_verdict(s) == Err::<(), ScriptProblem>(ScriptProblem::UntypedVariable) <==> (
        upper_camel_case(s.name) && !has_char(s.contents, '$') && exists|k: int|
            0 <= k < split_in_turn(s.contents, var_keywords()).len() && untyped(
                #[trigger] split_in_turn(s.contents, var_keywords())[k],
            )),
{
}

/// Building the script of the same file twice gives the same outcome: two
/// scripts that are the same in every field, or two failures of the same
/// kind for the same file.
pub proof fn law_script_build_is_a_function(
    first: Result<Script, BuildError>,
    second: Result<Script, BuildError>,
    path: PathBuf,
    full_name: Seq<char>,
    stem: Seq<char>,
    gd_path: Seq<char>,
    contents: Seq<char>,
)
    requires
        script_assembled(path, full_name, stem, gd_path, contents, first),
        script_assembled(path, full_name, stem, gd_path, contents, second),
    ensures
        match first {
            Ok(a) => second matches Ok(b) && a@ == b@,
            Err(a) => second matches Err(b) && a@ == b@,
        },
{
}

/// Building the script of the file at the same path, with the same text,
/// twice gives the same outcome: two scripts that are the same in every
/// field, or two failures that are the same in every field.
pub proof fn law_script_new_is_a_function(
    first: Result<Script, BuildError>,
    second: Result<Script, BuildError>,
    path: PathBuf,
    gd_path: Seq<char>,
    contents: Seq<char>,
)
    requires
        script_outcome(path, gd_path, contents, first),
        script_outcome(path, gd_path, contents, second),
    ensures
        match first {
            Ok(a) => second matches Ok(b) && a@ == b@,
            Err(a) => second matches Err(b) && a@ == b@,
        },
{
}

/// A script that is built from a path is called as the path's final
/// component, its kind is the one that the first two characters of that name
/// give, and it is what its name and text make it.
pub proof fn law_built_kind_follows_file_name(
    s: Script,
    path: PathBuf,
    gd_path: Seq<char>,
    contents: Seq<char>,
)
    requires
        script_outcome(path, gd_path, contents, Ok::<Script, BuildError>(s)),
    ensures
        file_name_text(path) == Some(s@.full_name),
        s@.kind == kind_of(s@.full_name),
        well_formed(s@),
{
}

/// Two scripts with the same text declare the same class name and the same
/// inheritance target, whatever their files are called; and two scripts
/// whose files are called the same are of the same kind.
pub proof fn law_same_text_same_declarations(a: ScriptView, b: ScriptView)
    requires
        well_formed(a),
        well_formed(b),
    ensures
        a.contents == b.contents ==> a.class_name == b.class_name && a.extends == b.extends,
        a.full_name == b.full_name ==> a.kind == b.kind,
{
}

/// A scene with two or more node entries that is linked to a script is
/// rejected for that, whatever the script's kind and the master node's type.
pub proof fn law_container_scene_has_no_script(
    scene: SceneView,
    path: PathBuf,
    full_name: Seq<char>,
    name: Seq<char>,
    contents: Seq<char>,
    scripts: Seq<ScriptView>,
)
    requires
        scene_built(path, full_name, name, contents, scripts) == Ok::<SceneView, BuildErrorKind>(
            scene,
        ),
        count_with_prefix(lines(contents), node_prefix()) >= 2,
        scene.script is Some,
    ensures
        scene_verdict(scene) == Err::<(), SceneProblem>(SceneProblem::ChildrenAndScript),
{
}

} // verus!
