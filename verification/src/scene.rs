//! Scenes: which script a scene refers to, what type its master node has,
//! whether it has child nodes, and how its model is built.

use crate::paths::{
    file_name_of, file_name_text, file_stem_of, file_stem_text, path_display_text, path_text,
};
use crate::problems::{failure, BuildError, BuildErrorKind};
use crate::script::{Script, ScriptView};
use crate::text::{
    chars_of, find, find_first, has_char, in_bounds, line_bounds, lines, pieces, position,
    position_of, starts_with,
};
use std::path::PathBuf;
use vstd::prelude::*;
use vstd::slice::slice_subrange;
use vstd::string::StrSliceExecFns;
use vstd::string::StringExecFns;

verus! {

/// One scene file.
pub struct Scene<'a> {
    /// The file's name with its extension.
    pub full_name: String,
    /// The file's stem.
    pub name: String,
    /// Where the file lies.
    pub path: PathBuf,
    /// The whole text of the file.
    pub contents: String,
    /// The script that the scene refers to, if it refers to a known one.
    pub script: Option<&'a Script>,
    /// Whether the scene has more than one node.
    pub has_children: bool,
    /// The type of the master node, which is the first node.
    pub gd_type: String,
}

/// A scene as the contracts see it.
pub struct SceneView {
    pub full_name: Seq<char>,
    pub name: Seq<char>,
    pub path: PathBuf,
    pub contents: Seq<char>,
    pub script: Option<ScriptView>,
    pub has_children: bool,
    pub gd_type: Seq<char>,
}

impl<'a> View for Scene<'a> {
    type V = SceneView;

    open spec fn view(&self) -> SceneView {
        SceneView {
            full_name: self.full_name@,
            name: self.name@,
            path: self.path,
            contents: self.contents@,
            script: match self.script {
                Some(s) => Some(s@),
                None => None,
            },
            has_children: self.has_children,
            gd_type: self.gd_type@,
        }
    }
}

/// How a line begins that names the scene's script, up to the opening quote
/// of the script's resource path.
pub open spec fn script_resource_prefix() -> Seq<char> {
    "[ext_resource type=\"Script\" path=\""@
}

/// How a node entry begins.
pub open spec fn node_prefix() -> Seq<char> {
    "[node "@
}

/// The field of a node entry that holds the node's type, up to the opening
/// quote.
pub open spec fn type_field() -> Seq<char> {
    "type=\""@
}

/// The views of a sequence of scripts.
pub open spec fn script_views(scripts: Seq<Script>) -> Seq<ScriptView> {
    Seq::new(scripts.len(), |i: int| scripts[i]@)
}

/// The index of the first line of `ls` that begins with `p`, or the number of
/// lines when none does.
pub open spec fn first_with_prefix(ls: Seq<Seq<char>>, p: Seq<char>) -> nat
    decreases ls.len(),
{
    if ls.len() == 0 || p.is_prefix_of(ls.first()) {
        0
    } else {
        1 + first_with_prefix(ls.drop_first(), p)
    }
}

/// The number of lines of `ls` that begin with `p`.
pub open spec fn count_with_prefix(ls: Seq<Seq<char>>, p: Seq<char>) -> nat
    decreases ls.len(),
{
    if ls.len() == 0 {
        0
    } else {
        count_with_prefix(ls.drop_last(), p) + if p.is_prefix_of(ls.last()) {
            1nat
        } else {
            0nat
        }
    }
}

/// The index of the first of `scripts` to which scenes refer as `gd_path`, or
/// the number of scripts when there is none.
pub open spec fn first_with_gd_path(scripts: Seq<ScriptView>, gd_path: Seq<char>) -> nat
    decreases scripts.len(),
{
    if scripts.len() == 0 || scripts.first().gd_path == gd_path {
        0
    } else {
        1 + first_with_gd_path(scripts.drop_first(), gd_path)
    }
}

/// The text of `s` before its first double quote, if it holds one.
pub open spec fn quoted(s: Seq<char>) -> Option<Seq<char>> {
    if has_char(s, '"') {
        Some(s.take(position(s, '"') as int))
    } else {
        None
    }
}

/// The resource path of the script that the lines `ls` name: that of the
/// first line that begins like a script resource.  It is a failure if that
/// line does not close the quote.
pub open spec fn script_reference(ls: Seq<Seq<char>>) -> Result<Option<Seq<char>>, BuildErrorKind> {
    let i = first_with_prefix(ls, script_resource_prefix()) as int;
    if i >= ls.len() {
        Ok(None)
    } else {
        match quoted(ls[i].skip(script_resource_prefix().len() as int)) {
            Some(path) => Ok(Some(path)),
            None => Err(BuildErrorKind::UnterminatedScriptPath),
        }
    }
}

/// The type that the node entry `line` names: the text between the first
/// `type="` and the next double quote.
pub open spec fn node_type_of(line: Seq<char>) -> Result<Seq<char>, BuildErrorKind> {
    match find(line, type_field()) {
        None => Err(BuildErrorKind::NoMasterType),
        Some(i) => match quoted(line.skip(i + type_field().len())) {
            Some(t) => Ok(t),
            None => Err(BuildErrorKind::UnterminatedMasterType),
        },
    }
}

/// The type of the master node of the lines `ls`, which is their first node
/// entry.
pub open spec fn master_type(ls: Seq<Seq<char>>) -> Result<Seq<char>, BuildErrorKind> {
    let i = first_with_prefix(ls, node_prefix()) as int;
    if i >= ls.len() {
        Err(BuildErrorKind::NoMasterNode)
    } else {
        node_type_of(ls[i])
    }
}

/// The first of `scripts` to which scenes refer as `gd_path`.
pub open spec fn script_at(scripts: Seq<ScriptView>, gd_path: Seq<char>) -> Option<ScriptView> {
    let i = first_with_gd_path(scripts, gd_path) as int;
    if i < scripts.len() {
        Some(scripts[i])
    } else {
        None
    }
}

/// The script that a scene is linked to: the one known under the resource
/// path that the scene names, if it names one.
pub open spec fn linked(scripts: Seq<ScriptView>, reference: Option<Seq<char>>) -> Option<
    ScriptView,
> {
    match reference {
        Some(gd_path) => script_at(scripts, gd_path),
        None => None,
    }
}

/// The scene that is built from a file, given the scripts that are known, or
/// the reason why none is.
pub open spec fn scene_built(
    path: PathBuf,
    full_name: Seq<char>,
    name: Seq<char>,
    contents: Seq<char>,
    scripts: Seq<ScriptView>,
) -> Result<SceneView, BuildErrorKind> {
    let ls = lines(contents);
    match script_reference(ls) {
        Err(e) => Err(e),
        Ok(reference) => match master_type(ls) {
            Err(e) => Err(e),
            Ok(gd_type) => Ok(
                SceneView {
                    full_name,
                    name,
                    path,
                    contents,
                    script: linked(scripts, reference),
                    has_children: count_with_prefix(ls, node_prefix()) > 1,
                    gd_type,
                },
            ),
        },
    }
}

/// Whether `r` is the outcome of building the scene of the file at `path`
/// that is called `full_name` and has the stem `name`, among `scripts`: the
/// scene that is built, or the failure, which names the file.
pub open spec fn scene_assembled(
    path: PathBuf,
    full_name: Seq<char>,
    name: Seq<char>,
    contents: Seq<char>,
    scripts: Seq<ScriptView>,
    r: Result<Scene, BuildError>,
) -> bool {
    match r {
        Ok(s) => scene_built(path, full_name, name, contents, scripts) == Ok::<
            SceneView,
            BuildErrorKind,
        >(s@),
        Err(e) => scene_built(path, full_name, name, contents, scripts) == Err::<
            SceneView,
            BuildErrorKind,
        >(e.kind) && e@ == failure(full_name, e.kind),
    }
}

/// Whether `r` is the outcome of building the scene of the file at `path`
/// among `scripts`: a failure that shows the path where the path has no file
/// name or no stem, and else the outcome of the build for the name and the
/// stem of the path.
pub open spec fn scene_outcome(
    path: PathBuf,
    contents: Seq<char>,
    scripts: Seq<ScriptView>,
    r: Result<Scene, BuildError>,
) -> bool {
    match (file_name_text(path), file_stem_text(path)) {
        (None, _) => r matches Err(e) && e@ == failure(
            path_display_text(path),
            BuildErrorKind::NoFileName,
        ),
        (Some(_), None) => r matches Err(e) && e@ == failure(
            path_display_text(path),
            BuildErrorKind::NoFileStem,
        ),
        (Some(full_name), Some(name)) => scene_assembled(
            path,
            full_name,
            name,
            contents,
            scripts,
            r,
        ),
    }
}

/// The index of the first line of `t` that begins with `p`.
fn first_line_with(t: &[char], ls: &Vec<(usize, usize)>, p: &[char]) -> (i: usize)
    requires
        in_bounds(t@, ls@),
    ensures
        i == first_with_prefix(pieces(t@, ls@), p@),
        i <= ls.len(),
        i < ls.len() ==> p@.is_prefix_of(pieces(t@, ls@)[i as int]),
{
    let ghost all = pieces(t@, ls@);
    let mut i: usize = 0;
    assert(all.skip(0) =~= all);
    while i < ls.len()
        invariant
            i <= ls.len(),
            in_bounds(t@, ls@),
            all == pieces(t@, ls@),
            first_with_prefix(all, p@) == i + first_with_prefix(all.skip(i as int), p@),
        decreases ls.len() - i,
    {
        let (from, to) = ls[i];
        let line = slice_subrange(t, from, to);
        if starts_with(line, p) {
            return i;
        }
        assert(all.skip(i as int).drop_first() =~= all.skip(i + 1));
        i += 1;
    }
    i
}

/// The number of lines of `t` that begin with `p`.
fn count_lines_with(t: &[char], ls: &Vec<(usize, usize)>, p: &[char]) -> (n: usize)
    requires
        in_bounds(t@, ls@),
    ensures
        n == count_with_prefix(pieces(t@, ls@), p@),
{
    let ghost all = pieces(t@, ls@);
    let mut n: usize = 0;
    let mut i: usize = 0;
    while i < ls.len()
        invariant
            i <= ls.len(),
            n <= i,
            in_bounds(t@, ls@),
            all == pieces(t@, ls@),
            n == count_with_prefix(all.take(i as int), p@),
        decreases ls.len() - i,
    {
        let (from, to) = ls[i];
        let line = slice_subrange(t, from, to);
        assert(all.take(i + 1).drop_last() =~= all.take(i as int));
        if starts_with(line, p) {
            n += 1;
        }
        i += 1;
    }
    assert(all.take(i as int) =~= all);
    n
}

/// The range of `line` from `from` up to the first double quote after it.
fn quoted_bounds(line: &[char], from: usize) -> (r: Option<(usize, usize)>)
    requires
        from <= line@.len(),
    ensures
        match r {
            Some(b) => from == b.0 <= b.1 <= line@.len() && quoted(line@.skip(from as int))
                == Some(line@.subrange(b.0 as int, b.1 as int)),
            None => quoted(line@.skip(from as int)) is None,
        },
{
    let rest = slice_subrange(line, from, line.len());
    let quote: usize = position_of(rest, '"');
    if quote >= rest.len() {
        None
    } else {
        Some((from, from + quote))
    }
}

/// The range of the resource path of the script that the text `t` names,
/// where `ls` are the ranges of its lines.
fn script_reference_bounds(t: &[char], ls: &Vec<(usize, usize)>) -> (r: Result<
    Option<(usize, usize)>,
    BuildErrorKind,
>)
    requires
        in_bounds(t@, ls@),
    ensures
        match r {
            Ok(Some(b)) => b.0 <= b.1 <= t@.len() && script_reference(pieces(t@, ls@)) == Ok::<
                Option<Seq<char>>,
                BuildErrorKind,
            >(Some(t@.subrange(b.0 as int, b.1 as int))),
            Ok(None) => script_reference(pieces(t@, ls@)) == Ok::<
                Option<Seq<char>>,
                BuildErrorKind,
            >(None),
            Err(e) => script_reference(pieces(t@, ls@)) == Err::<Option<Seq<char>>, BuildErrorKind>(
                e,
            ),
        },
{
    let resource = chars_of("[ext_resource type=\"Script\" path=\"");
    let at: usize = first_line_with(t, ls, resource.as_slice());
    if at >= ls.len() {
        return Ok(None);
    }
    let (from, to) = ls[at];
    let line = slice_subrange(t, from, to);
    match quoted_bounds(line, resource.len()) {
        None => Err(BuildErrorKind::UnterminatedScriptPath),
        Some((a, z)) => {
            assert(line@.subrange(a as int, z as int) =~= t@.subrange(from + a, from + z));
            Ok(Some((from + a, from + z)))
        },
    }
}

/// The range of the type of the master node of the text `t`, where `ls` are
/// the ranges of its lines.
fn master_type_bounds(t: &[char], ls: &Vec<(usize, usize)>) -> (r: Result<
    (usize, usize),
    BuildErrorKind,
>)
    requires
        in_bounds(t@, ls@),
    ensures
        match r {
            Ok(b) => b.0 <= b.1 <= t@.len() && master_type(pieces(t@, ls@)) == Ok::<
                Seq<char>,
                BuildErrorKind,
            >(t@.subrange(b.0 as int, b.1 as int)),
            Err(e) => master_type(pieces(t@, ls@)) == Err::<Seq<char>, BuildErrorKind>(e),
        },
{
    let node = chars_of("[node ");
    let field = chars_of("type=\"");
    let master: usize = first_line_with(t, ls, node.as_slice());
    if master >= ls.len() {
        return Err(BuildErrorKind::NoMasterNode);
    }
    let (from, to) = ls[master];
    let line = slice_subrange(t, from, to);
    match find_first(line, field.as_slice()) {
        None => Err(BuildErrorKind::NoMasterType),
        Some(i) => match quoted_bounds(line, i + field.len()) {
            None => Err(BuildErrorKind::UnterminatedMasterType),
            Some((a, z)) => {
                assert(line@.subrange(a as int, z as int) =~= t@.subrange(from + a, from + z));
                Ok((from + a, from + z))
            },
        },
    }
}

/// The first of `scripts` to which scenes refer as `gd_path`.
pub fn find_script<'a>(scripts: &'a Vec<Script>, gd_path: &String) -> (r: Option<&'a Script>)
    ensures
        match r {
            Some(s) => script_at(script_views(scripts@), gd_path@) == Some(s@) && exists|i: int|
                0 <= i < scripts.len() && *s == scripts[i],
            None => script_at(script_views(scripts@), gd_path@) is None,
        },
{
    let ghost all = script_views(scripts@);
    let mut i: usize = 0;
    assert(all.skip(0) =~= all);
    while i < scripts.len()
        invariant
            i <= scripts.len(),
            all == script_views(scripts@),
            first_with_gd_path(all, gd_path@) == i + first_with_gd_path(
                all.skip(i as int),
                gd_path@,
            ),
        decreases scripts.len() - i,
    {
        if scripts[i].gd_path == *gd_path {
            return Some(&scripts[i]);
        }
        assert(all.skip(i as int).drop_first() =~= all.skip(i + 1));
        i += 1;
    }
    None
}

impl<'a> Scene<'a> {
    /// Builds the scene of the file at `path`, whose text is `contents`,
    /// among the scripts `scripts`.
    ///
    /// The file's name and stem are those of `path`; a path without them is
    /// a failure.  Given those, the outcome is that of [`Scene::assemble`].
    pub fn new(path: PathBuf, contents: String, scripts: &'a Vec<Script>) -> (r: Result<
        Scene<'a>,
        BuildError,
    >)
        ensures
            scene_outcome(path, contents@, script_views(scripts@), r),
            r matches Ok(s) ==> s@.path == path && s@.contents == contents@ && (s.script matches Some(
                linked,
            ) ==> exists|i: int| 0 <= i < scripts.len() && *linked == scripts[i]),
            script_reference(lines(contents@)) is Err || master_type(lines(contents@)) is Err
                ==> r is Err,
    {
        let full_name = match file_name_of(&path) {
            Some(name) => name,
            None => {
                return Err(BuildError::new(path_text(&path), BuildErrorKind::NoFileName));
            },
        };
        let name = match file_stem_of(&path) {
            Some(stem) => stem,
            None => {
                return Err(BuildError::new(path_text(&path), BuildErrorKind::NoFileStem));
            },
        };
        let ghost full_name_view = full_name@;
        let ghost name_view = name@;
        let r = Scene::assemble(path, full_name, name, contents, scripts);
        assert(scene_assembled(
            path,
            full_name_view,
            name_view,
            contents@,
            script_views(scripts@),
            r,
        ));
        r
    }

    /// Builds the scene of the file at `path` that is called `full_name` and
    /// has the stem `name`.
    ///
    /// The scene is linked to the first of `scripts` that is known under the
    /// resource path of the scene's script resource, if the text names one
    /// and such a script exists.  The type of the master node is that of the
    /// first node entry, and the scene has children if there is a second
    /// one.
    pub fn assemble(
        path: PathBuf,
        full_name: String,
        name: String,
        contents: String,
        scripts: &'a Vec<Script>,
    ) -> (r: Result<Scene<'a>, BuildError>)
        ensures
            scene_assembled(path, full_name@, name@, contents@, script_views(scripts@), r),
            r matches Ok(s) ==> (s.script matches Some(linked) ==> exists|i: int|
                0 <= i < scripts.len() && *linked == scripts[i]),
    {
        let text = chars_of(contents.as_str());
        let t = text.as_slice();
        let ls = line_bounds(t);
        let reference = match script_reference_bounds(t, &ls) {
            Ok(reference) => reference,
            Err(kind) => {
                return Err(BuildError::new(full_name, kind));
            },
        };
        let type_bounds = match master_type_bounds(t, &ls) {
            Ok(bounds) => bounds,
            Err(kind) => {
                return Err(BuildError::new(full_name, kind));
            },
        };
        let node = chars_of("[node ");
        let nodes: usize = count_lines_with(t, &ls, node.as_slice());
        let script: Option<&'a Script> = match reference {
            Some((from, to)) => {
                let gd_path = String::from_str(contents.as_str().substring_char(from, to));
                find_script(scripts, &gd_path)
            },
            None => None,
        };
        let gd_type = String::from_str(
            contents.as_str().substring_char(type_bounds.0, type_bounds.1),
        );
        Ok(Scene { full_name, name, path, contents, script, has_children: nodes > 1, gd_type })
    }
}

} // verus!
