//! Scripts: how a script file is classified by its name, what its header
//! lines declare, and how its model is built.

use crate::header::{header_bounds, header_of, Declared};
use crate::paths::{
    file_name_of, file_name_text, file_stem_of, file_stem_text, path_display_text, path_text,
};
use crate::problems::{failure, BuildError, BuildErrorKind};
use crate::text::{
    chars_of, cut, in_bounds, is_range, line_bounds, lines, pieces, slice_of, string_option_view,
};
use std::path::PathBuf;
use vstd::prelude::*;
use vstd::slice::slice_subrange;
use vstd::string::StrSliceExecFns;
use vstd::string::StringExecFns;

verus! {

/// The three kinds of script.
#[derive(Debug, Clone, Copy, PartialEq, Eq, Structural)]
pub enum ScriptKind {
    /// Logic that can sit on the master node of a scene.
    Behaviour,
    /// Data only; the file's name begins with `v_`.
    Value,
    /// A helper that is never a class of its own; the file's name begins with
    /// `r_`.
    Reference,
}

/// One script file.
#[derive(Debug)]
pub struct Script {
    /// The file's name with its extension.
    pub full_name: String,
    /// The logical name: the file's stem, without the prefix of its kind.
    pub name: String,
    /// The whole text of the file.
    pub contents: String,
    /// Where the file lies.
    pub path: PathBuf,
    /// The resource path by which scenes refer to the script.
    pub gd_path: String,
    /// The kind, as the file's name gives it.
    pub kind: ScriptKind,
    /// The class name that the text declares.
    pub class_name: Option<String>,
    /// The inheritance target that the text declares.
    pub extends: Option<String>,
}

/// A script as the contracts see it.
pub struct ScriptView {
    pub full_name: Seq<char>,
    pub name: Seq<char>,
    pub contents: Seq<char>,
    pub path: PathBuf,
    pub gd_path: Seq<char>,
    pub kind: ScriptKind,
    pub class_name: Option<Seq<char>>,
    pub extends: Option<Seq<char>>,
}

impl View for Script {
    type V = ScriptView;

    open spec fn view(&self) -> ScriptView {
        ScriptView {
            full_name: self.full_name@,
            name: self.name@,
            contents: self.contents@,
            path: self.path,
            gd_path: self.gd_path@,
            kind: self.kind,
            class_name: string_option_view(self.class_name),
            extends: string_option_view(self.extends),
        }
    }
}

/// The kind of the script whose file is called `full_name`: the first two
/// characters decide.
pub open spec fn kind_of(full_name: Seq<char>) -> ScriptKind {
    if full_name.len() >= 2 && full_name[0] == 'v' && full_name[1] == '_' {
        ScriptKind::Value
    } else if full_name.len() >= 2 && full_name[0] == 'r' && full_name[1] == '_' {
        ScriptKind::Reference
    } else {
        ScriptKind::Behaviour
    }
}

/// The logical name of a script of the given kind whose file has the stem
/// `stem`: the stem itself for a behaviour script, the stem without its first
/// two characters for the others.  There is none where the stem is too short
/// to hold the prefix.
pub open spec fn logical_name(kind: ScriptKind, stem: Seq<char>) -> Option<Seq<char>> {
    match kind {
        ScriptKind::Behaviour => Some(stem),
        _ => if stem.len() >= 2 {
            Some(stem.skip(2))
        } else {
            None
        },
    }
}

/// What is declared once `line` has been read after the lines that declared
/// `so_far`.  A second class name and a second inheritance target are
/// failures, and so is a malformed line.
pub open spec fn declare(so_far: Declared, line: Seq<char>) -> Result<Declared, BuildErrorKind> {
    match header_of(line) {
        Err(e) => Err(BuildErrorKind::Header(e)),
        Ok(d) => if d.0 is Some && so_far.0 is Some {
            Err(BuildErrorKind::MultipleClassNames)
        } else if d.1 is Some && so_far.1 is Some {
            Err(BuildErrorKind::MultipleExtends)
        } else {
            Ok(
                (
                    if d.0 is Some {
                        d.0
                    } else {
                        so_far.0
                    },
                    if d.1 is Some {
                        d.1
                    } else {
                        so_far.1
                    },
                ),
            )
        },
    }
}

/// What the lines `ls` declare, read in order.  The first failure ends the
/// reading.
pub open spec fn declarations(ls: Seq<Seq<char>>) -> Result<Declared, BuildErrorKind>
    decreases ls.len(),
{
    if ls.len() == 0 {
        Ok((None, None))
    } else {
        match declarations(ls.drop_last()) {
            Err(e) => Err(e),
            Ok(so_far) => declare(so_far, ls.last()),
        }
    }
}

/// The sequence that holds `o` if there is one, and nothing else.
pub open spec fn zero_or_one(o: Option<Seq<char>>) -> Seq<Seq<char>> {
    match o {
        Some(s) => seq![s],
        None => Seq::empty(),
    }
}

/// The class name that `line` declares, if it is a header that declares one.
pub open spec fn class_name_of(line: Seq<char>) -> Option<Seq<char>> {
    match header_of(line) {
        Ok(d) => d.0,
        Err(_) => None,
    }
}

/// The inheritance target that `line` declares, if it is a header that
/// declares one.
pub open spec fn extends_of(line: Seq<char>) -> Option<Seq<char>> {
    match header_of(line) {
        Ok(d) => d.1,
        Err(_) => None,
    }
}

/// All class names that the lines `ls` declare, in order.
pub open spec fn class_names(ls: Seq<Seq<char>>) -> Seq<Seq<char>>
    decreases ls.len(),
{
    if ls.len() == 0 {
        Seq::empty()
    } else {
        class_names(ls.drop_last()) + zero_or_one(class_name_of(ls.last()))
    }
}

/// All inheritance targets that the lines `ls` declare, in order.
pub open spec fn extends_targets(ls: Seq<Seq<char>>) -> Seq<Seq<char>>
    decreases ls.len(),
{
    if ls.len() == 0 {
        Seq::empty()
    } else {
        extends_targets(ls.drop_last()) + zero_or_one(extends_of(ls.last()))
    }
}

/// Whether every line of `ls` is a well-formed header or no header at all.
pub open spec fn all_lines_parse(ls: Seq<Seq<char>>) -> bool {
    forall|i: int| 0 <= i < ls.len() ==> (#[trigger] header_of(ls[i])) is Ok
}

/// The script that is built from a file, or the reason why none is.
pub open spec fn script_built(
    path: PathBuf,
    full_name: Seq<char>,
    stem: Seq<char>,
    gd_path: Seq<char>,
    contents: Seq<char>,
) -> Result<ScriptView, BuildErrorKind> {
    let kind = kind_of(full_name);
    match logical_name(kind, stem) {
        None => Err(BuildErrorKind::StemTooShort),
        Some(name) => match declarations(lines(contents)) {
            Err(e) => Err(e),
            Ok(d) => Ok(
                ScriptView {
                    full_name,
                    name,
                    contents,
                    path,
                    gd_path,
                    kind,
                    class_name: d.0,
                    extends: d.1,
                },
            ),
        },
    }
}

/// Whether `r` is the outcome of building the script of the file at `path`
/// that is called `full_name` and has the stem `stem`: the script that is
/// built, or the failure, which names the file.
pub open spec fn script_assembled(
    path: PathBuf,
    full_name: Seq<char>,
    stem: Seq<char>,
    gd_path: Seq<char>,
    contents: Seq<char>,
    r: Result<Script, BuildError>,
) -> bool {
    match r {
        Ok(s) => script_built(path, full_name, stem, gd_path, contents) == Ok::<
            ScriptView,
            BuildErrorKind,
        >(s@),
        Err(e) => script_built(path, full_name, stem, gd_path, contents) == Err::<
            ScriptView,
            BuildErrorKind,
        >(e.kind) && e@ == failure(full_name, e.kind),
    }
}

/// Whether `r` is the outcome of building the script of the file at `path`:
/// a failure that shows the path where the path has no file name or no stem,
/// and else the outcome of the build for the name and the stem of the path.
pub open spec fn script_outcome(
    path: PathBuf,
    gd_path: Seq<char>,
    contents: Seq<char>,
    r: Result<Script, BuildError>,
) -> bool {
    match (file_name_text(path), file_stem_text(path)) {
        (None, _) => r matches Err(e) && e@ == failure(
            path_display_text(path),
            BuildErrorKind::NoFileName,
        ),
        (Some(_), None) => r matches Err(e) && e@ == failure(
            path_display_text(path),
            BuildErrorKind::NoFileStem,
        ),
        (Some(full_name), Some(stem)) => script_assembled(
            path,
            full_name,
            stem,
            gd_path,
            contents,
            r,
        ),
    }
}

/// Whether a script is what its file's name and text make it: the kind
/// follows from the name, and the class name and the inheritance target are
/// those that the text declares.
pub open spec fn well_formed(s: ScriptView) -> bool {
    &&& s.kind == kind_of(s.full_name)
    &&& declarations(lines(s.contents)) == Ok::<Declared, BuildErrorKind>((s.class_name, s.extends))
}

/// A failure among the first `i` lines is the failure of the whole text.
pub proof fn lemma_failure_stays(ls: Seq<Seq<char>>, i: int)
    requires
        0 <= i <= ls.len(),
        declarations(ls.take(i)) is Err,
    ensures
        declarations(ls) == declarations(ls.take(i)),
    decreases ls.len(),
{
    if i == ls.len() {
        assert(ls.take(i) =~= ls);
    } else {
        assert(ls.drop_last().take(i) =~= ls.take(i));
        lemma_failure_stays(ls.drop_last(), i);
    }
}

/// An index pair of a part of a text, moved to the whole text.
fn moved(b: Option<(usize, usize)>, by: usize) -> (r: Option<(usize, usize)>)
    requires
        b matches Some(p) ==> p.1 + by <= usize::MAX && p.0 <= p.1,
    ensures
        match b {
            Some(p) => r == Some(((p.0 + by) as usize, (p.1 + by) as usize)),
            None => r is None,
        },
{
    match b {
        Some((from, to)) => Some((from + by, to + by)),
        None => None,
    }
}

/// Reads the header lines of the text `t` and gives what they declare as
/// ranges of `t`.
pub fn declared_bounds(t: &[char]) -> (r: Result<
    (Option<(usize, usize)>, Option<(usize, usize)>),
    BuildErrorKind,
>)
    ensures
        match r {
            Ok(d) => is_range(t@, d.0) && is_range(t@, d.1) && declarations(lines(t@)) == Ok::<
                Declared,
                BuildErrorKind,
            >((cut(t@, d.0), cut(t@, d.1))),
            Err(e) => declarations(lines(t@)) == Err::<Declared, BuildErrorKind>(e),
        },
{
    let ls = line_bounds(t);
    let ghost all = lines(t@);
    let mut class_name: Option<(usize, usize)> = None;
    let mut extends: Option<(usize, usize)> = None;
    let mut i: usize = 0;
    while i < ls.len()
        invariant
            i <= ls.len(),
            all == lines(t@),
            in_bounds(t@, ls@),
            pieces(t@, ls@) == all,
            is_range(t@, class_name),
            is_range(t@, extends),
            declarations(all.take(i as int)) == Ok::<Declared, BuildErrorKind>(
                (cut(t@, class_name), cut(t@, extends)),
            ),
        decreases ls.len() - i,
    {
        let (from, to) = ls[i];
        let line = slice_subrange(t, from, to);
        assert(all.take(i + 1).drop_last() =~= all.take(i as int));
        match header_bounds(line) {
            Err(e) => {
                proof {
                    lemma_failure_stays(all, i + 1);
                }
                return Err(BuildErrorKind::Header(e));
            },
            Ok((c, e)) => {
                proof {
                    if let Some(p) = c {
                        assert(line@.subrange(p.0 as int, p.1 as int) =~= t@.subrange(
                            p.0 + from,
                            p.1 + from,
                        ));
                    }
                    if let Some(p) = e {
                        assert(line@.subrange(p.0 as int, p.1 as int) =~= t@.subrange(
                            p.0 + from,
                            p.1 + from,
                        ));
                    }
                }
                if c.is_some() {
                    if class_name.is_some() {
                        proof {
                            lemma_failure_stays(all, i + 1);
                        }
                        return Err(BuildErrorKind::MultipleClassNames);
                    }
                    class_name = moved(c, from);
                }
                if e.is_some() {
                    if extends.is_some() {
                        proof {
                            lemma_failure_stays(all, i + 1);
                        }
                        return Err(BuildErrorKind::MultipleExtends);
                    }
                    extends = moved(e, from);
                }
            },
        }
        i += 1;
    }
    assert(all.take(i as int) =~= all);
    Ok((class_name, extends))
}

/// An owned copy of an optional piece of text.
fn owned(s: Option<&str>) -> (r: Option<String>)
    ensures
        match s {
            Some(t) => r matches Some(o) && o@ == t@,
            None => r is None,
        },
{
    match s {
        Some(t) => Some(String::from_str(t)),
        None => None,
    }
}

impl ScriptKind {
    /// The kind of the script whose file is called `full_name`.
    pub fn of_file_name(full_name: &str) -> (kind: ScriptKind)
        ensures
            kind == kind_of(full_name@),
    {
        let t = chars_of(full_name);
        if t.len() >= 2 && t[0] == 'v' && t[1] == '_' {
            ScriptKind::Value
        } else if t.len() >= 2 && t[0] == 'r' && t[1] == '_' {
            ScriptKind::Reference
        } else {
            ScriptKind::Behaviour
        }
    }
}

impl Script {
    /// Builds the script of the file at `path`, whose text is `contents` and
    /// to which scenes refer as `gd_path`.
    ///
    /// The file's name and stem are those of `path`; a path without them is
    /// a failure.  Given those, the outcome is that of [`Script::assemble`].
    pub fn new(path: PathBuf, gd_path: String, contents: String) -> (r: Result<Script, BuildError>)
        ensures
            script_outcome(path, gd_path@, contents@, r),
            r matches Ok(s) ==> well_formed(s@) && s@.path == path && s@.gd_path == gd_path@
                && s@.contents == contents@,
            declarations(lines(contents@)) is Err ==> r is Err,
    {
        let full_name = match file_name_of(&path) {
            Some(name) => name,
            None => {
                return Err(BuildError::new(path_text(&path), BuildErrorKind::NoFileName));
            },
        };
        let stem = match file_stem_of(&path) {
            Some(stem) => stem,
            None => {
                return Err(BuildError::new(path_text(&path), BuildErrorKind::NoFileStem));
            },
        };
        let ghost name_view = full_name@;
        let ghost stem_view = stem@;
        let r = Script::assemble(path, full_name, stem, gd_path, contents);
        assert(script_assembled(path, name_view, stem_view, gd_path@, contents@, r));
        r
    }

    /// Builds the script of the file at `path` that is called `full_name` and
    /// has the stem `stem`.
    ///
    /// The kind follows from the first two characters of `full_name`, the
    /// logical name from the kind and `stem`, the class name and the
    /// inheritance target from the header lines of `contents`.  A script is
    /// built exactly if the stem can hold the prefix of the kind, every line
    /// parses, and at most one class name and one inheritance target are
    /// declared.
    pub fn assemble(
        path: PathBuf,
        full_name: String,
        stem: String,
        gd_path: String,
        contents: String,
    ) -> (r: Result<Script, BuildError>)
        ensures
            script_assembled(path, full_name@, stem@, gd_path@, contents@, r),
            r matches Ok(s) ==> well_formed(s@),
    {
        let kind = ScriptKind::of_file_name(full_name.as_str());
        let name: String = match kind {
            ScriptKind::Behaviour => stem,
            _ => {
                let n: usize = stem.as_str().unicode_len();
                if n < 2 {
                    return Err(BuildError::new(full_name, BuildErrorKind::StemTooShort));
                }
                String::from_str(stem.as_str().substring_char(2, n))
            },
        };
        let t = chars_of(contents.as_str());
        match declared_bounds(t.as_slice()) {
            Err(kind) => Err(BuildError::new(full_name, kind)),
            Ok((c, e)) => {
                let class_name = owned(slice_of(contents.as_str(), c));
                let extends = owned(slice_of(contents.as_str(), e));
                Ok(Script { full_name, name, contents, path, gd_path, kind, class_name, extends })
            },
        }
    }
}

} // verus!
