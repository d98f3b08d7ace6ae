//! What can be wrong with a file: failures to build its model, and
//! violations of the rules.  Each comes with the message that reports it.

use crate::header::HeaderError;
use vstd::prelude::*;
use vstd::string::StringExecFns;

verus! {

/// Why no model could be built from a file.
#[derive(Debug, Clone, Copy, PartialEq, Eq, Structural)]
pub enum BuildErrorKind {
    /// The file could not be read.
    Unreadable,
    /// The path has no final component.
    NoFileName,
    /// The path has no file stem.
    NoFileStem,
    /// The stem of a value or reference script is shorter than its prefix.
    StemTooShort,
    /// A header line is malformed.
    Header(HeaderError),
    /// A second line declares a class name.
    MultipleClassNames,
    /// A second line declares an inheritance target.
    MultipleExtends,
    /// The path of the script resource has no closing quote.
    UnterminatedScriptPath,
    /// The master node names no type.
    NoMasterType,
    /// The type of the master node has no closing quote.
    UnterminatedMasterType,
    /// The scene has no node.
    NoMasterNode,
}

/// A failure to build the model of one file.
#[derive(Debug)]
pub struct BuildError {
    /// The file: its name, or its whole path where no name was read from it.
    pub file: String,
    /// What went wrong.
    pub kind: BuildErrorKind,
    /// Why the file could not be read; empty for every other kind of
    /// failure.
    pub detail: String,
}

/// A failure as the contracts see it.
pub struct BuildErrorView {
    pub file: Seq<char>,
    pub kind: BuildErrorKind,
    pub detail: Seq<char>,
}

impl View for BuildError {
    type V = BuildErrorView;

    open spec fn view(&self) -> BuildErrorView {
        BuildErrorView { file: self.file@, kind: self.kind, detail: self.detail@ }
    }
}

/// The failure of the given kind for the file called `file`, with nothing to
/// add.
pub open spec fn failure(file: Seq<char>, kind: BuildErrorKind) -> BuildErrorView {
    BuildErrorView { file, kind, detail: Seq::empty() }
}

/// The failure to read the file that is shown as `file`, for the reason
/// `detail`.
pub open spec fn unreadable(file: Seq<char>, detail: Seq<char>) -> BuildErrorView {
    BuildErrorView { file, kind: BuildErrorKind::Unreadable, detail }
}

/// A rule that a script breaks.
#[derive(Debug, Clone, Copy, PartialEq, Eq, Structural)]
pub enum ScriptProblem {
    /// The name does not begin with its own uppercase form, or holds an
    /// underscore.
    NameNotUpperCamelCase,
    /// The text holds a `$`.
    NodePathShorthand,
    /// A variable is declared with `=` before any `:`.
    UntypedVariable,
    /// No class name is declared.
    NoClassName,
    /// The declared class name is not the script's name.
    ClassNameMismatch,
    /// A reference script declares a class name.
    ReferenceHasClassName,
    /// No inheritance target is declared.
    ExtendsNothing,
    /// The inheritance target is not `Node`.
    ExtendsOther,
    /// A line is neither a header, a comment nor an exported variable.
    NonExportStatement,
}

/// A rule that a scene breaks.
#[derive(Debug, Clone, Copy, PartialEq, Eq, Structural)]
pub enum SceneProblem {
    /// The scene has child nodes and a script on its master node.
    ChildrenAndScript,
    /// The master node is not a `Node`, `Node2D` or `Node3D`.
    MasterTypeNotNode,
    /// A behaviour or value script sits on a master node that is not a plain
    /// `Node`.
    ScriptOnTypedMaster,
    /// A reference script sits on the master node.
    ReferenceScriptOnMaster,
}

/// What the message of a header error says after the file's name.
pub open spec fn header_error_text(e: HeaderError) -> Seq<char> {
    match e {
        HeaderError::WordAfterClassName => " there was another word after the class_name but no extends"@,
        HeaderError::WordAfterExtends => " there was another word after the extends"@,
    }
}

/// The message of a build failure.  It names the file.
pub open spec fn build_error_text(e: BuildErrorView) -> Seq<char> {
    let file = e.file;
    match e.kind {
        BuildErrorKind::Unreadable => file + " could not be read: "@ + e.detail,
        BuildErrorKind::NoFileName => "no file name for file "@ + file,
        BuildErrorKind::NoFileStem => "no file stem for file "@ + file,
        BuildErrorKind::StemTooShort => file + " name is shorter than its prefix"@,
        BuildErrorKind::Header(e) => file + header_error_text(e),
        BuildErrorKind::MultipleClassNames => file + " multiple class_names"@,
        BuildErrorKind::MultipleExtends => file + " multiple extends"@,
        BuildErrorKind::UnterminatedScriptPath => file + " no ending \" on script ext_resource path"@,
        BuildErrorKind::NoMasterType => file + " no type on master node"@,
        BuildErrorKind::UnterminatedMasterType => file + " can't find end of type on master node"@,
        BuildErrorKind::NoMasterNode => file + " no master node???"@,
    }
}

/// What the message of a script problem says after the file's name.
pub open spec fn script_problem_text(p: ScriptProblem) -> Seq<char> {
    match p {
        ScriptProblem::NameNotUpperCamelCase => " name not upper camel case"@,
        ScriptProblem::NodePathShorthand => " contains $"@,
        ScriptProblem::UntypedVariable => " doesn't use static typing properly"@,
        ScriptProblem::NoClassName => " doesn't have a class_name"@,
        ScriptProblem::ClassNameMismatch => " script name and class_name don't match"@,
        ScriptProblem::ReferenceHasClassName => " reference script has class_name"@,
        ScriptProblem::ExtendsNothing => " doesn't extend anything (should extend Node)"@,
        ScriptProblem::ExtendsOther => " doesn't extend Node"@,
        ScriptProblem::NonExportStatement => " contains a non @export var statement"@,
    }
}

/// What the message of a scene problem says after the file's name.
pub open spec fn scene_problem_text(p: SceneProblem) -> Seq<char> {
    match p {
        SceneProblem::ChildrenAndScript => " scene has children and script"@,
        SceneProblem::MasterTypeNotNode => " scene master node is not of type Node, Node2D, or Node3D"@,
        SceneProblem::ScriptOnTypedMaster => " isn't type Node but has a behaviour or value script"@,
        SceneProblem::ReferenceScriptOnMaster => " reference script should not be on scene master"@,
    }
}

/// `first` followed by `second`.
fn joined(first: &str, second: &str) -> (r: String)
    ensures
        r@ == first@ + second@,
{
    let mut out = String::from_str(first);
    out.append(second);
    out
}

impl HeaderError {
    /// What the message says after the file's name.
    pub fn text(&self) -> (r: &'static str)
        ensures
            r@ == header_error_text(*self),
    {
        match self {
            HeaderError::WordAfterClassName => " there was another word after the class_name but no extends",
            HeaderError::WordAfterExtends => " there was another word after the extends",
        }
    }
}

impl BuildError {
    /// The failure of the given kind for the file called `file`.
    pub fn new(file: String, kind: BuildErrorKind) -> (r: BuildError)
        ensures
            r@ == failure(file@, kind),
    {
        BuildError { file, kind, detail: String::new() }
    }

    /// The message that reports this failure.  It names the file.
    pub fn message(&self) -> (r: String)
        ensures
            r@ == build_error_text(self@),
    {
        let file = self.file.as_str();
        match self.kind {
            BuildErrorKind::Unreadable => {
                let mut out = joined(file, " could not be read: ");
                out.append(self.detail.as_str());
                out
            },
            BuildErrorKind::NoFileName => joined("no file name for file ", file),
            BuildErrorKind::NoFileStem => joined("no file stem for file ", file),
            BuildErrorKind::StemTooShort => joined(file, " name is shorter than its prefix"),
            BuildErrorKind::Header(e) => joined(file, e.text()),
            BuildErrorKind::MultipleClassNames => joined(file, " multiple class_names"),
            BuildErrorKind::MultipleExtends => joined(file, " multiple extends"),
            BuildErrorKind::UnterminatedScriptPath => joined(
                file,
                " no ending \" on script ext_resource path",
            ),
            BuildErrorKind::NoMasterType => joined(file, " no type on master node"),
            BuildErrorKind::UnterminatedMasterType => joined(
                file,
                " can't find end of type on master node",
            ),
            BuildErrorKind::NoMasterNode => joined(file, " no master node???"),
        }
    }
}

impl ScriptProblem {
    /// The message that reports this problem for the script file `full_name`.
    pub fn message(&self, full_name: &str) -> (r: String)
        ensures
            r@ == full_name@ + script_problem_text(*self),
    {
        match self {
            ScriptProblem::NameNotUpperCamelCase => joined(full_name, " name not upper camel case"),
            ScriptProblem::NodePathShorthand => joined(full_name, " contains $"),
            ScriptProblem::UntypedVariable => joined(
                full_name,
                " doesn't use static typing properly",
            ),
            ScriptProblem::NoClassName => joined(full_name, " doesn't have a class_name"),
            ScriptProblem::ClassNameMismatch => joined(
                full_name,
                " script name and class_name don't match",
            ),
            ScriptProblem::ReferenceHasClassName => joined(
                full_name,
                " reference script has class_name",
            ),
            ScriptProblem::ExtendsNothing => joined(
                full_name,
                " doesn't extend anything (should extend Node)",
            ),
            ScriptProblem::ExtendsOther => joined(full_name, " doesn't extend Node"),
            ScriptProblem::NonExportStatement => joined(
                full_name,
                " contains a non @export var statement",
            ),
        }
    }
}

impl SceneProblem {
    /// The message that reports this problem for the scene file `full_name`.
    pub fn message(&self, full_name: &str) -> (r: String)
        ensures
            r@ == full_name@ + scene_problem_text(*self),
    {
        match self {
            SceneProblem::ChildrenAndScript => joined(full_name, " scene has children and script"),
            SceneProblem::MasterTypeNotNode => joined(
                full_name,
                " scene master node is not of type Node, Node2D, or Node3D",
            ),
            SceneProblem::ScriptOnTypedMaster => joined(
                full_name,
                " isn't type Node but has a behaviour or value script",
            ),
            SceneProblem::ReferenceScriptOnMaster => joined(
                full_name,
                " reference script should not be on scene master",
            ),
        }
    }
}

} // verus!
