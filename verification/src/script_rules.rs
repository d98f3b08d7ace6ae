//! The rules for scripts: naming, static typing, class name, inheritance
//! and, for value and reference scripts, a body of exported variables only.

use crate::problems::ScriptProblem;
use crate::script::{Script, ScriptKind, ScriptView};
use crate::text::{
    chars_of, has_char, in_bounds, lemma_pieces_push, line_bounds, lines, pieces, position,
    position_of, split, split_bounds, starts_with, trim, trim_bounds, uppercase, uppercase_of,
};
use vstd::prelude::*;
use vstd::slice::slice_subrange;
use vstd::string::StrSliceExecFns;
use vstd::string::StringExecFns;

verus! {

/// The only type that a script may extend.
pub open spec fn node_type() -> Seq<char> {
    "Node"@
}

/// Whether `name` is in upper camel case, where `first_upper` is the
/// uppercase form of its first character: the first character, if there is
/// one, is its own uppercase form, and no underscore occurs.
pub open spec fn upper_camel_case_with(name: Seq<char>, first_upper: Seq<char>) -> bool {
    &&& name.len() > 0 ==> first_upper == seq![name[0]]
    &&& !has_char(name, '_')
}

/// Whether `name` is in upper camel case.
pub open spec fn upper_camel_case(name: Seq<char>) -> bool {
    upper_camel_case_with(name, uppercase_of(name[0]))
}

/// The parts of each text of `parts` between the occurrences of `p`, in
/// order.
pub open spec fn split_each(parts: Seq<Seq<char>>, p: Seq<char>) -> Seq<Seq<char>> {
    parts.map_values(|s: Seq<char>| split(s, p)).flatten()
}

/// The parts of `s` that are left when it is split at the first pattern, each
/// part at the second pattern, and so on through `patterns`.
pub open spec fn split_in_turn(s: Seq<char>, patterns: Seq<Seq<char>>) -> Seq<Seq<char>>
    decreases patterns.len(),
{
    if patterns.len() == 0 {
        seq![s]
    } else {
        split_each(split_in_turn(s, patterns.drop_last()), patterns.last())
    }
}

/// The texts of a sequence of strings.
pub open spec fn string_views(v: Seq<String>) -> Seq<Seq<char>> {
    Seq::new(v.len(), |i: int| v[i]@)
}

/// The texts of a sequence of string slices.
pub open spec fn str_views(v: Seq<&str>) -> Seq<Seq<char>> {
    Seq::new(v.len(), |i: int| v[i]@)
}

/// The keyword of a variable declaration as it stands in running text: after
/// a space or a tab, and before a space.
pub open spec fn var_keywords() -> Seq<Seq<char>> {
    seq![" var "@, "\tvar "@]
}

/// Whether a `=` stands in `segment` before any `:`.
pub open spec fn untyped(segment: Seq<char>) -> bool {
    position(segment, '=') < position(segment, ':')
}

/// Whether some part of `contents`, split at the variable keywords, is
/// untyped.
pub open spec fn improperly_typed(contents: Seq<char>) -> bool {
    let segments = split_in_turn(contents, var_keywords());
    exists|k: int| 0 <= k < segments.len() && untyped(#[trigger] segments[k])
}

/// Whether `line` may stand in a script that holds exported variables only:
/// after trimming it is empty, a header, a comment or the declaration of an
/// exported variable.
pub open spec fn line_allowed(line: Seq<char>) -> bool {
    let t = trim(line);
    ||| t.len() == 0
    ||| "class_name"@.is_prefix_of(t)
    ||| "extends"@.is_prefix_of(t)
    ||| "#"@.is_prefix_of(t)
    ||| "@export var "@.is_prefix_of(t)
}

/// Whether every line of `contents` may stand in a script that holds exported
/// variables only.
pub open spec fn export_only(contents: Seq<char>) -> bool {
    forall|i: int| 0 <= i < lines(contents).len() ==> line_allowed(#[trigger] lines(contents)[i])
}

/// The first of two verdicts that is a problem.
pub open spec fn and_then(
    first: Result<(), ScriptProblem>,
    second: Result<(), ScriptProblem>,
) -> Result<(), ScriptProblem> {
    if first is Err {
        first
    } else {
        second
    }
}

/// The naming rule.
pub open spec fn name_verdict(name: Seq<char>) -> Result<(), ScriptProblem> {
    if upper_camel_case(name) {
        Ok(())
    } else {
        Err(ScriptProblem::NameNotUpperCamelCase)
    }
}

/// The inheritance rule: the script extends `Node`.
pub open spec fn extends_verdict(extends: Option<Seq<char>>) -> Result<(), ScriptProblem> {
    match extends {
        None => Err(ScriptProblem::ExtendsNothing),
        Some(target) => if target == node_type() {
            Ok(())
        } else {
            Err(ScriptProblem::ExtendsOther)
        },
    }
}

/// The class name rule of behaviour and value scripts: the class name is
/// declared and is the script's name.
pub open spec fn class_name_verdict(
    class_name: Option<Seq<char>>,
    name: Seq<char>,
) -> Result<(), ScriptProblem> {
    match class_name {
        None => Err(ScriptProblem::NoClassName),
        Some(declared) => if declared == name {
            Ok(())
        } else {
            Err(ScriptProblem::ClassNameMismatch)
        },
    }
}

/// The body rule of value and reference scripts.
pub open spec fn body_verdict(contents: Seq<char>) -> Result<(), ScriptProblem> {
    if export_only(contents) {
        Ok(())
    } else {
        Err(ScriptProblem::NonExportStatement)
    }
}

/// The rules of a behaviour script.
pub open spec fn behaviour_verdict(s: ScriptView) -> Result<(), ScriptProblem> {
    and_then(class_name_verdict(s.class_name, s.name), extends_verdict(s.extends))
}

/// The rules of a value script.
pub open spec fn value_verdict(s: ScriptView) -> Result<(), ScriptProblem> {
    and_then(
        class_name_verdict(s.class_name, s.name),
        and_then(extends_verdict(s.extends), body_verdict(s.contents)),
    )
}

/// The rules of a reference script.
pub open spec fn reference_verdict(s: ScriptView) -> Result<(), ScriptProblem> {
    if s.class_name is Some {
        Err(ScriptProblem::ReferenceHasClassName)
    } else {
        and_then(extends_verdict(s.extends), body_verdict(s.contents))
    }
}

/// The rules of the script's kind.
pub open spec fn kind_verdict(s: ScriptView) -> Result<(), ScriptProblem> {
    match s.kind {
        ScriptKind::Behaviour => behaviour_verdict(s),
        ScriptKind::Reference => reference_verdict(s),
        ScriptKind::Value => value_verdict(s),
    }
}

/// The rules that hold for every script, where `first_upper` is the
/// uppercase form of the first character of the name: the name, no `$`,
/// static typing.
pub open spec fn common_verdict_with(s: ScriptView, first_upper: Seq<char>) -> Result<
    (),
    ScriptProblem,
> {
    if !upper_camel_case_with(s.name, first_upper) {
        Err(ScriptProblem::NameNotUpperCamelCase)
    } else if has_char(s.contents, '$') {
        Err(ScriptProblem::NodePathShorthand)
    } else if improperly_typed(s.contents) {
        Err(ScriptProblem::UntypedVariable)
    } else {
        Ok(())
    }
}

/// All rules for a script, in their fixed order, where `first_upper` is the
/// uppercase form of the first character of the name: the first problem is
/// the verdict.
pub open spec fn script_verdict_with(s: ScriptView, first_upper: Seq<char>) -> Result<
    (),
    ScriptProblem,
> {
    and_then(common_verdict_with(s, first_upper), kind_verdict(s))
}

/// The rules that hold for every script: the name, no `$`, static typing.
pub open spec fn common_verdict(s: ScriptView) -> Result<(), ScriptProblem> {
    common_verdict_with(s, uppercase_of(s.name[0]))
}

/// All rules for a script, in their fixed order: the first problem is the
/// verdict.
pub open spec fn script_verdict(s: ScriptView) -> Result<(), ScriptProblem> {
    script_verdict_with(s, uppercase_of(s.name[0]))
}

/// Tells whether `name` is in upper camel case, given the uppercase form of
/// its first character.
pub fn name_is_upper_camel_case(name: &[char], first_upper: &[char]) -> (b: bool)
    ensures
        b == upper_camel_case_with(name@, first_upper@),
{
    if name.len() > 0 {
        if first_upper.len() != 1 || first_upper[0] != name[0] {
            assert(seq![name@[0]].len() == 1 && seq![name@[0]][0] == name@[0]);
            return false;
        }
        assert(first_upper@ =~= seq![name@[0]]);
    }
    position_of(name, '_') >= name.len()
}

/// The uppercase form of the first character of `name`, or nothing for an
/// empty name.
fn first_uppercase(name: &[char]) -> (r: Vec<char>)
    ensures
        name@.len() > 0 ==> r@ == uppercase_of(name@[0]),
{
    if name.len() > 0 {
        uppercase(name[0])
    } else {
        Vec::new()
    }
}

/// Moves the index pairs `rel` of the part of `t` from `from` to `to` to the
/// end of `out`, as index pairs of `t`.
fn append_moved(
    t: &[char],
    from: usize,
    to: usize,
    rel: &Vec<(usize, usize)>,
    out: &mut Vec<(usize, usize)>,
)
    requires
        from <= to <= t@.len(),
        in_bounds(t@.subrange(from as int, to as int), rel@),
        in_bounds(t@, old(out)@),
    ensures
        in_bounds(t@, final(out)@),
        pieces(t@, final(out)@) == pieces(t@, old(out)@) + pieces(
            t@.subrange(from as int, to as int),
            rel@,
        ),
{
    let ghost part = t@.subrange(from as int, to as int);
    let ghost before = out@;
    let mut k: usize = 0;
    while k < rel.len()
        invariant
            k <= rel.len(),
            from <= to <= t@.len(),
            part == t@.subrange(from as int, to as int),
            in_bounds(part, rel@),
            in_bounds(t@, out@),
            pieces(t@, out@) == pieces(t@, before) + pieces(part, rel@.take(k as int)),
        decreases rel.len() - k,
    {
        let (a, z) = rel[k];
        let ghost so_far = out@;
        out.push((from + a, from + z));
        proof {
            lemma_pieces_push(t@, so_far, ((from + a) as usize, (from + z) as usize));
            lemma_pieces_push(part, rel@.take(k as int), (a, z));
            assert(part.subrange(a as int, z as int) =~= t@.subrange(from + a, from + z));
        }
        k += 1;
    }
}

/// Splits each of the parts `parts` of `t` at the occurrences of `p`.
fn split_each_bounds(t: &[char], parts: &Vec<(usize, usize)>, p: &[char]) -> (r: Vec<
    (usize, usize),
>)
    requires
        in_bounds(t@, parts@),
    ensures
        in_bounds(t@, r@),
        pieces(t@, r@) == split_each(pieces(t@, parts@), p@),
{
    let ghost f = |s: Seq<char>| split(s, p@);
    let ghost all = pieces(t@, parts@);
    let mut out: Vec<(usize, usize)> = Vec::new();
    let mut k: usize = 0;
    while k < parts.len()
        invariant
            k <= parts.len(),
            in_bounds(t@, parts@),
            in_bounds(t@, out@),
            all == pieces(t@, parts@),
            f == |s: Seq<char>| split(s, p@),
            pieces(t@, out@) == all.take(k as int).map_values(f).flatten(),
        decreases parts.len() - k,
    {
        let (from, to) = parts[k];
        let part = slice_subrange(t, from, to);
        let rel = split_bounds(part, p);
        append_moved(t, from, to, &rel, &mut out);
        proof {
            let done = all.take(k as int).map_values(f);
            assert(all.take(k + 1).map_values(f) =~= done.push(split(part@, p@)));
            done.lemma_flatten_push(split(part@, p@));
        }
        k += 1;
    }
    assert(all.take(k as int) =~= all);
    out
}

/// The ranges of the parts of `t` that are left when it is split at each of
/// `patterns` in turn.
pub fn split_on_any_bounds(t: &[char], patterns: &[String]) -> (r: Vec<(usize, usize)>)
    ensures
        in_bounds(t@, r@),
        pieces(t@, r@) == split_in_turn(t@, string_views(patterns@)),
{
    let ghost pats = string_views(patterns@);
    let mut out: Vec<(usize, usize)> = Vec::new();
    out.push((0, t.len()));
    let mut k: usize = 0;
    assert(t@.subrange(0, t@.len() as int) =~= t@);
    while k < patterns.len()
        invariant
            k <= patterns.len(),
            pats == string_views(patterns@),
            in_bounds(t@, out@),
            pieces(t@, out@) == split_in_turn(t@, pats.take(k as int)),
        decreases patterns.len() - k,
    {
        let p = chars_of(patterns[k].as_str());
        assert(pats.take(k + 1).drop_last() =~= pats.take(k as int));
        out = split_each_bounds(t, &out, p.as_slice());
        k += 1;
    }
    assert(pats.take(k as int) =~= pats);
    out
}

/// The parts of `s` that are left when it is split at each of `patterns` in
/// turn: at the first pattern, then each part at the second, and so on.
pub fn split_on_any<'a>(s: &'a String, patterns: &[String]) -> (r: Vec<&'a str>)
    ensures
        str_views(r@) == split_in_turn(s@, string_views(patterns@)),
{
    let t = chars_of(s.as_str());
    let bounds = split_on_any_bounds(t.as_slice(), patterns);
    let mut out: Vec<&'a str> = Vec::new();
    let mut k: usize = 0;
    while k < bounds.len()
        invariant
            k <= bounds.len(),
            t@ == s@,
            in_bounds(t@, bounds@),
            out@.len() == k,
            forall|j: int| 0 <= j < k ==> (#[trigger] out@[j])@ == pieces(t@, bounds@)[j],
        decreases bounds.len() - k,
    {
        let (from, to) = bounds[k];
        out.push(s.as_str().substring_char(from, to));
        k += 1;
    }
    out
}

/// Tells whether a `=` stands in some part of `t`, split at the variable
/// keywords, before any `:`.
pub fn has_untyped_variable(t: &[char]) -> (b: bool)
    ensures
        b == improperly_typed(t@),
{
    let mut keywords: Vec<String> = Vec::new();
    keywords.push(String::from_str(" var "));
    keywords.push(String::from_str("\tvar "));
    assert(string_views(keywords@) =~= var_keywords());
    let bounds = split_on_any_bounds(t, keywords.as_slice());
    let ghost segments = split_in_turn(t@, var_keywords());
    let mut k: usize = 0;
    while k < bounds.len()
        invariant
            k <= bounds.len(),
            in_bounds(t@, bounds@),
            pieces(t@, bounds@) == segments,
            segments == split_in_turn(t@, var_keywords()),
            forall|j: int| 0 <= j < k ==> !untyped(#[trigger] segments[j]),
        decreases bounds.len() - k,
    {
        let (from, to) = bounds[k];
        let segment = slice_subrange(t, from, to);
        if position_of(segment, '=') < position_of(segment, ':') {
            assert(untyped(segments[k as int]));
            return true;
        }
        k += 1;
    }
    false
}

/// Tells whether every line of `t` may stand in a script that holds exported
/// variables only.
pub fn holds_exports_only(t: &[char]) -> (b: bool)
    ensures
        b == export_only(t@),
{
    let class_kw = chars_of("class_name");
    let extends_kw = chars_of("extends");
    let comment = chars_of("#");
    let export = chars_of("@export var ");
    let ls = line_bounds(t);
    let mut k: usize = 0;
    while k < ls.len()
        invariant
            k <= ls.len(),
            in_bounds(t@, ls@),
            pieces(t@, ls@) == lines(t@),
            class_kw@ == "class_name"@,
            extends_kw@ == "extends"@,
            comment@ == "#"@,
            export@ == "@export var "@,
            forall|j: int| 0 <= j < k ==> line_allowed(#[trigger] lines(t@)[j]),
        decreases ls.len() - k,
    {
        let (from, to) = ls[k];
        let line = slice_subrange(t, from, to);
        assert(lines(t@)[k as int] == line@);
        let (a, z) = trim_bounds(line);
        let trimmed = slice_subrange(line, a, z);
        let allowed = a == z || starts_with(trimmed, class_kw.as_slice()) || starts_with(
            trimmed,
            extends_kw.as_slice(),
        ) || starts_with(trimmed, comment.as_slice()) || starts_with(trimmed, export.as_slice());
        if !allowed {
            return false;
        }
        k += 1;
    }
    true
}

impl Script {
    /// Checks that the name is in upper camel case.
    pub fn check_name_is_upper_camel_case(&self) -> (r: Result<(), ScriptProblem>)
        ensures
            r == name_verdict(self@.name),
    {
        let name = chars_of(self.name.as_str());
        let first_upper = first_uppercase(name.as_slice());
        if name_is_upper_camel_case(name.as_slice(), first_upper.as_slice()) {
            Ok(())
        } else {
            Err(ScriptProblem::NameNotUpperCamelCase)
        }
    }

    /// Checks that the script extends `Node`.
    pub fn check_extends_node(&self) -> (r: Result<(), ScriptProblem>)
        ensures
            r == extends_verdict(self@.extends),
    {
        match &self.extends {
            Some(target) => {
                if *target == String::from_str("Node") {
                    Ok(())
                } else {
                    Err(ScriptProblem::ExtendsOther)
                }
            },
            None => Err(ScriptProblem::ExtendsNothing),
        }
    }

    /// Checks that the text holds nothing but headers, comments and exported
    /// variables.
    pub fn check_contains_non_export_var(&self) -> (r: Result<(), ScriptProblem>)
        ensures
            r == body_verdict(self@.contents),
    {
        let t = chars_of(self.contents.as_str());
        if holds_exports_only(t.as_slice()) {
            Ok(())
        } else {
            Err(ScriptProblem::NonExportStatement)
        }
    }

    /// Checks that a class name is declared and that it is the script's name.
    pub fn check_matching_script_name_and_class_name(&self) -> (r: Result<(), ScriptProblem>)
        ensures
            r == class_name_verdict(self@.class_name, self@.name),
    {
        match &self.class_name {
            Some(declared) => {
                if *declared == self.name {
                    Ok(())
                } else {
                    Err(ScriptProblem::ClassNameMismatch)
                }
            },
            None => Err(ScriptProblem::NoClassName),
        }
    }
}

/// Checks a value script against the rules of its kind.
pub fn check_value_script_isolated(script: &Script) -> (r: Result<(), ScriptProblem>)
    ensures
        r == value_verdict(script@),
{
    if let Err(e) = script.check_matching_script_name_and_class_name() {
        return Err(e);
    }
    if let Err(e) = script.check_extends_node() {
        return Err(e);
    }
    script.check_contains_non_export_var()
}

/// Checks a reference script against the rules of its kind.
pub fn check_reference_script_isolated(script: &Script) -> (r: Result<(), ScriptProblem>)
    ensures
        r == reference_verdict(script@),
{
    if script.class_name.is_some() {
        return Err(ScriptProblem::ReferenceHasClassName);
    }
    if let Err(e) = script.check_extends_node() {
        return Err(e);
    }
    script.check_contains_non_export_var()
}

/// Checks a behaviour script against the rules of its kind.
pub fn check_behaviour_script_isolated(script: &Script) -> (r: Result<(), ScriptProblem>)
    ensures
        r == behaviour_verdict(script@),
{
    if let Err(e) = script.check_matching_script_name_and_class_name() {
        return Err(e);
    }
    script.check_extends_node()
}

/// Checks a script against all rules, the common ones first; the first
/// problem found is the result.
pub fn check_script_isolated(script: &Script) -> (r: Result<(), ScriptProblem>)
    ensures
        r == script_verdict(script@),
{
    let name = chars_of(script.name.as_str());
    let first_upper = first_uppercase(name.as_slice());
    check_script_given(script, first_upper.as_slice())
}

/// Checks a script against all rules, the common ones first, given the
/// uppercase form of the first character of its name; the first problem found
/// is the result.
pub fn check_script_given(script: &Script, first_upper: &[char]) -> (r: Result<(), ScriptProblem>)
    ensures
        r == script_verdict_with(script@, first_upper@),
{
    let name = chars_of(script.name.as_str());
    if !name_is_upper_camel_case(name.as_slice(), first_upper) {
        return Err(ScriptProblem::NameNotUpperCamelCase);
    }
    let t = chars_of(script.contents.as_str());
    if position_of(t.as_slice(), '$') < t.len() {
        return Err(ScriptProblem::NodePathShorthand);
    }
    if has_untyped_variable(t.as_slice()) {
        return Err(ScriptProblem::UntypedVariable);
    }
    match script.kind {
        ScriptKind::Behaviour => check_behaviour_script_isolated(script),
        ScriptKind::Reference => check_reference_script_isolated(script),
        ScriptKind::Value => check_value_script_isolated(script),
    }
}

} // verus!
