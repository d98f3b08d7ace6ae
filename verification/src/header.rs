//! The header lines of a script: `class_name`, `extends`, or both on one line.

use crate::text::{
    chars_of, cut, has_char, is_range, position, position_of, slice_of, starts_with,
    str_option_view, trim, trim_bounds,
};
use vstd::prelude::*;
use vstd::slice::slice_subrange;

verus! {

/// Why a line that begins like a header is not one.
#[derive(Debug, Clone, Copy, PartialEq, Eq, Structural)]
pub enum HeaderError {
    /// Something other than an `extends` clause follows the class name.
    WordAfterClassName,
    /// More than one word follows `extends`.
    WordAfterExtends,
}

/// What a line declares: a class name, an inheritance target, both or
/// neither.
pub type Declared = (Option<Seq<char>>, Option<Seq<char>>);

/// The keyword that opens a class name declaration, with the space that
/// follows it.
pub open spec fn class_name_keyword() -> Seq<char> {
    "class_name "@
}

/// The keyword that opens an inheritance declaration.
pub open spec fn extends_keyword() -> Seq<char> {
    "extends"@
}

/// The inheritance keyword as it follows a class name on the same line.
pub open spec fn extends_clause() -> Seq<char> {
    "extends "@
}

/// What `line` declares.
///
/// After trimming, a line that begins with the class name keyword declares
/// the rest (trimmed) as class name if the rest holds no space.  If it does,
/// the text up to the first space is the class name, and what follows that
/// space has to be an `extends` clause, whose remainder is the inheritance
/// target.  Any other line that begins with `extends` declares the trimmed
/// rest as inheritance target, which may hold no space.  All other lines
/// declare nothing.
pub open spec fn header_of(line: Seq<char>) -> Result<Declared, HeaderError> {
    let t = trim(line);
    if class_name_keyword().is_prefix_of(t) {
        let rest = trim(t.skip(class_name_keyword().len() as int));
        if !has_char(rest, ' ') {
            Ok((Some(rest), None))
        } else {
            let space = position(rest, ' ') as int;
            let after = rest.skip(space + 1);
            if extends_clause().is_prefix_of(after) {
                Ok((Some(rest.take(space)), Some(after.skip(extends_clause().len() as int))))
            } else {
                Err(HeaderError::WordAfterClassName)
            }
        }
    } else if extends_keyword().is_prefix_of(t) {
        let rest = trim(t.skip(extends_keyword().len() as int));
        if !has_char(rest, ' ') {
            Ok((None, Some(rest)))
        } else {
            Err(HeaderError::WordAfterExtends)
        }
    } else {
        Ok((None, None))
    }
}

/// The text of a parsed line.
pub open spec fn header_view(
    r: Result<(Option<&str>, Option<&str>), HeaderError>,
) -> Result<Declared, HeaderError> {
    match r {
        Ok(d) => Ok((str_option_view(d.0), str_option_view(d.1))),
        Err(e) => Err(e),
    }
}

/// Parses the line `t` and gives what it declares as ranges of `t`.
pub fn header_bounds(t: &[char]) -> (r: Result<
    (Option<(usize, usize)>, Option<(usize, usize)>),
    HeaderError,
>)
    ensures
        match r {
            Ok(d) => is_range(t@, d.0) && is_range(t@, d.1) && header_of(t@) == Ok::<
                Declared,
                HeaderError,
            >((cut(t@, d.0), cut(t@, d.1))),
            Err(e) => header_of(t@) == Err::<Declared, HeaderError>(e),
        },
{
    let (a, z) = trim_bounds(t);
    let line = slice_subrange(t, a, z);
    let class_kw = chars_of("class_name ");
    let extends_kw = chars_of("extends");
    if starts_with(line, class_kw.as_slice()) {
        let k: usize = class_kw.len();
        let tail = slice_subrange(line, k, line.len());
        let (b0, b1) = trim_bounds(tail);
        let rest = slice_subrange(tail, b0, b1);
        let off: usize = a + k + b0;
        let n: usize = rest.len();
        assert(rest@ =~= t@.subrange(off as int, off + n));
        let space: usize = position_of(rest, ' ');
        if space >= n {
            return Ok((Some((off, off + n)), None));
        }
        let after = slice_subrange(rest, space + 1, n);
        let clause = chars_of("extends ");
        if starts_with(after, clause.as_slice()) {
            let m: usize = clause.len();
            assert(rest@.take(space as int) =~= t@.subrange(off as int, off + space));
            assert(after@.skip(m as int) =~= t@.subrange(off + space + 1 + m, off + n));
            Ok((Some((off, off + space)), Some((off + space + 1 + m, off + n))))
        } else {
            Err(HeaderError::WordAfterClassName)
        }
    } else if starts_with(line, extends_kw.as_slice()) {
        let k: usize = extends_kw.len();
        let tail = slice_subrange(line, k, line.len());
        let (b0, b1) = trim_bounds(tail);
        let rest = slice_subrange(tail, b0, b1);
        let off: usize = a + k + b0;
        let n: usize = rest.len();
        assert(rest@ =~= t@.subrange(off as int, off + n));
        let space: usize = position_of(rest, ' ');
        if space >= n {
            Ok((None, Some((off, off + n))))
        } else {
            Err(HeaderError::WordAfterExtends)
        }
    } else {
        Ok((None, None))
    }
}

/// Parses one line of a script and gives the class name and the inheritance
/// target that it declares.
pub fn get_class_name_and_extends_from_line<'a>(line: &'a str) -> (r: Result<
    (Option<&'a str>, Option<&'a str>),
    HeaderError,
>)
    ensures
        header_view(r) == header_of(line@),
{
    let t = chars_of(line);
    match header_bounds(t.as_slice()) {
        Ok((class_name, extends)) => Ok((slice_of(line, class_name), slice_of(line, extends))),
        Err(e) => Err(e),
    }
}

} // verus!
