//! The exception formatter: turns a raised native exception into the single
//! human-readable message surfaced to the host.
//!
//! The formatter reads the exception's positional argument tuple. Every
//! argument that coerces to a string contributes that string; every other
//! argument contributes a fixed placeholder. The pieces are joined with
//! single spaces and the whole is whitespace-trimmed. When the argument tuple
//! itself cannot be obtained, a fixed fallback message stands in; the
//! formatter itself never fails.

use vstd::prelude::*;

verus! {

/// One positional argument of a raised native exception, as the formatter
/// sees it: its string coercion, or the fact that the coercion failed.
#[derive(Debug, PartialEq)]
pub enum ExcArg {
    Text(String),
    Unprintable,
}

/// A raised native exception, reduced to what the formatter reads: its
/// positional argument tuple, or nothing when the arguments could not be
/// obtained at all.
#[derive(Debug, PartialEq)]
pub struct ExceptionReport {
    pub args: Option<Vec<ExcArg>>,
}

/// The whitespace characters the trim removes: the Unicode white-space code
/// points.
pub open spec fn is_space(c: char) -> bool {
    c == ' ' || c == '\t' || c == '\n' || c == '\u{000b}' || c == '\u{000c}' || c == '\r'
        || c == '\u{0085}' || c == '\u{00a0}' || c == '\u{1680}' || (0x2000 <= c as u32
        && c as u32 <= 0x200a) || c == '\u{2028}' || c == '\u{2029}' || c == '\u{202f}'
        || c == '\u{205f}' || c == '\u{3000}'
}

/// What one argument contributes to the message.
pub open spec fn arg_chars(a: ExcArg) -> Seq<char> {
    match a {
        ExcArg::Text(s) => s@,
        ExcArg::Unprintable => "<unprintable>"@,
    }
}

/// All contributions in order, each followed by a single space.
pub open spec fn joined_chars(args: Seq<ExcArg>) -> Seq<char>
    decreases args.len(),
{
    if args.len() == 0 {
        Seq::empty()
    } else {
        joined_chars(args.drop_last()) + arg_chars(args.last()) + " "@
    }
}

/// The sequence with its leading whitespace removed.
pub open spec fn trim_left(s: Seq<char>) -> Seq<char>
    decreases s.len(),
{
    if s.len() == 0 {
        s
    } else if is_space(s[0]) {
        trim_left(s.drop_first())
    } else {
        s
    }
}

/// The sequence with its trailing whitespace removed.
pub open spec fn trim_right(s: Seq<char>) -> Seq<char>
    decreases s.len(),
{
    if s.len() == 0 {
        s
    } else if is_space(s.last()) {
        trim_right(s.drop_last())
    } else {
        s
    }
}

/// The sequence with whitespace removed at both ends.
pub open spec fn trim_chars(s: Seq<char>) -> Seq<char> {
    trim_right(trim_left(s))
}

/// The fixed fallback when the argument tuple cannot be obtained.
pub open spec fn fallback_chars() -> Seq<char> {
    "<error obtaining exception arguments>"@
}

/// The message the formatter owes for a given report.
pub open spec fn exception_message(rep: ExceptionReport) -> Seq<char> {
    match rep.args {
        Some(args) => trim_chars(joined_chars(args@)),
        None => fallback_chars(),
    }
}

/// Whether `c` is whitespace the trim removes.
fn is_space_char(c: char) -> (r: bool)
    ensures
        r == is_space(c),
{
    c == ' ' || c == '\t' || c == '\n' || c == '\u{000b}' || c == '\u{000c}' || c == '\r'
        || c == '\u{0085}' || c == '\u{00a0}' || c == '\u{1680}' || (0x2000 <= c as u32
        && c as u32 <= 0x200a) || c == '\u{2028}' || c == '\u{2029}' || c == '\u{202f}'
        || c == '\u{205f}' || c == '\u{3000}'
}

/// A prefix of spaces followed by a non-space (or the end) pins down what
/// trimming on the left returns: the rest of the sequence.
proof fn lemma_trim_left_at(s: Seq<char>, b: int)
    requires
        0 <= b <= s.len(),
        forall|k: int| 0 <= k < b ==> is_space(#[trigger] s[k]),
        b == s.len() || !is_space(s[b]),
    ensures
        trim_left(s) == s.subrange(b, s.len() as int),
    decreases s.len(),
{
    if b == 0 {
        assert(trim_left(s) =~= s.subrange(0, s.len() as int));
    } else {
        lemma_trim_left_at(s.drop_first(), b - 1);
        assert(s.drop_first().subrange(b - 1, s.drop_first().len() as int) =~= s.subrange(
            b,
            s.len() as int,
        ));
    }
}

/// A suffix of spaces preceded by a non-space (or the start) pins down what
/// trimming on the right returns: the part before the suffix.
proof fn lemma_trim_right_at(s: Seq<char>, e: int)
    requires
        0 <= e <= s.len(),
        forall|k: int| e <= k < s.len() ==> is_space(#[trigger] s[k]),
        e == 0 || !is_space(s[e - 1]),
    ensures
        trim_right(s) == s.subrange(0, e),
    decreases s.len(),
{
    if e == s.len() {
        assert(trim_right(s) =~= s.subrange(0, e));
    } else {
        lemma_trim_right_at(s.drop_last(), e);
        assert(s.drop_last().subrange(0, e) =~= s.subrange(0, e));
    }
}

/// Appending a trailing space never changes the trimmed message.
pub proof fn lemma_trim_snoc_space(s: Seq<char>)
    ensures
        trim_chars(s.push(' ')) == trim_chars(s),
    decreases s.len(),
{
    if s.len() == 0 {
        assert(s.push(' ').drop_first() =~= s);
        assert(trim_left(s.push(' ')) == trim_left(s));
        assert(trim_chars(s.push(' ')) =~= trim_chars(s));
    } else if is_space(s[0]) {
        assert(s.push(' ').drop_first() =~= s.drop_first().push(' '));
        lemma_trim_snoc_space(s.drop_first());
    } else {
        assert(trim_left(s.push(' ')) == s.push(' '));
        assert(trim_left(s) == s);
        assert(s.push(' ').drop_last() =~= s);
        assert(trim_right(s.push(' ')) == trim_right(s));
    }
}

/// Trims whitespace at both ends of a string.
fn trim_string(s: &str) -> (r: String)
    ensures
        r@ == trim_chars(s@),
{
    let len = s.unicode_len();
    let mut b: usize = 0;
    while b < len && is_space_char(s.get_char(b))
        invariant
            len as nat == s@.len(),
            0 <= b <= len,
            forall|k: int| 0 <= k < b ==> is_space(#[trigger] s@[k]),
        decreases len - b,
    {
        b += 1;
    }
    let mut e: usize = len;
    while e > b && is_space_char(s.get_char(e - 1))
        invariant
            len as nat == s@.len(),
            b <= e <= len,
            forall|k: int| e <= k < len ==> is_space(#[trigger] s@[k]),
        decreases e,
    {
        e -= 1;
    }
    proof {
        lemma_trim_left_at(s@, b as int);
        let t = s@.subrange(b as int, s@.len() as int);
        lemma_trim_right_at(t, e - b);
        assert(t.subrange(0, e - b) =~= s@.subrange(b as int, e as int));
    }
    let piece = s.substring_char(b, e);
    piece.to_owned()
}

/// Formats a raised exception into the message surfaced to the host: the
/// string-coerced arguments joined by single spaces, unparsable ones replaced
/// by a placeholder, the whole trimmed; or the fixed fallback when the
/// arguments could not be obtained. Never fails.
pub fn format_exception(rep: &ExceptionReport) -> (r: String)
    ensures
        r@ == exception_message(*rep),
{
    match &rep.args {
        None => String::from_str("<error obtaining exception arguments>"),
        Some(args) => {
            let mut acc = String::new();
            let mut j: usize = 0;
            while j < args.len()
                invariant
                    j <= args@.len(),
                    acc@ == joined_chars(args@.take(j as int)),
                decreases args@.len() - j,
            {
                match &args[j] {
                    ExcArg::Text(s) => {
                        acc.append(s.as_str());
                    },
                    ExcArg::Unprintable => {
                        acc.append("<unprintable>");
                    },
                }
                acc.append(" ");
                proof {
                    assert(args@.take(j + 1).drop_last() =~= args@.take(j as int));
                    assert(args@.take(j + 1).last() == args@[j as int]);
                    assert(acc@ =~= joined_chars(args@.take(j + 1)));
                }
                j += 1;
            }
            proof {
                assert(args@.take(args@.len() as int) =~= args@);
            }
            trim_string(acc.as_str())
        },
    }
}

} // verus!
