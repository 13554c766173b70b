//! Reading a yes/no answer typed at a prompt.

use vstd::prelude::*;
use vstd::string::StrSliceExecFns;

verus! {

/// What `str::to_lowercase` makes of a text.
pub uninterp spec fn lower_of(s: Seq<char>) -> Seq<char>;

/// What `str::trim` makes of a text.
pub uninterp spec fn trim_of(s: Seq<char>) -> Seq<char>;

/// Whether `r` is a contiguous part of `s`.
pub open spec fn is_part_of(r: Seq<char>, s: Seq<char>) -> bool {
    exists|i: int, j: int| 0 <= i <= j <= s.len() && r == s.subrange(i, j)
}

/// A text of ASCII characters none of which is an upper-case letter.
pub open spec fn ascii_without_upper(s: Seq<char>) -> bool {
    forall|i: int| 0 <= i < s.len() ==> (s[i] as u32) < 128 && !('A' <= s[i] && s[i] <= 'Z')
}

/// Relies on `str::to_lowercase`: the lower-case form of the text, which
/// depends on the characters alone; an ASCII character that is not an
/// upper-case letter is its own lower case.
#[verifier::external_body]
fn lowercase(s: &str) -> (r: String)
    ensures
        r@ == lower_of(s@),
        ascii_without_upper(s@) ==> r@ == s@,
{
    s.to_lowercase()
}

/// Relies on `str::trim`: the text without its leading and trailing
/// whitespace, which depends on the characters alone; the result is a slice
/// of the input.
#[verifier::external_body]
fn trim(s: &str) -> (r: &str)
    ensures
        r@ == trim_of(s@),
        is_part_of(r@, s@),
{
    s.trim()
}

/// An answer that agrees: exactly `y` or `yes`.
pub open spec fn is_yes(a: Seq<char>) -> bool {
    a == "y"@ || a == "yes"@
}

/// Whether an answer that is already trimmed and lower-cased agrees.
pub fn confirms(answer: &str) -> (r: bool)
    ensures
        r == is_yes(answer@),
{
    proof {
        reveal_strlit("y");
        reveal_strlit("yes");
    }
    let n = answer.unicode_len();
    if n == 1 {
        let r = answer.get_char(0) == 'y';
        if r {
            assert(answer@ =~= "y"@);
        }
        r
    } else if n == 3 {
        let r = answer.get_char(0) == 'y' && answer.get_char(1) == 'e' && answer.get_char(2) == 's';
        if r {
            assert(answer@ =~= "yes"@);
        }
        r
    } else {
        false
    }
}

/// Whether a line typed at a prompt agrees: after lower-casing and trimming
/// it is `y` or `yes`. Everything else, the empty line included, declines.
pub fn is_confirmation(line: &str) -> (r: bool)
    ensures
        r == is_yes(trim_of(lower_of(line@))),
        is_part_of(trim_of(lower_of(line@)), lower_of(line@)),
        ascii_without_upper(line@) ==> lower_of(line@) == line@,
{
    let lowered = lowercase(line);
    let answer = trim(lowered.as_str());
    confirms(answer)
}

} // verus!
