//! Contracts for the pieces of `std`'s string API that the library
//! uses and that vstd leaves unspecified.

use vstd::prelude::*;

verus! {

use vstd::std_specs::iter::IteratorSpec;

broadcast use vstd::string::group_string_axioms;

/// Relies on `String::push` from std: appends the given character to
/// the end of the string, as its documentation states.
pub assume_specification[ String::push ](s: &mut String, c: char)
    ensures
        final(s)@ == old(s)@.push(c),
;

/// Whether a character carries the Unicode White_Space property:
/// the characters that `str::trim` removes.
pub open spec fn spec_is_ws(c: char) -> bool {
    let u = c as u32;
    ||| (0x9 <= u && u <= 0xD)
    ||| u == 0x20
    ||| u == 0x85
    ||| u == 0xA0
    ||| u == 0x1680
    ||| (0x2000 <= u && u <= 0x200A)
    ||| u == 0x2028
    ||| u == 0x2029
    ||| u == 0x202F
    ||| u == 0x205F
    ||| u == 0x3000
}

fn is_ws(c: char) -> (r: bool)
    ensures
        r == spec_is_ws(c),
{
    let u = c as u32;
    (0x9 <= u && u <= 0xD) || u == 0x20 || u == 0x85 || u == 0xA0 || u == 0x1680 || (0x2000 <= u
        && u <= 0x200A) || u == 0x2028 || u == 0x2029 || u == 0x202F || u == 0x205F || u == 0x3000
}

/// Whether a text is empty or whitespace only.
pub open spec fn spec_all_ws(s: Seq<char>) -> bool {
    forall|i: int| 0 <= i < s.len() ==> spec_is_ws(#[trigger] s[i])
}

/// Whether a text is empty or whitespace only.
pub fn is_blank(s: &str) -> (r: bool)
    ensures
        r == spec_all_ws(s@),
{
    let mut it = s.chars();
    let ghost mut done: Seq<char> = Seq::empty();
    loop
        invariant
            done + it.remaining() == s@,
            forall|i: int| 0 <= i < done.len() ==> spec_is_ws(#[trigger] done[i]),
            done.len() <= s@.len(),
        ensures
            spec_all_ws(s@),
        decreases s@.len() - done.len(),
    {
        match it.next() {
            Some(c) => {
                if !is_ws(c) {
                    proof {
                        assert(s@[done.len() as int] == c);
                    }
                    return false;
                }
                proof {
                    done = done.push(c);
                }
            },
            None => {
                proof {
                    assert(done =~= s@);
                }
                break ;
            },
        }
    }
    true
}

/// String slice equality, by owned comparison.
pub fn str_eq(a: &str, b: &str) -> (r: bool)
    ensures
        r == (a@ == b@),
{
    let sa: String = a.to_owned();
    let sb: String = b.to_owned();
    sa == sb
}

} // verus!
