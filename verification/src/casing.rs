//! Naming-convention conversions for identifiers coming out of the
//! interface language: kebab-case to snake_case and to PascalCase.

use vstd::prelude::*;

use crate::strutil::push_char;

verus! {

/// The uppercase form of an ASCII character: the letters a-z go to
/// A-Z and every other ASCII character stays itself.
pub open spec fn ascii_upper(c: char) -> char {
    if c == 'a' { 'A' } else if c == 'b' { 'B' } else if c == 'c' { 'C' }
    else if c == 'd' { 'D' } else if c == 'e' { 'E' } else if c == 'f' { 'F' }
    else if c == 'g' { 'G' } else if c == 'h' { 'H' } else if c == 'i' { 'I' }
    else if c == 'j' { 'J' } else if c == 'k' { 'K' } else if c == 'l' { 'L' }
    else if c == 'm' { 'M' } else if c == 'n' { 'N' } else if c == 'o' { 'O' }
    else if c == 'p' { 'P' } else if c == 'q' { 'Q' } else if c == 'r' { 'R' }
    else if c == 's' { 'S' } else if c == 't' { 'T' } else if c == 'u' { 'U' }
    else if c == 'v' { 'V' } else if c == 'w' { 'W' } else if c == 'x' { 'X' }
    else if c == 'y' { 'Y' } else if c == 'z' { 'Z' } else { c }
}

/// The first character of the Unicode uppercase mapping of a
/// character beyond ASCII.
pub uninterp spec fn upper_char_ext(c: char) -> char;

/// The first character of the Unicode uppercase mapping of `c`: the
/// familiar table on ASCII, and the named mapping beyond it.
pub open spec fn upper_char(c: char) -> char {
    if (c as u32) < 128 {
        ascii_upper(c)
    } else {
        upper_char_ext(c)
    }
}

/// Relies on char::to_uppercase: the mapping depends on the character
/// alone; it sends the ASCII letters a-z to A-Z and leaves every other
/// ASCII character unchanged; it always yields at least one character.
#[verifier::external_body]
fn uppercase_first(c: char) -> (r: char)
    ensures
        r == upper_char(c),
        (c as u32) >= 128 ==> r == upper_char_ext(c),
{
    c.to_uppercase().next().unwrap()
}

/// Replaces every `-` with `_`, turning a kebab-case identifier into
/// its snake_case form.
pub open spec fn snake_of(s: Seq<char>) -> Seq<char> {
    s.map_values(|c: char| if c == '-' { '_' } else { c })
}

/// Converts a kebab-case identifier to snake_case.
pub fn to_snake_case(s: &str) -> (r: String)
    ensures
        r@ == snake_of(s@),
{
    let mut out = String::new();
    let len = s.unicode_len();
    let mut i: usize = 0;
    while i < len
        invariant
            len == s@.len(),
            i <= len,
            out@ == snake_of(s@.subrange(0, i as int)),
        decreases len - i,
    {
        let c = s.get_char(i);
        if c == '-' {
            push_char(&mut out, '_');
        } else {
            push_char(&mut out, c);
        }
        i += 1;
        proof {
            assert(s@.subrange(0, i as int) =~= s@.subrange(0, i as int - 1).push(s@[i - 1]));
            assert(out@ =~= snake_of(s@.subrange(0, i as int)));
        }
    }
    proof {
        assert(s@.subrange(0, len as int) =~= s@);
    }
    out
}

/// The PascalCase form of a kebab-case identifier: the pieces between
/// `-` separators are glued together, the first character of each
/// non-empty piece uppercased; `at_start` says whether the next
/// character begins a piece.
pub open spec fn pascal_rec(s: Seq<char>, at_start: bool) -> Seq<char>
    decreases s.len(),
{
    if s.len() == 0 {
        Seq::empty()
    } else if s[0] == '-' {
        pascal_rec(s.drop_first(), true)
    } else if at_start {
        seq![upper_char(s[0])] + pascal_rec(s.drop_first(), false)
    } else {
        seq![s[0]] + pascal_rec(s.drop_first(), false)
    }
}

/// The PascalCase form of a kebab-case identifier.
pub open spec fn pascal_of(s: Seq<char>) -> Seq<char> {
    pascal_rec(s, true)
}

/// Converts a kebab-case identifier to PascalCase.
pub fn to_pascal_case(s: &str) -> (r: String)
    ensures
        r@ == pascal_of(s@),
{
    let mut out = String::new();
    let len = s.unicode_len();
    let mut at_start = true;
    proof {
        assert(s@.skip(0) =~= s@);
    }
    let mut i: usize = 0;
    while i < len
        invariant
            len == s@.len(),
            i <= len,
            pascal_of(s@) == out@ + pascal_rec(s@.skip(i as int), at_start),
        decreases len - i,
    {
        let c = s.get_char(i);
        proof {
            assert(s@.skip(i as int)[0] == s@[i as int]);
            assert(s@.skip(i as int).drop_first() =~= s@.skip(i as int + 1));
        }
        if c == '-' {
            at_start = true;
        } else if at_start {
            push_char(&mut out, uppercase_first(c));
            at_start = false;
        } else {
            push_char(&mut out, c);
        }
        i += 1;
        proof {
            assert(pascal_of(s@) =~= out@ + pascal_rec(s@.skip(i as int), at_start));
        }
    }
    proof {
        assert(s@.skip(len as int) =~= Seq::<char>::empty());
    }
    out
}

} // verus!
