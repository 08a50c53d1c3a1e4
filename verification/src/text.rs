//! Texts as sequences of characters, and their white space.

use vstd::prelude::*;

verus! {

/// The characters of a text.
pub fn chars_of(text: &str) -> (chars: Vec<char>)
    ensures
        chars@ == text@,
{
    let mut chars: Vec<char> = Vec::new();
    for c in it: text.chars()
        invariant
            it.seq() == text@,
            chars@ == it.seq().take(it.index() as int),
    {
        chars.push(c);
        assert(chars@ =~= it.seq().take(it.index() + 1));
    }
    assert(chars@ =~= text@);
    chars
}

/// The white space of Unicode: the controls from tab to carriage
/// return, the space, the next-line control, and the spaces and
/// separators beyond ASCII.
pub open spec fn is_space(c: char) -> bool {
    let code = c as u32;
    code == 0x20 || 0x09 <= code <= 0x0D || code == 0x85 || code == 0xA0 || code == 0x1680
        || 0x2000 <= code <= 0x200A || code == 0x2028 || code == 0x2029 || code == 0x202F || code
        == 0x205F || code == 0x3000
}

/// Whether the character is white space.
pub fn space(c: char) -> (yes: bool)
    ensures
        yes == is_space(c),
{
    let code = c as u32;
    code == 0x20 || (0x09 <= code && code <= 0x0D) || code == 0x85 || code == 0xA0 || code == 0x1680
        || (0x2000 <= code && code <= 0x200A) || code == 0x2028 || code == 0x2029 || code
        == 0x202F || code == 0x205F || code == 0x3000
}

} // verus!
