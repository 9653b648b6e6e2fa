//! Typed text: its last character put on and taken off, and blank text,
//! which holds nothing but white space.

use vstd::prelude::*;

verus! {

/// Whether `c` has the Unicode property White_Space.
pub open spec fn is_white_space(c: char) -> bool {
    let code = c as u32;
    ||| 0x09 <= code <= 0x0D
    ||| code == 0x20
    ||| code == 0x85
    ||| code == 0xA0
    ||| code == 0x1680
    ||| 0x2000 <= code <= 0x200A
    ||| code == 0x2028
    ||| code == 0x2029
    ||| code == 0x202F
    ||| code == 0x205F
    ||| code == 0x3000
}

/// What is left of `text` once the white space at its start is taken off.
pub open spec fn trimmed_start(text: Seq<char>) -> Seq<char>
    decreases text.len(),
{
    if text.len() > 0 && is_white_space(text.first()) {
        trimmed_start(text.drop_first())
    } else {
        text
    }
}

/// What is left of `text` once the white space at its end is taken off.
pub open spec fn trimmed_end(text: Seq<char>) -> Seq<char>
    decreases text.len(),
{
    if text.len() > 0 && is_white_space(text.last()) {
        trimmed_end(text.drop_last())
    } else {
        text
    }
}

/// What is left of `text` once the white space at both ends is taken off.
pub open spec fn trimmed(text: Seq<char>) -> Seq<char> {
    trimmed_end(trimmed_start(text))
}

/// Whether every character of `text` is white space.
pub open spec fn is_blank(text: Seq<char>) -> bool {
    forall|i: int| 0 <= i < text.len() ==> is_white_space(#[trigger] text[i])
}

/// Appends `c` to `text`. Trusted: `String::push` puts the character at the
/// end of the string and leaves what was there.
#[verifier::external_body]
pub(crate) fn push_char(text: &mut String, c: char)
    ensures
        final(text)@ == old(text)@.push(c),
{
    text.push(c);
}

/// Takes the last character off `text` and hands it out. Trusted:
/// `String::pop` removes the last character and returns it, and returns
/// `None` and leaves the string alone where it is empty.
#[verifier::external_body]
pub(crate) fn pop_char(text: &mut String) -> (last: Option<char>)
    ensures
        old(text)@.len() == 0 ==> last is None && final(text)@ == old(text)@,
        old(text)@.len() > 0 ==> last == Some(old(text)@.last()) && final(text)@ == old(
            text,
        )@.drop_last(),
{
    text.pop()
}

/// Decides whether `c` is a white space character.
pub fn white_space(c: char) -> (yes: bool)
    ensures
        yes == is_white_space(c),
{
    let code: u32 = c as u32;
    (0x09 <= code && code <= 0x0D) || code == 0x20 || code == 0x85 || code == 0xA0
        || code == 0x1680 || (0x2000 <= code && code <= 0x200A) || code == 0x2028
        || code == 0x2029 || code == 0x202F || code == 0x205F || code == 0x3000
}

/// Decides whether `text` is blank, which is to say whether trimming it
/// leaves nothing.
pub fn blank(text: &str) -> (yes: bool)
    ensures
        yes == is_blank(text@),
        yes == (trimmed(text@).len() == 0),
{
    proof {
        lemma_blank_is_trimmed_to_nothing(text@);
    }
    let mut yes: bool = true;
    for c in walk: text.chars()
        invariant
            walk.seq() == text@,
            yes == (forall|i: int| 0 <= i < walk.index() ==> is_white_space(#[trigger] text@[i])),
    {
        assert(c == text@[walk.index() as int]);
        yes = yes && white_space(c);
    }
    yes
}

/// Taking white space off the start leaves nothing of a blank text, and of
/// any other text a rest that begins with a character that is no white space.
proof fn lemma_trimmed_start(text: Seq<char>)
    ensures
        is_blank(text) ==> trimmed_start(text).len() == 0,
        !is_blank(text) ==> trimmed_start(text).len() > 0 && !is_white_space(
            trimmed_start(text).first(),
        ),
    decreases text.len(),
{
    if text.len() > 0 && is_white_space(text.first()) {
        let rest = text.drop_first();
        lemma_trimmed_start(rest);
        if is_blank(text) {
            assert forall|i: int| 0 <= i < rest.len() implies is_white_space(
                #[trigger] rest[i],
            ) by {
                assert(rest[i] == text[i + 1]);
            }
        } else {
            let bad = choose|i: int| 0 <= i < text.len() && !is_white_space(#[trigger] text[i]);
            assert(rest[bad - 1] == text[bad]);
        }
    } else if text.len() > 0 {
        assert(!is_white_space(text[0]));
    }
}

/// Taking white space off the end never empties a text that begins with a
/// character that is no white space.
proof fn lemma_trimmed_end(text: Seq<char>)
    requires
        text.len() > 0,
        !is_white_space(text.first()),
    ensures
        trimmed_end(text).len() > 0,
    decreases text.len(),
{
    if is_white_space(text.last()) {
        let rest = text.drop_last();
        assert(text.len() > 1);
        assert(rest.first() == text.first());
        lemma_trimmed_end(rest);
    }
}

/// A text is blank exactly when trimming it leaves nothing.
pub proof fn lemma_blank_is_trimmed_to_nothing(text: Seq<char>)
    ensures
        is_blank(text) <==> trimmed(text).len() == 0,
{
    lemma_trimmed_start(text);
    if !is_blank(text) {
        lemma_trimmed_end(trimmed_start(text));
    }
}

} // verus!
