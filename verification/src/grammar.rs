//! The grammar of key-combination texts such as `ctrl+alt+f5`, and what
//! holds of it.

use vstd::prelude::*;
use crate::key::{lemma_named_keys_are_words, named_key, KeyCode};
use crate::modifiers::{modifiers_named_in, KeyModifiers, NONE};

verus! {

/// The segments of a text between its `+` characters, in order. A text
/// without `+` is its own single segment; a `+` at either end, or two in a
/// row, delimit an empty segment.
pub open spec fn split_on_plus(input: Seq<char>) -> Seq<Seq<char>>
    decreases input.len(),
{
    if input.len() == 0 {
        seq![Seq::empty()]
    } else {
        let before = split_on_plus(input.drop_last());
        if input.last() == '+' {
            before.push(Seq::empty())
        } else {
            before.drop_last().push(before.last().push(input.last()))
        }
    }
}

/// Whether a text is exactly one ASCII character.
pub open spec fn is_single_ascii(name: Seq<char>) -> bool {
    name.len() == 1 && (name[0] as u32) < 128
}

/// The key that a key segment stands for: a named key of the table, else
/// the character of a single ASCII character, else none.
pub open spec fn key_named(name: Seq<char>) -> Option<KeyCode> {
    match named_key(name) {
        Some(key) => Some(key),
        None => if is_single_ascii(name) {
            Some(KeyCode::Char(name[0]))
        } else {
            None
        },
    }
}

/// What a key-combination text stands for. The text is split on `+`; the
/// last segment names the key, and each segment before it names a modifier
/// or, where it is no modifier's name, nothing.
pub open spec fn parsed_key(input: Seq<char>) -> Option<(KeyCode, KeyModifiers)> {
    let segments = split_on_plus(input);
    match key_named(segments.last()) {
        Some(key) => Some((key, KeyModifiers { bits: modifiers_named_in(segments.drop_last()) })),
        None => None,
    }
}

/// Whether a text holds no `+`.
pub open spec fn plus_free(text: Seq<char>) -> bool {
    forall|i: int| 0 <= i < text.len() ==> text[i] != '+'
}

/// The text that writes the given segments with a `+` between each two.
pub open spec fn joined_with_plus(segments: Seq<Seq<char>>) -> Seq<char>
    decreases segments.len(),
{
    if segments.len() == 0 {
        Seq::empty()
    } else if segments.len() == 1 {
        segments[0]
    } else {
        joined_with_plus(segments.drop_last()) + seq!['+'] + segments.last()
    }
}

/// A text without `+` is its own single segment.
pub proof fn lemma_split_plus_free(word: Seq<char>)
    requires
        plus_free(word),
    ensures
        split_on_plus(word) == seq![word],
    decreases word.len(),
{
    if word.len() == 0 {
        assert(word =~= Seq::empty());
    } else {
        let shorter = word.drop_last();
        lemma_split_plus_free(shorter);
        assert(shorter.push(word.last()) =~= word);
    }
}

/// A `+` and a text without `+`, written after any text, add that text as
/// one more segment.
pub proof fn lemma_split_after_plus(prefix: Seq<char>, word: Seq<char>)
    requires
        plus_free(word),
    ensures
        split_on_plus(prefix + seq!['+'] + word) == split_on_plus(prefix).push(word),
    decreases word.len(),
{
    let whole = prefix + seq!['+'] + word;
    if word.len() == 0 {
        assert(whole.drop_last() =~= prefix);
        assert(word =~= Seq::empty());
    } else {
        let shorter = word.drop_last();
        lemma_split_after_plus(prefix, shorter);
        assert(whole.drop_last() =~= prefix + seq!['+'] + shorter);
        let before = split_on_plus(prefix).push(shorter);
        assert(shorter.push(word.last()) =~= word);
    }
}

/// Splitting undoes joining: segments without `+`, at least one of them,
/// come back as they were.
pub proof fn lemma_split_joined(segments: Seq<Seq<char>>)
    requires
        segments.len() >= 1,
        forall|i: int| 0 <= i < segments.len() ==> plus_free(#[trigger] segments[i]),
    ensures
        split_on_plus(joined_with_plus(segments)) == segments,
    decreases segments.len(),
{
    if segments.len() == 1 {
        lemma_split_plus_free(segments[0]);
    } else {
        let fewer = segments.drop_last();
        lemma_split_joined(fewer);
        lemma_split_after_plus(joined_with_plus(fewer), segments.last());
    }
}

/// Modifier folding is commutative and idempotent: two key-combination
/// texts with the same key, whose modifier segments are the same names in
/// any order and any number of repetitions, stand for the same key event.
pub proof fn law_modifier_order_and_repetition(
    first: Seq<Seq<char>>,
    second: Seq<Seq<char>>,
    key: Seq<char>,
)
    requires
        forall|i: int| 0 <= i < first.len() ==> plus_free(#[trigger] first[i]),
        forall|i: int| 0 <= i < second.len() ==> plus_free(#[trigger] second[i]),
        plus_free(key),
        forall|name: Seq<char>| first.contains(name) <==> second.contains(name),
    ensures
        parsed_key(joined_with_plus(first.push(key))) == parsed_key(
            joined_with_plus(second.push(key)),
        ),
{
    lemma_split_joined(first.push(key));
    lemma_split_joined(second.push(key));
    assert(first.push(key).drop_last() =~= first);
    assert(second.push(key).drop_last() =~= second);
}

/// A text of one ASCII character other than `+` stands for that character
/// key without modifiers.
pub proof fn law_single_ascii_character(c: char)
    requires
        (c as u32) < 128,
        c != '+',
    ensures
        parsed_key(seq![c]) == Some((KeyCode::Char(c), KeyModifiers { bits: NONE })),
{
    let text = seq![c];
    lemma_split_plus_free(text);
    if named_key(text) is Some {
        lemma_named_keys_are_words(text);
    }
    assert(0u8 | 0u8 | 0u8 | 0u8 | 0u8 | 0u8 == 0u8) by (bit_vector);
}

/// A key-combination text whose key segment is neither a named key nor
/// a single ASCII character stands for no key event, whatever stands
/// before that segment, and the segment is the one that the refusal
/// carries.
pub proof fn law_unrecognized_key_is_refused(before: Seq<Seq<char>>, key: Seq<char>)
    requires
        forall|i: int| 0 <= i < before.len() ==> plus_free(#[trigger] before[i]),
        plus_free(key),
        named_key(key) is None,
        !is_single_ascii(key),
    ensures
        parsed_key(joined_with_plus(before.push(key))) is None,
        split_on_plus(joined_with_plus(before.push(key))).last() == key,
{
    lemma_split_joined(before.push(key));
}

} // verus!
