//! Sets of modifier keys.

use vstd::prelude::*;
use crate::text::str_equals;
use crossterm::event::KeyModifiers as TerminalModifiers;

verus! {

/// The empty set of modifiers.
pub const NONE: u8 = 0x00;

/// The bit of the shift key.
pub const SHIFT: u8 = 0x01;

/// The bit of the control key.
pub const CONTROL: u8 = 0x02;

/// The bit of the alt key.
pub const ALT: u8 = 0x04;

/// The bit of the super key.
pub const SUPER: u8 = 0x08;

/// The bit of the hyper key.
pub const HYPER: u8 = 0x10;

/// The bit of the meta key.
pub const META: u8 = 0x20;

/// The bits of all six modifier keys.
pub const ALL: u8 = 0x3f;

/// A set of modifier keys, one bit for each; `NONE` is the empty set.
#[derive(Debug, Clone, Copy, PartialEq, Eq, Hash, Structural)]
pub struct KeyModifiers {
    pub bits: u8,
}

impl KeyModifiers {
    /// The union of two sets.
    pub open spec fn union_of(self, other: KeyModifiers) -> KeyModifiers {
        KeyModifiers { bits: self.bits | other.bits }
    }

    /// The set with the given bits, without those that stand for no key.
    pub fn from_bits_truncate(bits: u8) -> (set: KeyModifiers)
        ensures
            set.bits == bits & ALL,
    {
        KeyModifiers { bits: bits & ALL }
    }

    /// The union of two sets.
    pub fn union(self, other: KeyModifiers) -> (both: KeyModifiers)
        ensures
            both == self.union_of(other),
    {
        KeyModifiers { bits: self.bits | other.bits }
    }
}

/// Union makes the sets a semilattice with `NONE` at the bottom: it is
/// commutative, associative and idempotent, and the empty set changes
/// nothing.
pub proof fn law_union_of_modifier_sets(a: KeyModifiers, b: KeyModifiers, c: KeyModifiers)
    ensures
        a.union_of(b) == b.union_of(a),
        a.union_of(b).union_of(c) == a.union_of(b.union_of(c)),
        a.union_of(a) == a,
        a.union_of(KeyModifiers { bits: NONE }) == a,
{
    let x = a.bits;
    let y = b.bits;
    let z = c.bits;
    assert(x | y == y | x) by (bit_vector);
    assert((x | y) | z == x | (y | z)) by (bit_vector);
    assert(x | x == x) by (bit_vector);
    assert(x | 0u8 == x) by (bit_vector);
}

/// The modifier that a name stands for; `NONE` for any other text.
pub open spec fn modifier_named(name: Seq<char>) -> u8 {
    if name == "ctrl"@ {
        CONTROL
    } else if name == "alt"@ {
        ALT
    } else if name == "shift"@ {
        SHIFT
    } else if name == "super"@ {
        SUPER
    } else if name == "meta"@ {
        META
    } else if name == "hyper"@ {
        HYPER
    } else {
        NONE
    }
}

/// The modifier that a name stands for; the empty set for any other text.
pub fn modifier_from_name(name: &str) -> (set: KeyModifiers)
    ensures
        set.bits == modifier_named(name@),
{
    if str_equals(name, "ctrl") {
        KeyModifiers { bits: CONTROL }
    } else if str_equals(name, "alt") {
        KeyModifiers { bits: ALT }
    } else if str_equals(name, "shift") {
        KeyModifiers { bits: SHIFT }
    } else if str_equals(name, "super") {
        KeyModifiers { bits: SUPER }
    } else if str_equals(name, "meta") {
        KeyModifiers { bits: META }
    } else if str_equals(name, "hyper") {
        KeyModifiers { bits: HYPER }
    } else {
        KeyModifiers { bits: NONE }
    }
}

/// `bit` where `present` holds, else no bit.
pub open spec fn flag(present: bool, bit: u8) -> u8 {
    if present {
        bit
    } else {
        0
    }
}

/// The set that a list of names stands for: a modifier is in it exactly
/// when its name occurs in the list, wherever and however often.
pub open spec fn modifiers_named_in(names: Seq<Seq<char>>) -> u8 {
    flag(names.contains("shift"@), SHIFT) | flag(names.contains("ctrl"@), CONTROL) | flag(
        names.contains("alt"@),
        ALT,
    ) | flag(names.contains("super"@), SUPER) | flag(names.contains("hyper"@), HYPER) | flag(
        names.contains("meta"@),
        META,
    )
}

/// The six modifier names are six different texts.
pub proof fn lemma_modifier_names_differ()
    ensures
        "shift"@ != "ctrl"@,
        "shift"@ != "alt"@,
        "shift"@ != "super"@,
        "shift"@ != "hyper"@,
        "shift"@ != "meta"@,
        "ctrl"@ != "alt"@,
        "ctrl"@ != "super"@,
        "ctrl"@ != "hyper"@,
        "ctrl"@ != "meta"@,
        "alt"@ != "super"@,
        "alt"@ != "hyper"@,
        "alt"@ != "meta"@,
        "super"@ != "hyper"@,
        "super"@ != "meta"@,
        "hyper"@ != "meta"@,
{
    reveal_strlit("shift");
    reveal_strlit("ctrl");
    reveal_strlit("alt");
    reveal_strlit("super");
    reveal_strlit("hyper");
    reveal_strlit("meta");
    assert("ctrl"@[1] == 't');
    assert("alt"@[1] == 'l');
    assert("super"@[1] == 'u');
    assert("hyper"@[1] == 'y');
    assert("meta"@[1] == 'e');
}

/// One more name in the list adds the modifier it stands for.
pub proof fn lemma_modifiers_named_in_push(names: Seq<Seq<char>>, name: Seq<char>)
    ensures
        modifiers_named_in(names.push(name)) == modifiers_named_in(names) | modifier_named(name),
{
    lemma_modifier_names_differ();
    let longer = names.push(name);
    assert forall|word: Seq<char>|
        longer.contains(word) == (names.contains(word) || name == word) by {
        if names.contains(word) {
            let i = choose|i: int| 0 <= i < names.len() && names[i] == word;
            assert(longer[i] == word);
        }
        if name == word {
            assert(longer[names.len() as int] == word);
        }
    }
    let a = flag(names.contains("shift"@), SHIFT);
    let b = flag(names.contains("ctrl"@), CONTROL);
    let c = flag(names.contains("alt"@), ALT);
    let d = flag(names.contains("super"@), SUPER);
    let e = flag(names.contains("hyper"@), HYPER);
    let f = flag(names.contains("meta"@), META);
    assert((a | b | c | d | e | f) | 0u8 == a | b | c | d | e | f) by (bit_vector);
    assert((a == 0 || a == 1) ==> (a | b | c | d | e | f) | 1u8 == 1u8 | b | c | d | e | f)
        by (bit_vector);
    assert((b == 0 || b == 2) ==> (a | b | c | d | e | f) | 2u8 == a | 2u8 | c | d | e | f)
        by (bit_vector);
    assert((c == 0 || c == 4) ==> (a | b | c | d | e | f) | 4u8 == a | b | 4u8 | d | e | f)
        by (bit_vector);
    assert((d == 0 || d == 8) ==> (a | b | c | d | e | f) | 8u8 == a | b | c | 8u8 | e | f)
        by (bit_vector);
    assert((e == 0 || e == 16) ==> (a | b | c | d | e | f) | 16u8 == a | b | c | d | 16u8 | f)
        by (bit_vector);
    assert((f == 0 || f == 32) ==> (a | b | c | d | e | f) | 32u8 == a | b | c | d | e | 32u8)
        by (bit_vector);
}

/// What `{:?}` prints for a set of modifiers of the terminal library, as
/// a function of the set's bits.
pub uninterp spec fn modifier_set_debug_text(bits: u8) -> Seq<char>;

/// The developer-facing text of a set of modifiers.
///
/// Trusted: this builds crossterm's `KeyModifiers` with exactly the given
/// bits (`from_bits_retain`) and formats it with `{:?}`. The text is
/// produced by the `Debug` impl that crossterm has from the bitflags crate
/// and depends on the bits alone; it is named, not spelled out.
#[verifier::external_body]
pub(crate) fn modifier_set_debug(bits: u8) -> (text: String)
    ensures
        text@ == modifier_set_debug_text(bits),
{
    format!("{:?}", TerminalModifiers::from_bits_retain(bits))
}

/// What stands before the key in the text of a key event: nothing for the
/// empty set, the key's title and `+` for one of the six single modifiers,
/// and the developer-facing text of the set and `+` for any other set.
pub open spec fn modifier_prefix(set: KeyModifiers) -> Seq<char> {
    if set.bits == NONE {
        Seq::empty()
    } else if set.bits == CONTROL {
        "Ctrl+"@
    } else if set.bits == ALT {
        "Alt+"@
    } else if set.bits == SHIFT {
        "Shift+"@
    } else if set.bits == SUPER {
        "Super+"@
    } else if set.bits == META {
        "Meta+"@
    } else if set.bits == HYPER {
        "Hyper+"@
    } else {
        modifier_set_debug_text(set.bits) + "+"@
    }
}

/// Appends to `text` what stands before the key in the text of a key event.
pub fn push_modifier_prefix(text: &mut String, set: KeyModifiers)
    ensures
        final(text)@ == old(text)@ + modifier_prefix(set),
{
    if set.bits == NONE {
    } else if set.bits == CONTROL {
        text.append("Ctrl+");
    } else if set.bits == ALT {
        text.append("Alt+");
    } else if set.bits == SHIFT {
        text.append("Shift+");
    } else if set.bits == SUPER {
        text.append("Super+");
    } else if set.bits == META {
        text.append("Meta+");
    } else if set.bits == HYPER {
        text.append("Hyper+");
    } else {
        let shown = modifier_set_debug(set.bits);
        text.append(shown.as_str());
        text.append("+");
    }
}

} // verus!
