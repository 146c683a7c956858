//! Keys of persisted records.
//!
//! A record is written under a key that is made for it alone: a 128-bit
//! identifier, 48 bits of time above 80 random bits, spelled as 26 digits of
//! Crockford's base 32 in lower case.

use vstd::prelude::*;

verus! {

/// The number of characters in a key.
pub const KEY_LEN: usize = 26;

/// Digit `d` of Crockford's base 32, in upper case.
pub open spec fn upper_digit(d: int) -> char {
    "0123456789ABCDEFGHJKMNPQRSTVWXYZ"@[d]
}

/// Digit `d` of Crockford's base 32, in lower case.
pub open spec fn lower_digit(d: int) -> char {
    "0123456789abcdefghjkmnpqrstvwxyz"@[d]
}

/// The last `len` base-32 digits of `value`, most significant first, in upper
/// case.
pub open spec fn upper_text(value: nat, len: nat) -> Seq<char>
    decreases len,
{
    if len == 0 {
        Seq::empty()
    } else {
        upper_text(value / 32, (len - 1) as nat).push(upper_digit((value % 32) as int))
    }
}

/// The last `len` base-32 digits of `value`, most significant first, in lower
/// case.
pub open spec fn lower_text(value: nat, len: nat) -> Seq<char>
    decreases len,
{
    if len == 0 {
        Seq::empty()
    } else {
        lower_text(value / 32, (len - 1) as nat).push(lower_digit((value % 32) as int))
    }
}

/// The key that stands for the identifier `id`.
pub open spec fn key_text(id: u128) -> Seq<char> {
    lower_text(id as nat, 26)
}

/// The ASCII lower-case form of a character: `A` to `Z` go to `a` to `z`,
/// every other character stays.
pub open spec fn lower(c: char) -> char {
    if 'A' <= c && c <= 'Z' {
        ((c as u8) + 32) as char
    } else {
        c
    }
}

/// The ASCII lower-case form of a text, character by character.
pub open spec fn lowered(s: Seq<char>) -> Seq<char> {
    Seq::new(s.len(), |i: int| lower(s[i]))
}

/// The text is a key: it spells some identifier.
pub open spec fn is_record_key(s: Seq<char>) -> bool {
    exists|id: u128| s == key_text(id)
}

/// The place of a lower-case digit in the alphabet.
pub open spec fn digit_value(c: char) -> int {
    if '0' <= c && c <= '9' {
        c as int - '0' as int
    } else if 'a' <= c && c <= 'h' {
        c as int - 'a' as int + 10
    } else if 'j' <= c && c <= 'k' {
        c as int - 'j' as int + 18
    } else if 'm' <= c && c <= 'n' {
        c as int - 'm' as int + 20
    } else if 'p' <= c && c <= 't' {
        c as int - 'p' as int + 22
    } else {
        c as int - 'v' as int + 27
    }
}

/// Each lower-case digit is the lower-case form of its upper-case digit, is
/// its own lower-case form, and has its place in the alphabet as its value.
pub proof fn lemma_digits(d: int)
    requires
        0 <= d < 32,
    ensures
        lower(upper_digit(d)) == lower_digit(d),
        lower(lower_digit(d)) == lower_digit(d),
        digit_value(lower_digit(d)) == d,
{
    reveal_strlit("0123456789ABCDEFGHJKMNPQRSTVWXYZ");
    reveal_strlit("0123456789abcdefghjkmnpqrstvwxyz");
}

/// A text of digits has as many characters as digits were asked for.
pub proof fn lemma_text_len(value: nat, len: nat)
    ensures
        upper_text(value, len).len() == len,
        lower_text(value, len).len() == len,
    decreases len,
{
    if len > 0 {
        lemma_text_len(value / 32, (len - 1) as nat);
    }
}

/// The lower-case form of the upper-case digits is the lower-case digits.
pub proof fn lemma_lowered_text(value: nat, len: nat)
    ensures
        lowered(upper_text(value, len)) == lower_text(value, len),
        lowered(lower_text(value, len)) == lower_text(value, len),
    decreases len,
{
    lemma_text_len(value, len);
    if len > 0 {
        lemma_text_len(value / 32, (len - 1) as nat);
        lemma_lowered_text(value / 32, (len - 1) as nat);
        lemma_digits((value % 32) as int);
        assert(lowered(upper_text(value, len)) == lowered(
            upper_text(value / 32, (len - 1) as nat),
        ).push(lower(upper_digit((value % 32) as int))));
        assert(lowered(lower_text(value, len)) == lowered(
            lower_text(value / 32, (len - 1) as nat),
        ).push(lower(lower_digit((value % 32) as int))));
    } else {
        assert(lowered(upper_text(value, len)) == lower_text(value, len));
        assert(lowered(lower_text(value, len)) == lower_text(value, len));
    }
}

/// What is left of `value` above its last `len` base-32 digits.
pub open spec fn above(value: nat, len: nat) -> nat
    decreases len,
{
    if len == 0 {
        value
    } else {
        above(value / 32, (len - 1) as nat)
    }
}

/// Two numbers with the same last `len` digits and the same rest above them
/// are the same number.
pub proof fn lemma_text_decides(a: nat, b: nat, len: nat)
    requires
        lower_text(a, len) == lower_text(b, len),
        above(a, len) == above(b, len),
    ensures
        a == b,
    decreases len,
{
    if len > 0 {
        let rest = (len - 1) as nat;
        let ta = lower_text(a / 32, rest).push(lower_digit((a % 32) as int));
        let tb = lower_text(b / 32, rest).push(lower_digit((b % 32) as int));
        assert(ta == tb);
        assert(ta.drop_last() == lower_text(a / 32, rest));
        assert(tb.drop_last() == lower_text(b / 32, rest));
        assert(ta.last() == lower_digit((a % 32) as int));
        assert(tb.last() == lower_digit((b % 32) as int));
        lemma_digits((a % 32) as int);
        lemma_digits((b % 32) as int);
        lemma_text_decides(a / 32, b / 32, rest);
    }
}

/// Nothing of a 128-bit identifier is left above its 26 digits.
pub proof fn lemma_key_holds_all(id: u128)
    ensures
        above(id as nat, 26) == 0,
{
    reveal_with_fuel(above, 27);
}

/// Every character of a text of digits is a digit of the alphabet.
pub proof fn lemma_text_digit(value: nat, len: nat, i: int)
    requires
        0 <= i < len,
    ensures
        lower_text(value, len).len() == len,
        0 <= digit_value(lower_text(value, len)[i]) < 32,
        lower_text(value, len)[i] == lower_digit(digit_value(lower_text(value, len)[i])),
    decreases len,
{
    lemma_text_len(value, len);
    lemma_text_len(value / 32, (len - 1) as nat);
    if i == len - 1 {
        lemma_digits((value % 32) as int);
    } else {
        lemma_text_digit(value / 32, (len - 1) as nat, i);
    }
}

/// A key has 26 characters, each a lower-case digit of the alphabet, and is
/// its own lower-case form.
pub proof fn law_key_is_canonical(id: u128)
    ensures
        key_text(id).len() == KEY_LEN,
        forall|i: int|
            0 <= i < KEY_LEN ==> 0 <= digit_value(#[trigger] key_text(id)[i]) < 32 && key_text(
                id,
            )[i] == lower_digit(digit_value(key_text(id)[i])),
        lowered(key_text(id)) == key_text(id),
{
    lemma_text_len(id as nat, 26);
    lemma_lowered_text(id as nat, 26);
    assert forall|i: int| 0 <= i < KEY_LEN implies 0 <= digit_value(#[trigger] key_text(id)[i])
        < 32 && key_text(id)[i] == lower_digit(digit_value(key_text(id)[i])) by {
        lemma_text_digit(id as nat, 26, i);
    }
}

/// Different identifiers have different keys.
pub proof fn law_keys_differ(a: u128, b: u128)
    requires
        a != b,
    ensures
        key_text(a) != key_text(b),
{
    if key_text(a) == key_text(b) {
        lemma_key_holds_all(a);
        lemma_key_holds_all(b);
        lemma_text_decides(a as nat, b as nat, 26);
    }
}

/// `s` comes before `t` in lexicographic order: they agree up to some place,
/// and there `s` has the smaller character.
pub open spec fn precedes(s: Seq<char>, t: Seq<char>) -> bool {
    exists|i: int|
        0 <= i < s.len() && i < t.len() && s.subrange(0, i) == t.subrange(0, i) && (s[i] as int)
            < (t[i] as int)
}

/// The digits of the alphabet ascend.
pub proof fn lemma_digits_ascend(d: int, e: int)
    requires
        0 <= d < e < 32,
    ensures
        (lower_digit(d) as int) < (lower_digit(e) as int),
    decreases e - d,
{
    reveal_strlit("0123456789abcdefghjkmnpqrstvwxyz");
    if d + 1 < e {
        lemma_digits_ascend(d, e - 1);
        lemma_digits_ascend(e - 1, e);
    }
}

/// Of two numbers that agree above their last `len` digits, the smaller has
/// the text that comes first.
pub proof fn lemma_text_ascends(a: nat, b: nat, len: nat)
    requires
        a < b,
        above(a, len) == above(b, len),
    ensures
        precedes(lower_text(a, len), lower_text(b, len)),
    decreases len,
{
    let rest = (len - 1) as nat;
    let ta = lower_text(a, len);
    let tb = lower_text(b, len);
    lemma_text_len(a, len);
    lemma_text_len(b, len);
    lemma_text_len(a / 32, rest);
    lemma_text_len(b / 32, rest);
    if a / 32 == b / 32 {
        lemma_digits_ascend((a % 32) as int, (b % 32) as int);
        assert(ta.subrange(0, len - 1) == lower_text(a / 32, rest));
        assert(tb.subrange(0, len - 1) == lower_text(b / 32, rest));
        assert(ta[len - 1] == lower_digit((a % 32) as int));
        assert(tb[len - 1] == lower_digit((b % 32) as int));
    } else {
        lemma_text_ascends(a / 32, b / 32, rest);
        let fa = lower_text(a / 32, rest);
        let fb = lower_text(b / 32, rest);
        let i = choose|i: int|
            0 <= i < fa.len() && i < fb.len() && fa.subrange(0, i) == fb.subrange(0, i) && (
            fa[i] as int) < (fb[i] as int);
        assert(ta.subrange(0, i) == fa.subrange(0, i));
        assert(tb.subrange(0, i) == fb.subrange(0, i));
        assert(ta[i] == fa[i] && tb[i] == fb[i]);
    }
}

/// Keys sort as their identifiers do: the key of the smaller identifier
/// comes first. An identifier holds its time above its random bits, so the
/// key of an earlier millisecond comes before that of a later one.
pub proof fn law_keys_sort_as_identifiers(a: u128, b: u128)
    requires
        a < b,
    ensures
        precedes(key_text(a), key_text(b)),
{
    lemma_key_holds_all(a);
    lemma_key_holds_all(b);
    lemma_text_ascends(a as nat, b as nat, 26);
}

/// `ulid::Ulid::new`, by its 128 bits. The identifier is made from the clock
/// and from random bits, so nothing is said of it.
#[verifier::external_body]
fn new_ulid() -> u128 {
    ulid::Ulid::new().0
}

/// `ulid::Ulid::to_string` of the identifier with these 128 bits: 26
/// characters, the base-32 digits of the number from the most significant
/// down, in Crockford's upper-case alphabet.
#[verifier::external_body]
fn ulid_string(value: u128) -> (s: String)
    ensures
        s@ == upper_text(value as nat, 26),
{
    ulid::Ulid(value).to_string()
}

/// `str::to_ascii_lowercase`: a copy in which `A` to `Z` have become `a` to
/// `z` and every other character is as it was.
#[verifier::external_body]
fn ascii_lowercase(s: &str) -> (r: String)
    ensures
        r@ == lowered(s@),
{
    s.to_ascii_lowercase()
}

/// The key under which the record with identifier `id` is stored.
pub fn record_key(id: u128) -> (key: String)
    ensures
        key@ == key_text(id),
{
    let text = ulid_string(id);
    proof {
        lemma_lowered_text(id as nat, 26);
    }
    ascii_lowercase(text.as_str())
}

/// A key for a new record, from a fresh identifier.
pub fn fresh_record_key() -> (key: String)
    ensures
        is_record_key(key@),
{
    let id = new_ulid();
    record_key(id)
}

} // verus!
