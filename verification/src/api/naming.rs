//! Names of enum values.
//!
//! A native value is named in capitals, its words joined by `_`, and begins
//! with the name of its enum: `CAMERA_ORBITAL`. The Rust name drops that
//! prefix and joins the remaining words, each with only its first letter in
//! capitals: `Orbital`.

use crate::chars::{
    ascii_lower, contains_digit, ends_with, find_char, find_from, has_digit, has_prefix,
    has_suffix, lemma_find_from, push_chars, same_chars, starts_with, to_ascii_lower, to_chars,
};
use vstd::prelude::*;
use vstd::slice::slice_subrange;

verus! {

/// The enums whose value names begin with two words of prefix.
pub open spec fn double_prefix_enums() -> Seq<Seq<char>> {
    seq![
        "CubemapLayout"@,
        "GamepadAxis"@,
        "GamepadButton"@,
        "MaterialMapIndex"@,
        "MouseButton"@,
        "MouseCursor"@,
        "PixelFormat"@,
        "ShaderAttributeDataType"@,
        "ShaderLocationIndex"@,
        "ShaderUniformDataType"@,
        "TextureFilter"@,
        "TextureWrap"@,
    ]
}

/// The enums whose values are bits that combine.
pub open spec fn bitflag_enums() -> Seq<Seq<char>> {
    seq!["ConfigFlags"@, "Gesture"@]
}

/// How many leading words of a value name of the enum `enum_name` are
/// prefix: two for the enums of `double_prefix_enums`, else one.
pub open spec fn prefix_words(enum_name: Seq<char>) -> nat {
    if double_prefix_enums().contains(enum_name) {
        2
    } else {
        1
    }
}

/// Whether the words of the enum `enum_name` keep their case when they
/// hold a digit.
pub open spec fn keeps_digit_words(enum_name: Seq<char>) -> bool {
    enum_name == "PixelFormat"@
}

/// Index just behind the `n`-th `_` of `s`, counted from `from`; `s.len()`
/// when fewer than `n` follow.
pub open spec fn behind_words(s: Seq<char>, n: nat, from: int) -> int
    decreases n,
{
    if n == 0 {
        from
    } else if find_from(s, '_', from) >= s.len() {
        s.len() as int
    } else {
        behind_words(s, (n - 1) as nat, find_from(s, '_', from) + 1)
    }
}

/// What is left of `s` without its first `n` words, each with the `_` that
/// ends it. Empty when `s` has no more than `n` words.
pub open spec fn without_prefix(s: Seq<char>, n: nat) -> Seq<char> {
    s.skip(behind_words(s, n, 0))
}

/// One word in mixed case. A word of at least two characters is put in
/// ASCII lower case but for its first character; of a leading `IVEC` the
/// first two characters stay, and of a closing `2D` the last. A shorter
/// word stays as it is, and so does, if `keep_digits`, a word that holds a
/// digit.
pub open spec fn mixed_case(word: Seq<char>, keep_digits: bool) -> Seq<char> {
    if word.len() > 1 && !(keep_digits && has_digit(word)) {
        let first: int = if has_prefix(word, "IVEC"@) {
            2
        } else {
            1
        };
        let last: int = if has_suffix(word, "2D"@) {
            word.len() - 1
        } else {
            word.len() as int
        };
        Seq::new(
            word.len(),
            |k: int|
                if first <= k < last {
                    ascii_lower(word[k])
                } else {
                    word[k]
                },
        )
    } else {
        word
    }
}

/// The words of `s` from index `from` on, each in mixed case, joined
/// without the `_` that parted them.
pub open spec fn joined_words(s: Seq<char>, keep_digits: bool, from: int) -> Seq<char>
    decreases s.len() - from,
    when 0 <= from <= s.len()
    via joined_words_decreases
{
    let end = find_from(s, '_', from);
    if end >= s.len() {
        mixed_case(s.subrange(from, s.len() as int), keep_digits)
    } else {
        mixed_case(s.subrange(from, end), keep_digits) + joined_words(s, keep_digits, end + 1)
    }
}

#[via_fn]
proof fn joined_words_decreases(s: Seq<char>, keep_digits: bool, from: int) {
    lemma_find_from(s, '_', from);
}

/// The Rust name of the value `raw` of the enum `enum_name`: `raw` without
/// its prefix words, the rest in mixed case and joined.
pub open spec fn rust_value_name(enum_name: Seq<char>, raw: Seq<char>) -> Seq<char> {
    joined_words(
        raw,
        keeps_digit_words(enum_name),
        behind_words(raw, prefix_words(enum_name), 0),
    )
}

/// The name of the bit constant for the value `raw` of the bitflag enum
/// `enum_name`: `raw` without its prefix words, otherwise as it is.
pub open spec fn flag_name(enum_name: Seq<char>, raw: Seq<char>) -> Seq<char> {
    without_prefix(raw, prefix_words(enum_name))
}

/// Whether `name` is one of `names`.
fn is_one_of(name: &[char], names: &Vec<&'static str>) -> (r: bool)
    ensures
        r == names@.map_values(|n: &'static str| n@).contains(name@),
{
    let ghost views = names@.map_values(|n: &'static str| n@);
    let mut i: usize = 0;
    while i < names.len()
        invariant
            i <= names.len(),
            views == names@.map_values(|n: &'static str| n@),
            forall|k: int| 0 <= k < i ==> views[k] != name@,
        decreases names.len() - i,
    {
        let entry = to_chars(names[i]);
        if same_chars(entry.as_slice(), name) {
            assert(views[i as int] == name@);
            return true;
        }
        i += 1;
    }
    false
}

/// How many leading words of a value name of the enum `enum_name` are
/// prefix.
pub fn count_prefix_words(enum_name: &str) -> (n: usize)
    ensures
        n == prefix_words(enum_name@),
{
    let names: Vec<&'static str> = vec![
        "CubemapLayout",
        "GamepadAxis",
        "GamepadButton",
        "MaterialMapIndex",
        "MouseButton",
        "MouseCursor",
        "PixelFormat",
        "ShaderAttributeDataType",
        "ShaderLocationIndex",
        "ShaderUniformDataType",
        "TextureFilter",
        "TextureWrap",
    ];
    assert(names@.map_values(|n: &'static str| n@) =~= double_prefix_enums());
    let name = to_chars(enum_name);
    if is_one_of(name.as_slice(), &names) {
        2
    } else {
        1
    }
}

/// Whether the values of the enum `enum_name` are bits that combine.
pub fn is_bitflag_enum(enum_name: &str) -> (r: bool)
    ensures
        r == bitflag_enums().contains(enum_name@),
{
    let names: Vec<&'static str> = vec!["ConfigFlags", "Gesture"];
    assert(names@.map_values(|n: &'static str| n@) =~= bitflag_enums());
    let name = to_chars(enum_name);
    is_one_of(name.as_slice(), &names)
}

/// Index just behind the `n`-th `_` of `v`; `v.len()` when `v` holds fewer.
pub fn skip_words(v: &[char], n: usize) -> (r: usize)
    ensures
        r == behind_words(v@, n as nat, 0),
        r <= v.len(),
{
    let mut pos: usize = 0;
    let mut left: usize = n;
    while left > 0
        invariant
            pos <= v.len(),
            behind_words(v@, n as nat, 0) == behind_words(v@, left as nat, pos as int),
        decreases left,
    {
        let end = find_char(v, '_', pos);
        if end == v.len() {
            return end;
        }
        pos = end + 1;
        left -= 1;
    }
    pos
}

/// Appends `word` to `out` in mixed case.
pub fn push_mixed_case(out: &mut String, word: &[char], keep_digits: bool)
    ensures
        final(out)@ == old(out)@ + mixed_case(word@, keep_digits),
{
    if word.len() > 1 && !(keep_digits && contains_digit(word)) {
        let vector_prefix = to_chars("IVEC");
        let plane_suffix = to_chars("2D");
        let first: usize = if starts_with(word, vector_prefix.as_slice()) {
            2
        } else {
            1
        };
        let last: usize = if ends_with(word, plane_suffix.as_slice()) {
            word.len() - 1
        } else {
            word.len()
        };
        let ghost target = mixed_case(word@, keep_digits);
        let mut k: usize = 0;
        while k < word.len()
            invariant
                k <= word.len(),
                word.len() > 1,
                target == mixed_case(word@, keep_digits),
                target.len() == word.len(),
                forall|j: int|
                    0 <= j < word.len() ==> target[j] == (if first <= j < last {
                        ascii_lower(word@[j])
                    } else {
                        word@[j]
                    }),
                out@ == old(out)@ + target.take(k as int),
            decreases word.len() - k,
        {
            let c = if first <= k && k < last {
                to_ascii_lower(word[k])
            } else {
                word[k]
            };
            out.push(c);
            k += 1;
            assert(target.take(k as int) =~= target.take(k as int - 1).push(target[k as int - 1]));
            assert(out@ =~= old(out)@ + target.take(k as int));
        }
        assert(target.take(word.len() as int) =~= target);
    } else {
        push_chars(out, word);
    }
}

/// Appends to `out` the words of `v` from index `from` on, each in mixed
/// case, without the `_` that parted them.
pub fn push_joined_words(out: &mut String, v: &[char], keep_digits: bool, from: usize)
    requires
        from <= v.len(),
    ensures
        final(out)@ == old(out)@ + joined_words(v@, keep_digits, from as int),
{
    let mut pos: usize = from;
    loop
        invariant
            from <= pos <= v.len(),
            old(out)@ + joined_words(v@, keep_digits, from as int) == out@ + joined_words(
                v@,
                keep_digits,
                pos as int,
            ),
        decreases v.len() - pos,
    {
        let end = find_char(v, '_', pos);
        let ghost before = out@;
        push_mixed_case(out, slice_subrange(v, pos, end), keep_digits);
        if end == v.len() {
            return ;
        }
        assert(before + joined_words(v@, keep_digits, pos as int) =~= out@ + joined_words(
            v@,
            keep_digits,
            end + 1,
        ));
        pos = end + 1;
    }
}

} // verus!
