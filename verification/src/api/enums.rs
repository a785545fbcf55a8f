//! Enums of the native API, written as Rust enums or as sets of bit flags.
//!
//! A plain enum gets one discriminant for each numeric code: of several
//! values with the same code only the first is written. An enum of
//! `bitflag_enums` gets one constant for each value and, last, a constant
//! without a name that holds every bit.

use crate::api::naming::{
    bitflag_enums, count_prefix_words, flag_name, is_bitflag_enum, prefix_words,
    push_joined_words, rust_value_name, skip_words,
};
use crate::api::schema::{Enum, EnumValueView, EnumView};
use crate::chars::{decimal, push_chars, push_decimal, same_text, to_chars};
use fnv::FnvHashSet;
use vstd::prelude::*;
use vstd::slice::slice_subrange;

verus! {

/// The hasher of the `fnv` crate. Verus carries it as a type parameter and
/// sees nothing inside.
#[verifier::external_type_specification]
#[verifier::external_body]
pub struct ExFnvHasher(fnv::FnvHasher);

/// The hasher builder of std that `fnv::FnvBuildHasher` is an alias of.
#[verifier::external_type_specification]
#[verifier::external_body]
#[verifier::reject_recursive_types(H)]
pub struct ExBuildHasherDefault<H>(std::hash::BuildHasherDefault<H>);

/// `HashSet::contains` on a set of `u32` that hashes with `fnv`: whether
/// `code` is in the set. `FnvHasher` starts from a fixed key and hashes the
/// bytes it is given and nothing else, so equal codes meet in the set.
#[verifier::external_body]
fn seen_contains(seen: &FnvHashSet<u32>, code: u32) -> (found: bool)
    ensures
        found == seen@.contains(code),
{
    seen.contains(&code)
}

/// `HashSet::insert` on a set of `u32` that hashes with `fnv`: afterwards
/// the set holds `code` and what it held before.
#[verifier::external_body]
fn seen_insert(seen: &mut FnvHashSet<u32>, code: u32)
    ensures
        final(seen)@ == old(seen)@.insert(code),
{
    seen.insert(code);
}

/// Whether one of the first `n` values has the numeric code `code`.
pub open spec fn occurs_before(values: Seq<EnumValueView>, n: int, code: u32) -> bool {
    exists|j: int| 0 <= j < n && (#[trigger] values[j]).value == code
}

impl EnumView {
    /// Whether the values are bits that combine.
    pub open spec fn is_bitflags(self) -> bool {
        bitflag_enums().contains(self.name)
    }

    /// Whether the value at `i` is written as a discriminant: it is the
    /// first value with its numeric code.
    pub open spec fn is_written(self, i: int) -> bool {
        !occurs_before(self.values, i, self.values[i].value)
    }

    /// What stands before the declaration of any enum.
    pub open spec fn head_code(self) -> Seq<char> {
        "\n"@ + "/// "@ + self.description + "\n"@ + "#[repr(C)]\n"@
            + "#[derive(Clone, Copy, Debug, PartialEq, Eq, Hash)]\n"@
            + "#[cfg_attr(feature = \"serde\", derive(serde::Serialize, serde::Deserialize))]\n"@
    }

    /// The discriminant for the value at `i`.
    pub open spec fn discriminant_code(self, i: int) -> Seq<char> {
        "\t/// "@ + self.values[i].description + "\n"@ + "\t"@ + rust_value_name(
            self.name,
            self.values[i].name,
        ) + " = "@ + decimal(self.values[i].value as nat) + ",\n"@
    }

    /// The discriminants for the first `n` values: one for each value that
    /// is the first with its code, in the order of the values.
    pub open spec fn discriminants_code(self, n: int) -> Seq<char>
        decreases n,
    {
        if n <= 0 {
            Seq::empty()
        } else if self.is_written(n - 1) {
            self.discriminants_code(n - 1) + self.discriminant_code(n - 1)
        } else {
            self.discriminants_code(n - 1)
        }
    }

    /// The bit constant for the value at `i`.
    pub open spec fn flag_code(self, i: int) -> Seq<char> {
        "\t\t/// "@ + self.values[i].description + "\n"@ + "\t\tconst "@ + flag_name(
            self.name,
            self.values[i].name,
        ) + " = "@ + decimal(self.values[i].value as nat) + ";\n"@
    }

    /// The bit constants for the first `n` values, in their order.
    pub open spec fn flags_code(self, n: int) -> Seq<char>
        decreases n,
    {
        if n <= 0 {
            Seq::empty()
        } else {
            self.flags_code(n - 1) + self.flag_code(n - 1)
        }
    }

    /// The declaration of the enum as a set of bit flags: a struct around a
    /// `u32`, one constant for each value, and last the constant `_` with
    /// every bit set.
    pub open spec fn bitflags_code(self) -> Seq<char> {
        "pub struct "@ + self.name + "(u32);\n\n"@ + "bitflags::bitflags! {\n\timpl "@ + self.name
            + ": u32 {\n"@ + self.flags_code(self.values.len() as int) + "\n\t\tconst _ = !0;\n"@
            + "\t}\n}\n"@
    }

    /// The declaration of the enum as a plain Rust enum.
    pub open spec fn plain_code(self) -> Seq<char> {
        "pub enum "@ + self.name + " {\n"@ + self.discriminants_code(self.values.len() as int)
            + "}\n"@
    }

    /// The declaration of the enum, in the shape that its name asks for.
    pub open spec fn code(self) -> Seq<char> {
        if self.is_bitflags() {
            self.head_code() + self.bitflags_code()
        } else {
            self.head_code() + self.plain_code()
        }
    }
}

/// Of the values with one numeric code, the first is written and no other:
/// every value has a written one at or before it with the same code, and
/// no two written values share a code.
pub proof fn law_first_of_each_code_written(e: EnumView, i: int)
    requires
        0 <= i < e.values.len(),
    ensures
        exists|j: int| 0 <= j <= i && e.is_written(j) && #[trigger] e.values[j].value == e.values[i].value,
        forall|k: int| 0 <= k < e.values.len() && k != i && e.is_written(i) && e.is_written(k) ==> (#[trigger] e.values[k]).value != e.values[i].value,
    decreases i,
{
    if e.is_written(i) {
        assert(e.values[i].value == e.values[i].value);
    } else {
        let j = choose|j: int| 0 <= j < i && (#[trigger] e.values[j]).value == e.values[i].value;
        law_first_of_each_code_written(e, j);
        let first = choose|f: int| 0 <= f <= j && e.is_written(f) && #[trigger] e.values[f].value == e.values[j].value;
        assert(e.values[first].value == e.values[i].value);
    }
    assert forall|k: int| 0 <= k < e.values.len() && k != i && e.is_written(i) && e.is_written(k) implies (#[trigger] e.values[k]).value != e.values[i].value by {
        if e.values[k].value == e.values[i].value {
            if k < i {
                assert(occurs_before(e.values, i, e.values[i].value));
            } else {
                assert(occurs_before(e.values, k, e.values[k].value));
            }
        }
    }
}

/// The bits of the constant `_` that ends a set of bit flags. It is written
/// as `!0`, which in a `u32` is every bit.
pub open spec fn catch_all_bits() -> u32 {
    0xffff_ffffu32
}

/// The bits that the first `n` named constants hold between them.
pub open spec fn named_bits(values: Seq<EnumValueView>, n: int) -> u32
    decreases n,
{
    if n <= 0 {
        0u32
    } else {
        named_bits(values, n - 1) | values[n - 1].value
    }
}

/// The named constants of a set of bit flags and the constant `_` hold
/// every one of the 32 bits between them, whatever the named ones are.
pub proof fn law_bitflags_cover_all_bits(e: EnumView, bit: u32)
    requires
        e.is_bitflags(),
        bit < 32,
    ensures
        named_bits(e.values, e.values.len() as int) | catch_all_bits() == u32::MAX,
        ((named_bits(e.values, e.values.len() as int) | catch_all_bits()) >> bit) & 1 == 1,
{
    let named = named_bits(e.values, e.values.len() as int);
    assert(named | 0xffff_ffffu32 == 0xffff_ffffu32) by (bit_vector);
    assert((0xffff_ffffu32 >> bit) & 1 == 1) by (bit_vector)
        requires
            bit < 32,
    ;
}

impl Enum {
    /// How many leading words of a value name are the prefix of this enum.
    pub fn prefix_count(&self) -> (n: usize)
        ensures
            n == prefix_words(self@.name),
    {
        count_prefix_words(self.name.as_str())
    }

    /// Whether the values are bits that combine.
    pub fn is_bitflags(&self) -> (r: bool)
        ensures
            r == self@.is_bitflags(),
    {
        is_bitflag_enum(self.name.as_str())
    }

    /// The Rust name of the value that the native API calls `value_name`.
    pub fn format_value_name(&self, value_name: &str) -> (name: String)
        ensures
            name@ == rust_value_name(self@.name, value_name@),
    {
        let raw = to_chars(value_name);
        let from = skip_words(raw.as_slice(), self.prefix_count());
        let keep_digits = same_text(self.name.as_str(), "PixelFormat");
        let mut name = String::new();
        push_joined_words(&mut name, raw.as_slice(), keep_digits, from);
        assert(name@ =~= rust_value_name(self@.name, value_name@));
        name
    }

    /// Appends the declaration of the enum to `code`.
    pub fn generate_code(&self, code: &mut String)
        ensures
            final(code)@ == old(code)@ + self@.code(),
    {
        code.append("\n");
        code.append("/// ");
        code.append(self.description.as_str());
        code.append("\n");
        code.append("#[repr(C)]\n");
        code.append("#[derive(Clone, Copy, Debug, PartialEq, Eq, Hash)]\n");
        code.append(
            "#[cfg_attr(feature = \"serde\", derive(serde::Serialize, serde::Deserialize))]\n",
        );
        assert(code@ =~= old(code)@ + self@.head_code());
        if self.is_bitflags() {
            self.generate_bitflags(code);
            assert(code@ =~= old(code)@ + self@.code());
            return ;
        }
        code.append("pub enum ");
        code.append(self.name.as_str());
        code.append(" {\n");
        let ghost head = code@;
        let mut seen: FnvHashSet<u32> = FnvHashSet::default();
        let mut i: usize = 0;
        while i < self.values.len()
            invariant
                i <= self.values.len(),
                forall|c: u32| seen@.contains(c) <==> occurs_before(self@.values, i as int, c),
                code@ == head + self@.discriminants_code(i as int),
            decreases self.values.len() - i,
        {
            let value = &self.values[i];
            assert(self@.values[i as int] == value@);
            let ghost before = code@;
            if !seen_contains(&seen, value.value) {
                seen_insert(&mut seen, value.value);
                code.append("\t/// ");
                code.append(value.description.as_str());
                code.append("\n");
                code.append("\t");
                let name = self.format_value_name(value.name.as_str());
                code.append(name.as_str());
                code.append(" = ");
                push_decimal(code, value.value as u64);
                code.append(",\n");
                assert(code@ =~= before + self@.discriminant_code(i as int));
            }
            assert forall|c: u32| seen@.contains(c) <==> occurs_before(
                self@.values,
                i + 1,
                c,
            ) by {
                if occurs_before(self@.values, i + 1, c) {
                    let j = choose|j: int| 0 <= j < i + 1 && (#[trigger] self@.values[j]).value == c;
                    if j < i {
                        assert(occurs_before(self@.values, i as int, c));
                    }
                }
                if seen@.contains(c) && c != value.value {
                    assert(occurs_before(self@.values, i as int, c));
                    let j = choose|j: int| 0 <= j < i && (#[trigger] self@.values[j]).value == c;
                    assert(0 <= j < i + 1 && self@.values[j].value == c);
                }
                if c == value.value {
                    assert(self@.values[i as int].value == c);
                }
            }
            i += 1;
            assert(code@ =~= head + self@.discriminants_code(i as int));
        }
        code.append("}\n");
        assert(code@ =~= old(code)@ + self@.code());
    }

    /// Appends the declaration of the enum as a set of bit flags to `code`.
    pub fn generate_bitflags(&self, code: &mut String)
        ensures
            final(code)@ == old(code)@ + self@.bitflags_code(),
    {
        code.append("pub struct ");
        code.append(self.name.as_str());
        code.append("(u32);\n\n");
        code.append("bitflags::bitflags! {\n\timpl ");
        code.append(self.name.as_str());
        code.append(": u32 {\n");
        let ghost head = code@;
        let prefix = self.prefix_count();
        let mut i: usize = 0;
        while i < self.values.len()
            invariant
                i <= self.values.len(),
                prefix == prefix_words(self@.name),
                code@ == head + self@.flags_code(i as int),
            decreases self.values.len() - i,
        {
            let value = &self.values[i];
            assert(self@.values[i as int] == value@);
            let ghost before = code@;
            code.append("\t\t/// ");
            code.append(value.description.as_str());
            code.append("\n");
            code.append("\t\tconst ");
            let raw = to_chars(value.name.as_str());
            let from = skip_words(raw.as_slice(), prefix);
            push_chars(code, slice_subrange(raw.as_slice(), from, raw.len()));
            code.append(" = ");
            push_decimal(code, value.value as u64);
            code.append(";\n");
            assert(raw@.subrange(from as int, raw@.len() as int) =~= raw@.skip(from as int));
            assert(code@ =~= before + self@.flag_code(i as int));
            i += 1;
            assert(code@ =~= head + self@.flags_code(i as int));
        }
        code.append("\n\t\tconst _ = !0;\n");
        code.append("\t}\n}\n");
        assert(code@ =~= old(code)@ + self@.bitflags_code());
    }
}

} // verus!
