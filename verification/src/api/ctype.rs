//! C declarators, and the Rust type expressions that stand for them.
//!
//! A declarator is an optional leading `const `, a base type name, and an
//! optional marker: ` *` for a pointer, ` **` for a pointer to a pointer, or
//! `[N]` for an array of `N` items.

use crate::chars::{
    decimal, ends_with, find_char, find_from, has_prefix, has_suffix, is_digit,
    law_decimal_reads_back, lemma_decimal_digits, lemma_find_from, lemma_find_from_is, parse_u32,
    push_chars, push_decimal, read_u32, same_chars, starts_with, to_chars,
};
use vstd::prelude::*;
use vstd::slice::slice_subrange;

verus! {

/// How a declarator refers to its base type.
#[derive(Clone, Copy, Debug, PartialEq, Eq)]
pub enum RefType {
    /// The base type itself.
    Value,
    /// A pointer to the base type.
    Ref,
    /// A pointer to a pointer to the base type.
    DoubleRef,
    /// An array of that many items of the base type.
    Array(u32),
}

/// The C fundamental types and the Rust types that stand for them, as
/// pairs of names. A base name that is in no pair stands for itself.
pub open spec fn base_types() -> Seq<(Seq<char>, Seq<char>)> {
    seq![
        ("float"@, "core::ffi::c_float"@),
        ("double"@, "core::ffi::c_double"@),
        ("unsigned char"@, "core::ffi::c_uchar"@),
        ("signed char"@, "core::ffi::c_schar"@),
        ("char"@, "core::ffi::c_char"@),
        ("unsigned short"@, "core::ffi::c_ushort"@),
        ("signed short"@, "core::ffi::c_short"@),
        ("short"@, "core::ffi::c_short"@),
        ("unsigned int"@, "core::ffi::c_uint"@),
        ("signed int"@, "core::ffi::c_int"@),
        ("int"@, "core::ffi::c_int"@),
        ("unsigned long"@, "core::ffi::c_ulong"@),
        ("signed long"@, "core::ffi::c_long"@),
        ("long"@, "core::ffi::c_long"@),
        ("unsigned long long"@, "core::ffi::c_ulonglong"@),
        ("signed long long"@, "core::ffi::c_longlong"@),
        ("long long"@, "core::ffi::c_longlong"@),
        ("void"@, "core::ffi::c_void"@),
        ("va_list"@, "*mut core::ffi::c_void"@),
    ]
}

/// Index of the first pair of `table` at or after `from` whose first name
/// is `name`, or `table.len()` when there is none.
pub open spec fn lookup_from(table: Seq<(Seq<char>, Seq<char>)>, name: Seq<char>, from: int) -> int
    decreases table.len() - from,
{
    if from >= table.len() {
        table.len() as int
    } else if table[from].0 == name {
        from
    } else {
        lookup_from(table, name, from + 1)
    }
}

/// Whether `name` is one of the C fundamental types of `base_types`.
pub open spec fn is_fundamental(name: Seq<char>) -> bool {
    lookup_from(base_types(), name, 0) < base_types().len()
}

/// The Rust name of the base type `name`: what `base_types` pairs it with,
/// or `name` itself when it is in no pair.
pub open spec fn mapped_base(name: Seq<char>) -> Seq<char> {
    if is_fundamental(name) {
        base_types()[lookup_from(base_types(), name, 0)].1
    } else {
        name
    }
}

/// Whether the declarator `s` is qualified by a leading `const `.
pub open spec fn is_const(s: Seq<char>) -> bool {
    has_prefix(s, "const "@)
}

/// The declarator `s` without its leading `const `, if it has one.
pub open spec fn unqualified(s: Seq<char>) -> Seq<char> {
    if is_const(s) {
        s.skip("const "@.len() as int)
    } else {
        s
    }
}

/// The text between the first `[` of `dt` and the `]` that follows it;
/// `None` when no `]` follows.
pub open spec fn array_size_text(dt: Seq<char>) -> Option<Seq<char>> {
    let open = find_from(dt, '[', 0);
    let close = find_from(dt, ']', open + 1);
    if close < dt.len() {
        Some(dt.subrange(open + 1, close))
    } else {
        None
    }
}

/// How the unqualified declarator `dt` refers to its base type. The markers
/// are tried in this order: ` *`, ` **`, `[`. `None` when `dt` has the
/// array marker and its size is missing, is no number or exceeds `u32`.
pub open spec fn ref_type_of(dt: Seq<char>) -> Option<RefType> {
    if has_suffix(dt, " *"@) {
        Some(RefType::Ref)
    } else if has_suffix(dt, " **"@) {
        Some(RefType::DoubleRef)
    } else if find_from(dt, '[', 0) < dt.len() {
        match array_size_text(dt) {
            Some(digits) => match parse_u32(digits) {
                Some(n) => Some(RefType::Array(n)),
                None => None,
            },
            None => None,
        }
    } else {
        Some(RefType::Value)
    }
}

/// The base type name of the unqualified declarator `dt`: what stands
/// before the marker. Before `[`, one separating space is no part of the
/// name.
pub open spec fn base_of(dt: Seq<char>) -> Seq<char> {
    if has_suffix(dt, " *"@) {
        dt.take(dt.len() - " *"@.len())
    } else if has_suffix(dt, " **"@) {
        dt.take(dt.len() - " **"@.len())
    } else if find_from(dt, '[', 0) < dt.len() {
        let head = dt.take(find_from(dt, '[', 0));
        if has_suffix(head, " "@) {
            head.drop_last()
        } else {
            head
        }
    } else {
        dt
    }
}

/// Whether `s` is a declarator that can be written as a Rust type: every
/// text is, but one with an array marker whose size cannot be read.
pub open spec fn well_formed(s: Seq<char>) -> bool {
    ref_type_of(unqualified(s)) is Some
}

/// The keyword for the mutability of a pointer.
pub open spec fn mutability(constant: bool) -> Seq<char> {
    if constant {
        "const"@
    } else {
        "mut"@
    }
}

/// The Rust type expression for the Rust base type `target`, referred to as
/// `ref_type` says. Constness shows in pointers only.
pub open spec fn composed(target: Seq<char>, constant: bool, ref_type: RefType) -> Seq<char> {
    match ref_type {
        RefType::Value => target,
        RefType::Ref => "*"@ + mutability(constant) + " "@ + target,
        RefType::DoubleRef => "*"@ + mutability(constant) + " *"@ + mutability(constant) + " "@
            + target,
        RefType::Array(n) => "["@ + target + "; "@ + decimal(n as nat) + "]"@,
    }
}

/// The Rust type expression for the declarator `s`.
pub open spec fn formatted(s: Seq<char>) -> Seq<char>
    recommends
        well_formed(s),
{
    composed(
        mapped_base(base_of(unqualified(s))),
        is_const(s),
        ref_type_of(unqualified(s)).unwrap(),
    )
}

/// Whether `s` is a bare base type name: no leading `const ` and no
/// pointer or array marker.
pub open spec fn is_base_name(s: Seq<char>) -> bool {
    !is_const(s) && !has_suffix(s, " *"@) && !has_suffix(s, " **"@) && find_from(s, '[', 0)
        == s.len()
}

/// A bare base type name is written as the Rust name of that base type.
pub proof fn lemma_base_name_formatted(name: Seq<char>)
    requires
        is_base_name(name),
    ensures
        well_formed(name),
        formatted(name) == mapped_base(name),
{
}

/// A text that begins with `p` holds the characters of `p` at its start.
proof fn lemma_prefix_char(s: Seq<char>, p: Seq<char>, k: int)
    requires
        has_prefix(s, p),
        0 <= k < p.len(),
    ensures
        s[k] == p[k],
{
    assert(s.subrange(0, p.len() as int)[k] == s[k]);
}

/// A text that ends with `p` ends with the last character of `p`.
proof fn lemma_suffix_last(s: Seq<char>, p: Seq<char>)
    requires
        has_suffix(s, p),
        p.len() > 0,
    ensures
        s.last() == p.last(),
{
    assert(s.subrange(s.len() - p.len(), s.len() as int)[p.len() - 1] == s[s.len() - 1]);
}

/// A text that ends with `p` holds the first character of `p` where `p`
/// begins.
proof fn lemma_suffix_first(s: Seq<char>, p: Seq<char>)
    requires
        has_suffix(s, p),
        p.len() > 0,
    ensures
        s[s.len() - p.len()] == p[0],
{
    assert(s.subrange(s.len() - p.len(), s.len() as int)[0] == s[s.len() - p.len()]);
}

/// A text of fewer than 20 characters whose first two characters are not
/// `co`, whose last is not `*` and which holds no `[` is a bare base name.
proof fn lemma_short_name_is_base(s: Seq<char>)
    requires
        0 < s.len() < 20,
        s[0] != 'c' || s[1] != 'o',
        s.last() != '*',
        forall|k: int| 0 <= k < s.len() ==> s[k] != '[',
    ensures
        is_base_name(s),
{
    reveal_strlit("const ");
    reveal_strlit(" *");
    reveal_strlit(" **");
    if has_prefix(s, "const "@) {
        lemma_prefix_char(s, "const "@, 0);
        lemma_prefix_char(s, "const "@, 1);
    }
    if has_suffix(s, " *"@) {
        lemma_suffix_last(s, " *"@);
    }
    if has_suffix(s, " **"@) {
        lemma_suffix_last(s, " **"@);
    }
    lemma_find_from(s, '[', 0);
}

/// Each name of `base_types` is a bare base name, and is found in the table
/// at its own place.
proof fn lemma_table_entry(i: int)
    requires
        0 <= i < base_types().len(),
    ensures
        is_base_name(base_types()[i].0),
        lookup_from(base_types(), base_types()[i].0, 0) == i,
{
    reveal_strlit("float");
    reveal_strlit("double");
    reveal_strlit("unsigned char");
    reveal_strlit("signed char");
    reveal_strlit("char");
    reveal_strlit("unsigned short");
    reveal_strlit("signed short");
    reveal_strlit("short");
    reveal_strlit("unsigned int");
    reveal_strlit("signed int");
    reveal_strlit("int");
    reveal_strlit("unsigned long");
    reveal_strlit("signed long");
    reveal_strlit("long");
    reveal_strlit("unsigned long long");
    reveal_strlit("signed long long");
    reveal_strlit("long long");
    reveal_strlit("void");
    reveal_strlit("va_list");
    reveal_with_fuel(lookup_from, 20);
    let name = base_types()[i].0;
    assert("unsigned long"@[9] != "unsigned char"@[9]);
    assert("signed long"@[7] != "signed char"@[7]);
    assert("short"@[0] != "float"@[0]);
    assert("unsigned int"@[0] != "signed short"@[0]);
    assert("long"@[0] != "char"@[0]);
    assert("void"@[0] != "char"@[0]);
    assert("void"@[0] != "long"@[0]);
    assert(forall|k: int| 0 <= k < name.len() ==> name[k] != '[') by {
        reveal_with_fuel(find_from, 20);
        assert(find_from(name, '[', 0) == name.len());
        lemma_find_from(name, '[', 0);
    }
    lemma_short_name_is_base(name);
}

/// Every C fundamental type of `base_types` is written as the Rust type
/// that the table pairs it with.
pub proof fn law_fundamental_types_mapped(i: int)
    requires
        0 <= i < base_types().len(),
    ensures
        well_formed(base_types()[i].0),
        formatted(base_types()[i].0) == base_types()[i].1,
{
    lemma_table_entry(i);
    lemma_base_name_formatted(base_types()[i].0);
}

/// A bare base name that is no C fundamental type is written unchanged.
pub proof fn law_other_names_unchanged(name: Seq<char>)
    requires
        is_base_name(name),
        !is_fundamental(name),
    ensures
        well_formed(name),
        formatted(name) == name,
{
}

/// The qualifier of a declarator that is constant, or nothing.
pub open spec fn qualifier(constant: bool) -> Seq<char> {
    if constant {
        "const "@
    } else {
        Seq::empty()
    }
}

/// The space that may part a base name from the bracket of an array.
pub open spec fn separator(spaced: bool) -> Seq<char> {
    if spaced {
        " "@
    } else {
        Seq::empty()
    }
}

/// A bare base name other than `const`, followed by a marker, is constant
/// only with the qualifier before it; what follows the qualifier is the
/// name with its marker.
proof fn lemma_qualified(base: Seq<char>, marker: Seq<char>, constant: bool)
    requires
        is_base_name(base),
        base != "const"@,
        marker.len() > 0,
        marker[0] == ' ' || marker[0] == '[',
    ensures
        is_const(qualifier(constant) + base + marker) == constant,
        unqualified(qualifier(constant) + base + marker) == base + marker,
{
    reveal_strlit("const ");
    reveal_strlit("const");
    let s = qualifier(constant) + base + marker;
    if constant {
        assert(s.subrange(0, 6) =~= "const "@);
        assert(s.skip(6) =~= base + marker);
    } else {
        assert(s =~= base + marker);
        if has_prefix(s, "const "@) {
            lemma_prefix_char(s, "const "@, 0);
            lemma_prefix_char(s, "const "@, 1);
            lemma_prefix_char(s, "const "@, 2);
            lemma_prefix_char(s, "const "@, 3);
            lemma_prefix_char(s, "const "@, 4);
            lemma_prefix_char(s, "const "@, 5);
            if base.len() >= 6 {
                assert(base.subrange(0, 6) =~= "const "@);
            } else if base.len() == 5 {
                assert(base =~= "const"@);
            } else {
                assert(s[base.len() as int] == marker[0]);
            }
        }
    }
}

/// A pointer to a base type is written as `*const` or `*mut`, as the
/// declarator is constant or not, and the Rust name of the base type.
pub proof fn law_pointer_composed(base: Seq<char>, constant: bool)
    requires
        is_base_name(base),
        base != "const"@,
    ensures
        well_formed(qualifier(constant) + base + " *"@),
        formatted(qualifier(constant) + base + " *"@) == "*"@ + mutability(constant) + " "@
            + mapped_base(base),
{
    reveal_strlit(" *");
    lemma_qualified(base, " *"@, constant);
    let dt = base + " *"@;
    assert(dt.subrange(dt.len() - 2, dt.len() as int) =~= " *"@);
    assert(dt.take(dt.len() - 2) =~= base);
}

/// A pointer to a pointer to a base type repeats the mutability.
pub proof fn law_double_pointer_composed(base: Seq<char>, constant: bool)
    requires
        is_base_name(base),
        base != "const"@,
    ensures
        well_formed(qualifier(constant) + base + " **"@),
        formatted(qualifier(constant) + base + " **"@) == "*"@ + mutability(constant) + " *"@
            + mutability(constant) + " "@ + mapped_base(base),
{
    reveal_strlit(" *");
    reveal_strlit(" **");
    lemma_qualified(base, " **"@, constant);
    let dt = base + " **"@;
    if has_suffix(dt, " *"@) {
        lemma_suffix_first(dt, " *"@);
        assert(dt[dt.len() - 2] == '*');
    }
    assert(dt.subrange(dt.len() - 3, dt.len() as int) =~= " **"@);
    assert(dt.take(dt.len() - 3) =~= base);
}

/// An array of `n` items of a base type is written as `[T; n]` with the
/// Rust name of the base type, constant or not, with or without a space
/// before the bracket.
pub proof fn law_array_composed(base: Seq<char>, constant: bool, spaced: bool, n: u32)
    requires
        is_base_name(base),
        base != "const"@,
        spaced || !has_suffix(base, " "@),
    ensures
        well_formed(
            qualifier(constant) + base + (separator(spaced) + "["@ + decimal(n as nat) + "]"@),
        ),
        formatted(
            qualifier(constant) + base + (separator(spaced) + "["@ + decimal(n as nat) + "]"@),
        ) == "["@ + mapped_base(base) + "; "@ + decimal(n as nat) + "]"@,
{
    reveal_strlit(" *");
    reveal_strlit(" **");
    reveal_strlit(" ");
    reveal_strlit("[");
    reveal_strlit("]");
    let digits = decimal(n as nat);
    let marker = separator(spaced) + "["@ + digits + "]"@;
    lemma_qualified(base, marker, constant);
    lemma_decimal_digits(n as nat);
    law_decimal_reads_back(n);
    let dt = base + marker;
    let open: int = (base.len() + separator(spaced).len()) as int;
    let close: int = open + 1 + digits.len();
    assert(dt.len() == close + 1);
    assert(dt.last() == ']');
    if has_suffix(dt, " *"@) {
        lemma_suffix_last(dt, " *"@);
    }
    if has_suffix(dt, " **"@) {
        lemma_suffix_last(dt, " **"@);
    }
    lemma_find_from(base, '[', 0);
    assert forall|j: int| 0 <= j < open implies dt[j] != '[' by {
        if j < base.len() {
            assert(dt[j] == base[j]);
        }
    }
    assert(dt[open] == '[');
    lemma_find_from_is(dt, '[', 0, open);
    assert forall|j: int| open + 1 <= j < close implies dt[j] != ']' by {
        assert(dt[j] == digits[j - open - 1]);
        assert(is_digit(digits[j - open - 1]));
    }
    assert(dt[close] == ']');
    lemma_find_from_is(dt, ']', open + 1, close);
    assert(dt.subrange(open + 1, close) =~= digits);
    let head = dt.take(open);
    if spaced {
        assert(head =~= base + " "@);
        assert(head.subrange(head.len() - 1, head.len() as int) =~= " "@);
        assert(head.drop_last() =~= base);
    } else {
        assert(head =~= base);
    }
}

/// The pairs of `base_types`, for the running program.
fn base_type_table() -> (table: Vec<(&'static str, &'static str)>)
    ensures
        table@.len() == base_types().len(),
        forall|i: int|
            0 <= i < table@.len() ==> (#[trigger] table@[i]).0@ == base_types()[i].0 && table@[i].1@
                == base_types()[i].1,
{
    vec![
        ("float", "core::ffi::c_float"),
        ("double", "core::ffi::c_double"),
        ("unsigned char", "core::ffi::c_uchar"),
        ("signed char", "core::ffi::c_schar"),
        ("char", "core::ffi::c_char"),
        ("unsigned short", "core::ffi::c_ushort"),
        ("signed short", "core::ffi::c_short"),
        ("short", "core::ffi::c_short"),
        ("unsigned int", "core::ffi::c_uint"),
        ("signed int", "core::ffi::c_int"),
        ("int", "core::ffi::c_int"),
        ("unsigned long", "core::ffi::c_ulong"),
        ("signed long", "core::ffi::c_long"),
        ("long", "core::ffi::c_long"),
        ("unsigned long long", "core::ffi::c_ulonglong"),
        ("signed long long", "core::ffi::c_longlong"),
        ("long long", "core::ffi::c_longlong"),
        ("void", "core::ffi::c_void"),
        ("va_list", "*mut core::ffi::c_void"),
    ]
}

/// Appends the Rust name of the base type `name` to `out`.
fn push_mapped_base(out: &mut String, name: &[char])
    ensures
        final(out)@ == old(out)@ + mapped_base(name@),
{
    let table = base_type_table();
    let mut i: usize = 0;
    while i < table.len()
        invariant
            i <= table.len(),
            out@ == old(out)@,
            table@.len() == base_types().len(),
            forall|k: int|
                0 <= k < table@.len() ==> (#[trigger] table@[k]).0@ == base_types()[k].0
                    && table@[k].1@ == base_types()[k].1,
            lookup_from(base_types(), name@, 0) == lookup_from(base_types(), name@, i as int),
        decreases table.len() - i,
    {
        let entry = table[i];
        let key = to_chars(entry.0);
        if same_chars(key.as_slice(), name) {
            out.append(entry.1);
            return ;
        }
        i += 1;
    }
    push_chars(out, name);
}

/// Reads the marker of the unqualified declarator `dt`: how it refers to
/// its base type, and how many leading characters make up the base name.
fn read_marker(dt: &[char]) -> (r: (Option<RefType>, usize))
    ensures
        r.0 == ref_type_of(dt@),
        r.1 <= dt@.len(),
        dt@.take(r.1 as int) == base_of(dt@),
{
    let pointer = to_chars(" *");
    let double_pointer = to_chars(" **");
    if ends_with(dt, pointer.as_slice()) {
        return (Some(RefType::Ref), dt.len() - pointer.len());
    }
    if ends_with(dt, double_pointer.as_slice()) {
        return (Some(RefType::DoubleRef), dt.len() - double_pointer.len());
    }
    let open = find_char(dt, '[', 0);
    if open == dt.len() {
        assert(dt@.take(dt.len() as int) =~= dt@);
        return (Some(RefType::Value), dt.len());
    }
    let space = to_chars(" ");
    let head = slice_subrange(dt, 0, open);
    let base_len = if ends_with(head, space.as_slice()) {
        proof {
            reveal_strlit(" ");
            assert(dt@.take(open as int).drop_last() =~= dt@.take(open as int - 1));
        }
        open - 1
    } else {
        open
    };
    let close = find_char(dt, ']', open + 1);
    if close == dt.len() {
        return (None, base_len);
    }
    match read_u32(slice_subrange(dt, open + 1, close)) {
        Some(n) => (Some(RefType::Array(n)), base_len),
        None => (None, base_len),
    }
}

/// Whether `data_type` is a declarator that `format_type` can write as a
/// Rust type.
pub fn is_well_formed_type(data_type: &str) -> (ok: bool)
    ensures
        ok == well_formed(data_type@),
{
    let v = to_chars(data_type);
    let qualifier = to_chars("const ");
    let dt = if starts_with(v.as_slice(), qualifier.as_slice()) {
        slice_subrange(v.as_slice(), qualifier.len(), v.len())
    } else {
        assert(v@.subrange(0, v@.len() as int) =~= v@);
        slice_subrange(v.as_slice(), 0, v.len())
    };
    read_marker(dt).0.is_some()
}

/// Writes the declarator `data_type` as a Rust type expression.
///
/// The base type name is mapped through `base_types`; a pointer is
/// `*const` or `*mut` as the declarator is `const` or not, a pointer to a
/// pointer repeats that, and an array of `N` items is `[T; N]`.
pub fn format_type(data_type: &str) -> (out: String)
    requires
        well_formed(data_type@),
    ensures
        out@ == formatted(data_type@),
{
    let v = to_chars(data_type);
    let qualifier = to_chars("const ");
    let constant = starts_with(v.as_slice(), qualifier.as_slice());
    let dt = if constant {
        slice_subrange(v.as_slice(), qualifier.len(), v.len())
    } else {
        assert(v@.subrange(0, v@.len() as int) =~= v@);
        slice_subrange(v.as_slice(), 0, v.len())
    };
    let (ref_type, base_len) = read_marker(dt);
    let base = slice_subrange(dt, 0, base_len);
    let keyword = if constant {
        "const"
    } else {
        "mut"
    };
    let mut out = String::new();
    match ref_type {
        Some(RefType::Value) => {
            push_mapped_base(&mut out, base);
        },
        Some(RefType::Ref) => {
            out.append("*");
            out.append(keyword);
            out.append(" ");
            push_mapped_base(&mut out, base);
        },
        Some(RefType::DoubleRef) => {
            out.append("*");
            out.append(keyword);
            out.append(" *");
            out.append(keyword);
            out.append(" ");
            push_mapped_base(&mut out, base);
        },
        Some(RefType::Array(n)) => {
            out.append("[");
            push_mapped_base(&mut out, base);
            out.append("; ");
            push_decimal(&mut out, n as u64);
            out.append("]");
        },
        None => {},
    }
    assert(out@ =~= formatted(data_type@));
    out
}

} // verus!
