//! The whole generated source file.
//!
//! In this order: two sizes and two opaque types that the API document
//! does not hold, the module of named colors, then the constants, records,
//! aliases, enums and callbacks of the document, and last its functions in
//! one block of foreign functions.

use crate::api::schema::{
    Api, ApiView, DefinitionView, EnumView, FunctionView, StructView, TypedIdentView,
};
use crate::chars::{decimal, push_decimal};
use vstd::prelude::*;

verus! {

/// A named color: its name and its red, green, blue and alpha parts.
pub type NamedColor = (Seq<char>, u8, u8, u8, u8);

/// The named colors that the generator adds. The API document holds none.
pub open spec fn named_colors() -> Seq<NamedColor> {
    seq![
        ("LIGHTGRAY"@, 200u8, 200u8, 200u8, 255u8),
        ("GRAY"@, 130u8, 130u8, 130u8, 255u8),
        ("DARKGRAY"@, 80u8, 80u8, 80u8, 255u8),
        ("YELLOW"@, 253u8, 249u8, 0u8, 255u8),
        ("GOLD"@, 255u8, 203u8, 0u8, 255u8),
        ("ORANGE"@, 255u8, 161u8, 0u8, 255u8),
        ("PINK"@, 255u8, 109u8, 194u8, 255u8),
        ("RED"@, 230u8, 41u8, 55u8, 255u8),
        ("MAROON"@, 190u8, 33u8, 55u8, 255u8),
        ("GREEN"@, 0u8, 228u8, 48u8, 255u8),
        ("LIME"@, 0u8, 158u8, 47u8, 255u8),
        ("DARKGREEN"@, 0u8, 117u8, 44u8, 255u8),
        ("SKYBLUE"@, 102u8, 191u8, 255u8, 255u8),
        ("BLUE"@, 0u8, 121u8, 241u8, 255u8),
        ("DARKBLUE"@, 0u8, 82u8, 172u8, 255u8),
        ("PURPLE"@, 200u8, 122u8, 255u8, 255u8),
        ("VIOLET"@, 135u8, 60u8, 190u8, 255u8),
        ("DARKPURPLE"@, 112u8, 31u8, 126u8, 255u8),
        ("BEIGE"@, 211u8, 176u8, 131u8, 255u8),
        ("BROWN"@, 127u8, 106u8, 79u8, 255u8),
        ("DARKBROWN"@, 76u8, 63u8, 47u8, 255u8),
        ("WHITE"@, 255u8, 255u8, 255u8, 255u8),
        ("BLACK"@, 0u8, 0u8, 0u8, 255u8),
        ("BLANK"@, 0u8, 0u8, 0u8, 0u8),
        ("MAGENTA"@, 255u8, 0u8, 255u8, 255u8),
        ("RAYWHITE"@, 245u8, 245u8, 245u8, 255u8),
    ]
}

/// The constant that declares the color `color`.
pub open spec fn color_code(color: NamedColor) -> Seq<char> {
    "\tpub const "@ + color.0 + ": super::Color = super::Color { r: "@ + decimal(color.1 as nat)
        + ", g: "@ + decimal(color.2 as nat) + ", b: "@ + decimal(color.3 as nat) + ", a: "@
        + decimal(color.4 as nat) + " };\n"@
}

/// The texts `parts`, one after the other.
pub open spec fn joined(parts: Seq<Seq<char>>) -> Seq<char>
    decreases parts.len(),
{
    if parts.len() == 0 {
        Seq::empty()
    } else {
        joined(parts.drop_last()) + parts.last()
    }
}

/// What the generator writes before anything of the API document: the
/// sizes, the opaque types and the module of named colors.
pub open spec fn preamble_code() -> Seq<char> {
    "pub const MAX_SHADER_LOCATIONS: usize = 32;\n"@ + "pub const MAX_MATERIAL_MAPS: usize = 12;\n\n"@
        + "#[repr(C)]\npub struct rAudioBuffer { _empty: core::marker::PhantomData<()> }\n"@
        + "#[repr(C)]\npub struct rAudioProcessor { _empty: core::marker::PhantomData<()> }\n\n"@
        + "pub mod colors {\n"@ + joined(named_colors().map_values(|c: NamedColor| color_code(c)))
        + "}\n\n"@
}

impl ApiView {
    /// The generated source file.
    pub open spec fn code(self) -> Seq<char> {
        preamble_code() + joined(self.defines.map_values(|d: DefinitionView| d.code())) + joined(
            self.structs.map_values(|s: StructView| s.code()),
        ) + joined(self.aliases.map_values(|a: TypedIdentView| a.alias_code())) + joined(
            self.enums.map_values(|e: EnumView| e.code()),
        ) + joined(self.callbacks.map_values(|f: FunctionView| f.callback_code()))
            + "\nextern \"C\" {\n"@ + joined(
            self.functions.map_values(|f: FunctionView| f.function_code()),
        ) + "}\n"@
    }
}

/// Joining one text more appends it.
pub proof fn lemma_joined_next(parts: Seq<Seq<char>>, n: int)
    requires
        0 <= n < parts.len(),
    ensures
        joined(parts.take(n + 1)) == joined(parts.take(n)) + parts[n],
{
    assert(parts.take(n + 1).drop_last() =~= parts.take(n));
}

/// The named colors, for the running program.
fn color_table() -> (table: Vec<(&'static str, u8, u8, u8, u8)>)
    ensures
        table@.len() == named_colors().len(),
        forall|i: int|
            0 <= i < table@.len() ==> ((#[trigger] table@[i]).0@, table@[i].1, table@[i].2, table@[i].3, table@[i].4)
                == named_colors()[i],
{
    vec![
        ("LIGHTGRAY", 200, 200, 200, 255),
        ("GRAY", 130, 130, 130, 255),
        ("DARKGRAY", 80, 80, 80, 255),
        ("YELLOW", 253, 249, 0, 255),
        ("GOLD", 255, 203, 0, 255),
        ("ORANGE", 255, 161, 0, 255),
        ("PINK", 255, 109, 194, 255),
        ("RED", 230, 41, 55, 255),
        ("MAROON", 190, 33, 55, 255),
        ("GREEN", 0, 228, 48, 255),
        ("LIME", 0, 158, 47, 255),
        ("DARKGREEN", 0, 117, 44, 255),
        ("SKYBLUE", 102, 191, 255, 255),
        ("BLUE", 0, 121, 241, 255),
        ("DARKBLUE", 0, 82, 172, 255),
        ("PURPLE", 200, 122, 255, 255),
        ("VIOLET", 135, 60, 190, 255),
        ("DARKPURPLE", 112, 31, 126, 255),
        ("BEIGE", 211, 176, 131, 255),
        ("BROWN", 127, 106, 79, 255),
        ("DARKBROWN", 76, 63, 47, 255),
        ("WHITE", 255, 255, 255, 255),
        ("BLACK", 0, 0, 0, 255),
        ("BLANK", 0, 0, 0, 0),
        ("MAGENTA", 255, 0, 255, 255),
        ("RAYWHITE", 245, 245, 245, 255),
    ]
}

/// Appends the constant that declares one named color.
fn push_color(code: &mut String, name: &str, r: u8, g: u8, b: u8, a: u8)
    ensures
        final(code)@ == old(code)@ + color_code((name@, r, g, b, a)),
{
    code.append("\tpub const ");
    code.append(name);
    code.append(": super::Color = super::Color { r: ");
    push_decimal(code, r as u64);
    code.append(", g: ");
    push_decimal(code, g as u64);
    code.append(", b: ");
    push_decimal(code, b as u64);
    code.append(", a: ");
    push_decimal(code, a as u64);
    code.append(" };\n");
    assert(code@ =~= old(code)@ + color_code((name@, r, g, b, a)));
}

/// Appends what the generator writes before anything of the API document.
fn generate_preamble(code: &mut String)
    ensures
        final(code)@ == old(code)@ + preamble_code(),
{
    code.append("pub const MAX_SHADER_LOCATIONS: usize = 32;\n");
    code.append("pub const MAX_MATERIAL_MAPS: usize = 12;\n\n");
    code.append("#[repr(C)]\npub struct rAudioBuffer { _empty: core::marker::PhantomData<()> }\n");
    code.append(
        "#[repr(C)]\npub struct rAudioProcessor { _empty: core::marker::PhantomData<()> }\n\n",
    );
    code.append("pub mod colors {\n");
    let ghost head = code@;
    let ghost parts = named_colors().map_values(|c: NamedColor| color_code(c));
    let table = color_table();
    let mut i: usize = 0;
    while i < table.len()
        invariant
            i <= table.len(),
            table@.len() == named_colors().len(),
            forall|k: int|
                0 <= k < table@.len() ==> ((#[trigger] table@[k]).0@, table@[k].1, table@[k].2, table@[k].3, table@[k].4)
                    == named_colors()[k],
            parts == named_colors().map_values(|c: NamedColor| color_code(c)),
            code@ == head + joined(parts.take(i as int)),
        decreases table.len() - i,
    {
        let color = table[i];
        push_color(code, color.0, color.1, color.2, color.3, color.4);
        proof {
            assert(parts[i as int] == color_code(named_colors()[i as int]));
            lemma_joined_next(parts, i as int);
        }
        i += 1;
        assert(code@ =~= head + joined(parts.take(i as int)));
    }
    assert(parts.take(table.len() as int) =~= parts);
    code.append("}\n\n");
    assert(code@ =~= old(code)@ + preamble_code());
}

impl Api {
    /// Whether every part of the API can be written out.
    pub fn is_well_formed(&self) -> (ok: bool)
        ensures
            ok == self@.well_formed(),
    {
        let mut i: usize = 0;
        while i < self.defines.len()
            invariant
                i <= self.defines.len(),
                forall|k: int| 0 <= k < i ==> (#[trigger] self@.defines[k]).well_formed(),
            decreases self.defines.len() - i,
        {
            assert(self@.defines[i as int] == self.defines@[i as int]@);
            if !self.defines[i].is_well_formed() {
                return false;
            }
            i += 1;
        }
        i = 0;
        while i < self.structs.len()
            invariant
                i <= self.structs.len(),
                forall|k: int| 0 <= k < i ==> (#[trigger] self@.structs[k]).well_formed(),
            decreases self.structs.len() - i,
        {
            assert(self@.structs[i as int] == self.structs@[i as int]@);
            if !self.structs[i].is_well_formed() {
                return false;
            }
            i += 1;
        }
        i = 0;
        while i < self.aliases.len()
            invariant
                i <= self.aliases.len(),
                forall|k: int| 0 <= k < i ==> (#[trigger] self@.aliases[k]).well_formed(),
            decreases self.aliases.len() - i,
        {
            assert(self@.aliases[i as int] == self.aliases@[i as int]@);
            if !self.aliases[i].is_well_formed() {
                return false;
            }
            i += 1;
        }
        i = 0;
        while i < self.callbacks.len()
            invariant
                i <= self.callbacks.len(),
                forall|k: int| 0 <= k < i ==> (#[trigger] self@.callbacks[k]).well_formed(),
            decreases self.callbacks.len() - i,
        {
            assert(self@.callbacks[i as int] == self.callbacks@[i as int]@);
            if !self.callbacks[i].is_well_formed() {
                return false;
            }
            i += 1;
        }
        i = 0;
        while i < self.functions.len()
            invariant
                i <= self.functions.len(),
                forall|k: int| 0 <= k < i ==> (#[trigger] self@.functions[k]).well_formed(),
            decreases self.functions.len() - i,
        {
            assert(self@.functions[i as int] == self.functions@[i as int]@);
            if !self.functions[i].is_well_formed() {
                return false;
            }
            i += 1;
        }
        true
    }

    /// Appends the declarations of the constants, in their order.
    fn generate_defines(&self, code: &mut String)
        requires
            self@.well_formed(),
        ensures
            final(code)@ == old(code)@ + joined(
                self@.defines.map_values(|d: DefinitionView| d.code()),
            ),
    {
        let ghost parts = self@.defines.map_values(|d: DefinitionView| d.code());
        let mut i: usize = 0;
        while i < self.defines.len()
            invariant
                i <= self.defines.len(),
                self@.well_formed(),
                parts == self@.defines.map_values(|d: DefinitionView| d.code()),
                code@ == old(code)@ + joined(parts.take(i as int)),
            decreases self.defines.len() - i,
        {
            assert(self@.defines[i as int] == self.defines@[i as int]@);
            self.defines[i].generate_code(code);
            proof {
                lemma_joined_next(parts, i as int);
            }
            i += 1;
            assert(code@ =~= old(code)@ + joined(parts.take(i as int)));
        }
        assert(parts.take(self.defines.len() as int) =~= parts);
    }

    /// Appends the declarations of the records, in their order.
    fn generate_structs(&self, code: &mut String)
        requires
            self@.well_formed(),
        ensures
            final(code)@ == old(code)@ + joined(
                self@.structs.map_values(|s: StructView| s.code()),
            ),
    {
        let ghost parts = self@.structs.map_values(|s: StructView| s.code());
        let mut i: usize = 0;
        while i < self.structs.len()
            invariant
                i <= self.structs.len(),
                self@.well_formed(),
                parts == self@.structs.map_values(|s: StructView| s.code()),
                code@ == old(code)@ + joined(parts.take(i as int)),
            decreases self.structs.len() - i,
        {
            assert(self@.structs[i as int] == self.structs@[i as int]@);
            self.structs[i].generate_code(code);
            proof {
                lemma_joined_next(parts, i as int);
            }
            i += 1;
            assert(code@ =~= old(code)@ + joined(parts.take(i as int)));
        }
        assert(parts.take(self.structs.len() as int) =~= parts);
    }

    /// Appends the declarations of the type aliases, in their order.
    fn generate_aliases(&self, code: &mut String)
        requires
            self@.well_formed(),
        ensures
            final(code)@ == old(code)@ + joined(
                self@.aliases.map_values(|a: TypedIdentView| a.alias_code()),
            ),
    {
        let ghost parts = self@.aliases.map_values(|a: TypedIdentView| a.alias_code());
        let mut i: usize = 0;
        while i < self.aliases.len()
            invariant
                i <= self.aliases.len(),
                self@.well_formed(),
                parts == self@.aliases.map_values(|a: TypedIdentView| a.alias_code()),
                code@ == old(code)@ + joined(parts.take(i as int)),
            decreases self.aliases.len() - i,
        {
            assert(self@.aliases[i as int] == self.aliases@[i as int]@);
            self.aliases[i].generate_alias(code);
            proof {
                lemma_joined_next(parts, i as int);
            }
            i += 1;
            assert(code@ =~= old(code)@ + joined(parts.take(i as int)));
        }
        assert(parts.take(self.aliases.len() as int) =~= parts);
    }

    /// Appends the declarations of the enums, in their order.
    fn generate_enums(&self, code: &mut String)
        ensures
            final(code)@ == old(code)@ + joined(
                self@.enums.map_values(|e: EnumView| e.code()),
            ),
    {
        let ghost parts = self@.enums.map_values(|e: EnumView| e.code());
        let mut i: usize = 0;
        while i < self.enums.len()
            invariant
                i <= self.enums.len(),
                parts == self@.enums.map_values(|e: EnumView| e.code()),
                code@ == old(code)@ + joined(parts.take(i as int)),
            decreases self.enums.len() - i,
        {
            assert(self@.enums[i as int] == self.enums@[i as int]@);
            self.enums[i].generate_code(code);
            proof {
                lemma_joined_next(parts, i as int);
            }
            i += 1;
            assert(code@ =~= old(code)@ + joined(parts.take(i as int)));
        }
        assert(parts.take(self.enums.len() as int) =~= parts);
    }

    /// Appends the declarations of the callbacks, in their order.
    fn generate_callbacks(&self, code: &mut String)
        requires
            self@.well_formed(),
        ensures
            final(code)@ == old(code)@ + joined(
                self@.callbacks.map_values(|f: FunctionView| f.callback_code()),
            ),
    {
        let ghost parts = self@.callbacks.map_values(|f: FunctionView| f.callback_code());
        let mut i: usize = 0;
        while i < self.callbacks.len()
            invariant
                i <= self.callbacks.len(),
                self@.well_formed(),
                parts == self@.callbacks.map_values(|f: FunctionView| f.callback_code()),
                code@ == old(code)@ + joined(parts.take(i as int)),
            decreases self.callbacks.len() - i,
        {
            assert(self@.callbacks[i as int] == self.callbacks@[i as int]@);
            self.callbacks[i].generate_code_as_callback(code);
            proof {
                lemma_joined_next(parts, i as int);
            }
            i += 1;
            assert(code@ =~= old(code)@ + joined(parts.take(i as int)));
        }
        assert(parts.take(self.callbacks.len() as int) =~= parts);
    }

    /// Appends the declarations of the foreign functions, in their order.
    fn generate_functions(&self, code: &mut String)
        requires
            self@.well_formed(),
        ensures
            final(code)@ == old(code)@ + joined(
                self@.functions.map_values(|f: FunctionView| f.function_code()),
            ),
    {
        let ghost parts = self@.functions.map_values(|f: FunctionView| f.function_code());
        let mut i: usize = 0;
        while i < self.functions.len()
            invariant
                i <= self.functions.len(),
                self@.well_formed(),
                parts == self@.functions.map_values(|f: FunctionView| f.function_code()),
                code@ == old(code)@ + joined(parts.take(i as int)),
            decreases self.functions.len() - i,
        {
            assert(self@.functions[i as int] == self.functions@[i as int]@);
            self.functions[i].generate_code_as_function(code);
            proof {
                lemma_joined_next(parts, i as int);
            }
            i += 1;
            assert(code@ =~= old(code)@ + joined(parts.take(i as int)));
        }
        assert(parts.take(self.functions.len() as int) =~= parts);
    }

    /// Writes the generated source file.
    pub fn generate_code(&self) -> (code: String)
        requires
            self@.well_formed(),
        ensures
            code@ == self@.code(),
    {
        let mut code = String::new();
        generate_preamble(&mut code);
        self.generate_defines(&mut code);
        self.generate_structs(&mut code);
        self.generate_aliases(&mut code);
        self.generate_enums(&mut code);
        self.generate_callbacks(&mut code);
        code.append("\nextern \"C\" {\n");
        self.generate_functions(&mut code);
        code.append("}\n");
        assert(code@ =~= self@.code());
        code
    }
}

} // verus!
