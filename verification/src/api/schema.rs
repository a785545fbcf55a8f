//! The description of the native API: its constants, records, aliases,
//! enums, callbacks and functions, as read from the API document.

use crate::api::ctype::well_formed;
use vstd::prelude::*;

verus! {

/// The value of a constant of the API document, as far as the generator
/// reads it.
#[derive(Clone, Debug)]
pub enum DefineValue {
    /// A number that is no fraction and not below zero.
    Unsigned(u64),
    /// A text.
    Text(String),
    /// Anything else.
    Other,
}

/// What a `DefineValue` stands for.
pub enum DefineValueView {
    Unsigned(u64),
    Text(Seq<char>),
    Other,
}

impl View for DefineValue {
    type V = DefineValueView;

    open spec fn view(&self) -> DefineValueView {
        match self {
            DefineValue::Unsigned(n) => DefineValueView::Unsigned(*n),
            DefineValue::Text(s) => DefineValueView::Text(s@),
            DefineValue::Other => DefineValueView::Other,
        }
    }
}

impl DefineValue {
    /// The number, if the value is one.
    pub fn as_u64(&self) -> (r: Option<u64>)
        ensures
            r == (match self@ {
                DefineValueView::Unsigned(n) => Some(n),
                _ => None,
            }),
    {
        match self {
            DefineValue::Unsigned(n) => Some(*n),
            _ => None,
        }
    }

    /// The text, if the value is one.
    pub fn as_str(&self) -> (r: Option<&str>)
        ensures
            match self@ {
                DefineValueView::Text(s) => r is Some && r.unwrap()@ == s,
                _ => r is None,
            },
    {
        match self {
            DefineValue::Text(s) => Some(s.as_str()),
            _ => None,
        }
    }
}

/// A named compile-time constant.
#[derive(Clone, Debug)]
pub struct Definition {
    pub name: String,
    /// `INT`, `STRING`, or a kind that the generator passes over.
    pub kind: String,
    pub value: DefineValue,
    pub description: String,
}

/// What a `Definition` stands for.
pub struct DefinitionView {
    pub name: Seq<char>,
    pub kind: Seq<char>,
    pub value: DefineValueView,
    pub description: Seq<char>,
}

impl View for Definition {
    type V = DefinitionView;

    open spec fn view(&self) -> DefinitionView {
        DefinitionView {
            name: self.name@,
            kind: self.kind@,
            value: self.value@,
            description: self.description@,
        }
    }
}

impl DefinitionView {
    /// Whether the value is of the kind that the constant declares: a
    /// number for `INT`, a text for `STRING`.
    pub open spec fn well_formed(self) -> bool {
        &&& self.kind == "INT"@ ==> self.value is Unsigned
        &&& self.kind == "STRING"@ ==> self.value is Text
    }
}

/// A name with its C type: a field of a record, a parameter of a function,
/// or a type alias.
#[derive(Clone, Debug)]
pub struct TypedIdent {
    pub name: String,
    /// The C declarator.
    pub data_type: String,
    pub description: String,
}

/// What a `TypedIdent` stands for.
pub struct TypedIdentView {
    pub name: Seq<char>,
    pub data_type: Seq<char>,
    pub description: Seq<char>,
}

impl View for TypedIdent {
    type V = TypedIdentView;

    open spec fn view(&self) -> TypedIdentView {
        TypedIdentView {
            name: self.name@,
            data_type: self.data_type@,
            description: self.description@,
        }
    }
}

impl TypedIdentView {
    /// Whether the declarator can be written as a Rust type.
    pub open spec fn well_formed(self) -> bool {
        well_formed(self.data_type)
    }

    /// Whether this parameter stands for C variadic arguments.
    pub open spec fn is_variadic(self) -> bool {
        self.data_type == "..."@
    }
}

/// What a sequence of `TypedIdent` stands for.
pub open spec fn idents_view(idents: Seq<TypedIdent>) -> Seq<TypedIdentView> {
    idents.map_values(|t: TypedIdent| t@)
}

/// A record of the native API. The fields are in the order of the native
/// memory layout.
#[derive(Clone, Debug)]
pub struct Struct {
    pub name: String,
    pub description: String,
    pub fields: Vec<TypedIdent>,
}

/// What a `Struct` stands for.
pub struct StructView {
    pub name: Seq<char>,
    pub description: Seq<char>,
    pub fields: Seq<TypedIdentView>,
}

impl View for Struct {
    type V = StructView;

    open spec fn view(&self) -> StructView {
        StructView {
            name: self.name@,
            description: self.description@,
            fields: idents_view(self.fields@),
        }
    }
}

impl StructView {
    /// Whether the type of every field can be written as a Rust type.
    pub open spec fn well_formed(self) -> bool {
        forall|i: int| 0 <= i < self.fields.len() ==> (#[trigger] self.fields[i]).well_formed()
    }
}

/// One value of an enum.
#[derive(Clone, Debug)]
pub struct EnumValue {
    pub name: String,
    pub description: String,
    /// The numeric code.
    pub value: u32,
}

/// What an `EnumValue` stands for.
pub struct EnumValueView {
    pub name: Seq<char>,
    pub description: Seq<char>,
    pub value: u32,
}

impl View for EnumValue {
    type V = EnumValueView;

    open spec fn view(&self) -> EnumValueView {
        EnumValueView { name: self.name@, description: self.description@, value: self.value }
    }
}

/// An enum of the native API, its values in the order of the document.
#[derive(Clone, Debug)]
pub struct Enum {
    pub name: String,
    pub description: String,
    pub values: Vec<EnumValue>,
}

/// What an `Enum` stands for.
pub struct EnumView {
    pub name: Seq<char>,
    pub description: Seq<char>,
    pub values: Seq<EnumValueView>,
}

impl View for Enum {
    type V = EnumView;

    open spec fn view(&self) -> EnumView {
        EnumView {
            name: self.name@,
            description: self.description@,
            values: self.values@.map_values(|v: EnumValue| v@),
        }
    }
}

/// The signature of a native function or of a callback.
#[derive(Clone, Debug)]
pub struct Function {
    pub name: String,
    pub description: String,
    /// The C declarator of the result; `void` for none.
    pub return_type: String,
    pub params: Vec<TypedIdent>,
}

/// What a `Function` stands for.
pub struct FunctionView {
    pub name: Seq<char>,
    pub description: Seq<char>,
    pub return_type: Seq<char>,
    pub params: Seq<TypedIdentView>,
}

impl View for Function {
    type V = FunctionView;

    open spec fn view(&self) -> FunctionView {
        FunctionView {
            name: self.name@,
            description: self.description@,
            return_type: self.return_type@,
            params: idents_view(self.params@),
        }
    }
}

impl FunctionView {
    /// Whether the function returns a value.
    pub open spec fn has_result(self) -> bool {
        self.return_type != "void"@
    }

    /// Whether the type of the result, if there is one, and of every
    /// parameter that is not variadic can be written as a Rust type.
    pub open spec fn well_formed(self) -> bool {
        &&& self.has_result() ==> well_formed(self.return_type)
        &&& forall|i: int|
            0 <= i < self.params.len() ==> (#[trigger] self.params[i]).is_variadic()
                || self.params[i].well_formed()
    }
}

/// The whole native API.
#[derive(Clone, Debug)]
pub struct Api {
    pub defines: Vec<Definition>,
    pub structs: Vec<Struct>,
    pub aliases: Vec<TypedIdent>,
    pub enums: Vec<Enum>,
    pub callbacks: Vec<Function>,
    pub functions: Vec<Function>,
}

/// What an `Api` stands for.
pub struct ApiView {
    pub defines: Seq<DefinitionView>,
    pub structs: Seq<StructView>,
    pub aliases: Seq<TypedIdentView>,
    pub enums: Seq<EnumView>,
    pub callbacks: Seq<FunctionView>,
    pub functions: Seq<FunctionView>,
}

impl View for Api {
    type V = ApiView;

    open spec fn view(&self) -> ApiView {
        ApiView {
            defines: self.defines@.map_values(|d: Definition| d@),
            structs: self.structs@.map_values(|s: Struct| s@),
            aliases: idents_view(self.aliases@),
            enums: self.enums@.map_values(|e: Enum| e@),
            callbacks: self.callbacks@.map_values(|f: Function| f@),
            functions: self.functions@.map_values(|f: Function| f@),
        }
    }
}

impl ApiView {
    /// Whether every part of the API can be written out: each constant has
    /// a value of its kind, and each declarator of a record, an alias, a
    /// callback or a function can be written as a Rust type.
    pub open spec fn well_formed(self) -> bool {
        &&& forall|i: int| 0 <= i < self.defines.len() ==> (#[trigger] self.defines[i]).well_formed()
        &&& forall|i: int| 0 <= i < self.structs.len() ==> (#[trigger] self.structs[i]).well_formed()
        &&& forall|i: int| 0 <= i < self.aliases.len() ==> (#[trigger] self.aliases[i]).well_formed()
        &&& forall|i: int|
            0 <= i < self.callbacks.len() ==> (#[trigger] self.callbacks[i]).well_formed()
        &&& forall|i: int|
            0 <= i < self.functions.len() ==> (#[trigger] self.functions[i]).well_formed()
    }
}

} // verus!
