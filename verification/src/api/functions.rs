//! Functions and callbacks of the native API, written as declarations in a
//! block of foreign functions and as types of nullable function pointers.

use crate::api::ctype::{format_type, formatted, is_well_formed_type};
use crate::api::schema::{Function, FunctionView, TypedIdent, TypedIdentView};
use crate::chars::same_text;
use vstd::prelude::*;

verus! {

/// The name of a parameter as Rust can take it: `type` and `box` are
/// words of the language and are written as raw identifiers, every other
/// name is written as it is.
pub open spec fn escaped_name(name: Seq<char>) -> Seq<char> {
    if name == "type"@ {
        "r#type"@
    } else if name == "box"@ {
        "r#box"@
    } else {
        name
    }
}

impl TypedIdentView {
    /// This parameter in a signature, with the comma that follows it:
    /// `...` for variadic arguments, else the name and the Rust type.
    pub open spec fn param_code(self) -> Seq<char> {
        if self.is_variadic() {
            "..., "@
        } else {
            escaped_name(self.name) + ": "@ + formatted(self.data_type) + ", "@
        }
    }
}

/// The parameters `params` in a signature, in their order.
pub open spec fn params_code(params: Seq<TypedIdentView>) -> Seq<char>
    decreases params.len(),
{
    if params.len() == 0 {
        Seq::empty()
    } else {
        params_code(params.drop_last()) + params.last().param_code()
    }
}

impl FunctionView {
    /// The result in a signature: nothing for `void`, else an arrow and
    /// the Rust type.
    pub open spec fn result_code(self) -> Seq<char> {
        if self.has_result() {
            " -> "@ + formatted(self.return_type)
        } else {
            Seq::empty()
        }
    }

    /// The signature: the parameters in round brackets, then the result.
    pub open spec fn signature_code(self) -> Seq<char> {
        "("@ + params_code(self.params) + ")"@ + self.result_code()
    }

    /// The declaration as a callback: a type alias for a function pointer
    /// that may be null.
    pub open spec fn callback_code(self) -> Seq<char> {
        "/// "@ + self.description + "\n"@ + "pub type "@ + self.name
            + " = Option<unsafe extern \"C\" fn"@ + self.signature_code() + ">;\n"@
    }

    /// The declaration as a foreign function.
    pub open spec fn function_code(self) -> Seq<char> {
        "\t/// "@ + self.description + "\n"@ + "\tpub fn "@ + self.name + self.signature_code()
            + ";\n"@
    }
}

/// A parameter named `type` or `box` is written as a raw identifier, and
/// the name of every other parameter is written unchanged.
pub proof fn law_reserved_words_escaped(name: Seq<char>)
    ensures
        name == "type"@ ==> escaped_name(name) == "r#type"@,
        name == "box"@ ==> escaped_name(name) == "r#box"@,
        name != "type"@ && name != "box"@ ==> escaped_name(name) == name,
{
    reveal_strlit("type");
    reveal_strlit("box");
    assert("type"@.len() != "box"@.len());
}

/// The signature of a function whose last parameter is variadic: the
/// parameters before it, then `...` in place of a name and a type.
pub open spec fn variadic_signature_code(f: FunctionView) -> Seq<char> {
    "("@ + params_code(f.params.drop_last()) + "..., "@ + ")"@ + f.result_code()
}

/// Where the last parameter is variadic, the callback and the foreign
/// function are both written with `...` in its place, and neither names it.
pub proof fn law_variadic_marker(f: FunctionView)
    requires
        f.params.len() > 0,
        f.params.last().is_variadic(),
    ensures
        f.signature_code() == variadic_signature_code(f),
        f.callback_code() == "/// "@ + f.description + "\n"@ + "pub type "@ + f.name
            + " = Option<unsafe extern \"C\" fn"@ + variadic_signature_code(f) + ">;\n"@,
        f.function_code() == "\t/// "@ + f.description + "\n"@ + "\tpub fn "@ + f.name
            + variadic_signature_code(f) + ";\n"@,
{
    assert(f.signature_code() =~= variadic_signature_code(f));
}

impl TypedIdent {
    /// Whether this parameter can be written in a signature: it is
    /// variadic, or its declarator can be written as a Rust type.
    pub fn is_well_formed_param(&self) -> (ok: bool)
        ensures
            ok == (self@.is_variadic() || self@.well_formed()),
    {
        same_text(self.data_type.as_str(), "...") || is_well_formed_type(self.data_type.as_str())
    }

    /// Appends this parameter of a signature to `code`.
    pub fn generate_param(&self, code: &mut String)
        requires
            self@.is_variadic() || self@.well_formed(),
        ensures
            final(code)@ == old(code)@ + self@.param_code(),
    {
        if same_text(self.data_type.as_str(), "...") {
            code.append("..., ");
        } else {
            if same_text(self.name.as_str(), "type") {
                code.append("r#type");
            } else if same_text(self.name.as_str(), "box") {
                code.append("r#box");
            } else {
                code.append(self.name.as_str());
            }
            code.append(": ");
            let rust_type = format_type(self.data_type.as_str());
            code.append(rust_type.as_str());
            code.append(", ");
            assert(code@ =~= old(code)@ + self@.param_code());
        }
    }
}

impl Function {
    /// Whether the function returns a value.
    fn has_result(&self) -> (r: bool)
        ensures
            r == self@.has_result(),
    {
        !same_text(self.return_type.as_str(), "void")
    }

    /// Whether the signature can be written: the type of the result, if
    /// there is one, and of every parameter that is not variadic can be
    /// written as a Rust type.
    pub fn is_well_formed(&self) -> (ok: bool)
        ensures
            ok == self@.well_formed(),
    {
        if self.has_result() && !is_well_formed_type(self.return_type.as_str()) {
            return false;
        }
        let mut i: usize = 0;
        while i < self.params.len()
            invariant
                i <= self.params.len(),
                forall|k: int|
                    0 <= k < i ==> (#[trigger] self@.params[k]).is_variadic()
                        || self@.params[k].well_formed(),
            decreases self.params.len() - i,
        {
            assert(self@.params[i as int] == self.params@[i as int]@);
            if !self.params[i].is_well_formed_param() {
                return false;
            }
            i += 1;
        }
        true
    }

    /// Appends the declaration of the callback to `code`.
    pub fn generate_code_as_callback(&self, code: &mut String)
        requires
            self@.well_formed(),
        ensures
            final(code)@ == old(code)@ + self@.callback_code(),
    {
        code.append("/// ");
        code.append(self.description.as_str());
        code.append("\n");
        code.append("pub type ");
        code.append(self.name.as_str());
        code.append(" = Option<unsafe extern \"C\" fn");
        self.generate_code_common(code);
        code.append(">;\n");
        assert(code@ =~= old(code)@ + self@.callback_code());
    }

    /// Appends the declaration of the foreign function to `code`.
    pub fn generate_code_as_function(&self, code: &mut String)
        requires
            self@.well_formed(),
        ensures
            final(code)@ == old(code)@ + self@.function_code(),
    {
        code.append("\t/// ");
        code.append(self.description.as_str());
        code.append("\n");
        code.append("\tpub fn ");
        code.append(self.name.as_str());
        self.generate_code_common(code);
        code.append(";\n");
        assert(code@ =~= old(code)@ + self@.function_code());
    }

    /// Appends the signature to `code`.
    pub fn generate_code_common(&self, code: &mut String)
        requires
            self@.well_formed(),
        ensures
            final(code)@ == old(code)@ + self@.signature_code(),
    {
        code.append("(");
        let ghost head = code@;
        let mut i: usize = 0;
        while i < self.params.len()
            invariant
                i <= self.params.len(),
                self@.well_formed(),
                code@ == head + params_code(self@.params.take(i as int)),
            decreases self.params.len() - i,
        {
            assert(self@.params[i as int] == self.params@[i as int]@);
            self.params[i].generate_param(code);
            i += 1;
            assert(self@.params.take(i as int).drop_last() =~= self@.params.take(i as int - 1));
            assert(code@ =~= head + params_code(self@.params.take(i as int)));
        }
        assert(self@.params.take(self.params.len() as int) =~= self@.params);
        code.append(")");
        if self.has_result() {
            code.append(" -> ");
            let rust_type = format_type(self.return_type.as_str());
            code.append(rust_type.as_str());
        }
        assert(code@ =~= old(code)@ + self@.signature_code());
    }
}

} // verus!
