//! Records and type aliases of the native API, written as Rust types.

use crate::api::ctype::{format_type, formatted, is_well_formed_type};
use crate::api::schema::{Struct, StructView, TypedIdent, TypedIdentView};
use vstd::prelude::*;

verus! {

impl TypedIdentView {
    /// The declaration of this field of a record.
    pub open spec fn field_code(self) -> Seq<char> {
        "\t/// "@ + self.description + "\n"@ + "\tpub "@ + self.name + ": "@ + formatted(
            self.data_type,
        ) + ",\n"@
    }

    /// The declaration of this type alias.
    pub open spec fn alias_code(self) -> Seq<char> {
        "\n"@ + "/// "@ + self.description + "\n"@ + "pub type "@ + self.name + " = "@ + formatted(
            self.data_type,
        ) + ";\n"@
    }
}

/// The declarations of the fields `fields`, in their order.
pub open spec fn fields_code(fields: Seq<TypedIdentView>) -> Seq<char>
    decreases fields.len(),
{
    if fields.len() == 0 {
        Seq::empty()
    } else {
        fields_code(fields.drop_last()) + fields.last().field_code()
    }
}

impl StructView {
    /// The declaration of the record: a `repr(C)` struct with the fields in
    /// the order of the description.
    pub open spec fn code(self) -> Seq<char> {
        "\n"@ + "/// "@ + self.description + "\n"@ + "#[repr(C)]\n"@
            + "#[derive(Clone, Debug)]\n"@ + "pub struct "@ + self.name + " {\n"@ + fields_code(
            self.fields,
        ) + "}\n"@
    }
}

impl TypedIdent {
    /// Whether the declarator can be written as a Rust type.
    pub fn is_well_formed(&self) -> (ok: bool)
        ensures
            ok == self@.well_formed(),
    {
        is_well_formed_type(self.data_type.as_str())
    }

    /// Appends the declaration of this field of a record to `code`.
    pub fn generate_field(&self, code: &mut String)
        requires
            self@.well_formed(),
        ensures
            final(code)@ == old(code)@ + self@.field_code(),
    {
        code.append("\t/// ");
        code.append(self.description.as_str());
        code.append("\n");
        code.append("\tpub ");
        code.append(self.name.as_str());
        code.append(": ");
        let rust_type = format_type(self.data_type.as_str());
        code.append(rust_type.as_str());
        code.append(",\n");
        assert(code@ =~= old(code)@ + self@.field_code());
    }

    /// Appends the declaration of this type alias to `code`.
    pub fn generate_alias(&self, code: &mut String)
        requires
            self@.well_formed(),
        ensures
            final(code)@ == old(code)@ + self@.alias_code(),
    {
        code.append("\n");
        code.append("/// ");
        code.append(self.description.as_str());
        code.append("\n");
        code.append("pub type ");
        code.append(self.name.as_str());
        code.append(" = ");
        let rust_type = format_type(self.data_type.as_str());
        code.append(rust_type.as_str());
        code.append(";\n");
        assert(code@ =~= old(code)@ + self@.alias_code());
    }
}

impl Struct {
    /// Whether the type of every field can be written as a Rust type.
    pub fn is_well_formed(&self) -> (ok: bool)
        ensures
            ok == self@.well_formed(),
    {
        let mut i: usize = 0;
        while i < self.fields.len()
            invariant
                i <= self.fields.len(),
                forall|k: int| 0 <= k < i ==> (#[trigger] self@.fields[k]).well_formed(),
            decreases self.fields.len() - i,
        {
            assert(self@.fields[i as int] == self.fields@[i as int]@);
            if !self.fields[i].is_well_formed() {
                return false;
            }
            i += 1;
        }
        true
    }

    /// Appends the declaration of the record to `code`.
    pub fn generate_code(&self, code: &mut String)
        requires
            self@.well_formed(),
        ensures
            final(code)@ == old(code)@ + self@.code(),
    {
        code.append("\n");
        code.append("/// ");
        code.append(self.description.as_str());
        code.append("\n");
        code.append("#[repr(C)]\n");
        code.append("#[derive(Clone, Debug)]\n");
        code.append("pub struct ");
        code.append(self.name.as_str());
        code.append(" {\n");
        let ghost head = code@;
        let mut i: usize = 0;
        while i < self.fields.len()
            invariant
                i <= self.fields.len(),
                self@.well_formed(),
                code@ == head + fields_code(self@.fields.take(i as int)),
            decreases self.fields.len() - i,
        {
            assert(self@.fields[i as int] == self.fields@[i as int]@);
            self.fields[i].generate_field(code);
            i += 1;
            assert(self@.fields.take(i as int).drop_last() =~= self@.fields.take(i as int - 1));
            assert(code@ =~= head + fields_code(self@.fields.take(i as int)));
        }
        assert(self@.fields.take(self.fields.len() as int) =~= self@.fields);
        code.append("}\n");
        assert(code@ =~= old(code)@ + self@.code());
    }
}

} // verus!
