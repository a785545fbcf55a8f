//! Constants of the native API, written as Rust constants.

use crate::api::schema::{DefineValueView, Definition, DefinitionView};
use crate::chars::{decimal, push_decimal, same_text};
use vstd::prelude::*;

verus! {

impl DefinitionView {
    /// The Rust declaration of the constant: a `u32` for the kind `INT`, a
    /// `&str` for the kind `STRING`, and nothing for any other kind.
    pub open spec fn code(self) -> Seq<char> {
        if self.kind == "INT"@ {
            match self.value {
                DefineValueView::Unsigned(n) => "pub const "@ + self.name + ": u32 = "@ + decimal(
                    n as nat,
                ) + ";\n"@,
                _ => Seq::empty(),
            }
        } else if self.kind == "STRING"@ {
            match self.value {
                DefineValueView::Text(s) => "pub const "@ + self.name + ": &str = \""@ + s
                    + "\";\n"@,
                _ => Seq::empty(),
            }
        } else {
            Seq::empty()
        }
    }
}

impl Definition {
    /// Whether the value is of the kind that the constant declares.
    pub fn is_well_formed(&self) -> (ok: bool)
        ensures
            ok == self@.well_formed(),
    {
        proof {
            reveal_strlit("INT");
            reveal_strlit("STRING");
            assert("INT"@.len() != "STRING"@.len());
        }
        if same_text(self.kind.as_str(), "INT") {
            match self.value.as_u64() {
                Some(_) => true,
                None => false,
            }
        } else if same_text(self.kind.as_str(), "STRING") {
            match self.value.as_str() {
                Some(_) => true,
                None => false,
            }
        } else {
            true
        }
    }

    /// Appends the Rust declaration of the constant to `code`.
    pub fn generate_code(&self, code: &mut String)
        requires
            self@.well_formed(),
        ensures
            final(code)@ == old(code)@ + self@.code(),
    {
        if same_text(self.kind.as_str(), "INT") {
            if let Some(n) = self.value.as_u64() {
                code.append("pub const ");
                code.append(self.name.as_str());
                code.append(": u32 = ");
                push_decimal(code, n);
                code.append(";\n");
            }
        } else if same_text(self.kind.as_str(), "STRING") {
            if let Some(s) = self.value.as_str() {
                code.append("pub const ");
                code.append(self.name.as_str());
                code.append(": &str = \"");
                code.append(s);
                code.append("\";\n");
            }
        }
        assert(code@ =~= old(code)@ + self@.code());
    }
}

} // verus!
