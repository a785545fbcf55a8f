use raylib_api::api::schema::{
    Api, DefineValue, Definition, Enum, EnumValue, Function, Struct, TypedIdent,
};

fn ident(name: &str, data_type: &str, description: &str) -> TypedIdent {
    TypedIdent {
        name: name.to_string(),
        data_type: data_type.to_string(),
        description: description.to_string(),
    }
}

fn define(name: &str, kind: &str, value: DefineValue) -> Definition {
    Definition {
        name: name.to_string(),
        kind: kind.to_string(),
        value,
        description: String::from("about"),
    }
}

fn value(name: &str, code: u32, description: &str) -> EnumValue {
    EnumValue { name: name.to_string(), description: description.to_string(), value: code }
}

fn enumeration(name: &str, description: &str, values: Vec<EnumValue>) -> Enum {
    Enum { name: name.to_string(), description: description.to_string(), values }
}

fn function(name: &str, return_type: &str, params: Vec<TypedIdent>) -> Function {
    Function {
        name: name.to_string(),
        description: format!("{} does", name),
        return_type: return_type.to_string(),
        params,
    }
}

const ENUM_HEAD: &str = "#[repr(C)]\n#[derive(Clone, Copy, Debug, PartialEq, Eq, Hash)]\n#[cfg_attr(feature = \"serde\", derive(serde::Serialize, serde::Deserialize))]\n";

#[test]
fn define_value_accessors() {
    assert_eq!(DefineValue::Unsigned(7).as_u64(), Some(7));
    assert_eq!(DefineValue::Unsigned(7).as_str(), None);
    assert_eq!(DefineValue::Text(String::from("x")).as_str(), Some("x"));
    assert_eq!(DefineValue::Text(String::from("x")).as_u64(), None);
    assert_eq!(DefineValue::Other.as_u64(), None);
    assert_eq!(DefineValue::Other.as_str(), None);
}

#[test]
fn int_definition() {
    let d = define("RAYLIB_VERSION_MAJOR", "INT", DefineValue::Unsigned(4));
    assert!(d.is_well_formed());
    let mut code = String::from("// before\n");
    d.generate_code(&mut code);
    assert_eq!(code, "// before\npub const RAYLIB_VERSION_MAJOR: u32 = 4;\n");
}

#[test]
fn int_definition_above_u32_is_written_as_it_is() {
    let d = define("BIG", "INT", DefineValue::Unsigned(18446744073709551615));
    let mut code = String::new();
    d.generate_code(&mut code);
    assert_eq!(code, "pub const BIG: u32 = 18446744073709551615;\n");
}

#[test]
fn string_definition() {
    let d = define("RAYLIB_VERSION", "STRING", DefineValue::Text(String::from("4.5")));
    assert!(d.is_well_formed());
    let mut code = String::new();
    d.generate_code(&mut code);
    assert_eq!(code, "pub const RAYLIB_VERSION: &str = \"4.5\";\n");
}

#[test]
fn definitions_of_other_kinds_are_passed_over() {
    for kind in ["FLOAT", "COLOR", "GUARD", "MACRO", "UNKNOWN", "", "int", "String"] {
        for v in [DefineValue::Unsigned(1), DefineValue::Text(String::from("t")), DefineValue::Other] {
            let d = define("PI", kind, v);
            assert!(d.is_well_formed());
            let mut code = String::from("x");
            d.generate_code(&mut code);
            assert_eq!(code, "x");
        }
    }
}

#[test]
fn definitions_with_a_value_of_another_kind_are_not_well_formed() {
    assert!(!define("A", "INT", DefineValue::Text(String::from("1"))).is_well_formed());
    assert!(!define("A", "INT", DefineValue::Other).is_well_formed());
    assert!(!define("A", "STRING", DefineValue::Unsigned(1)).is_well_formed());
    assert!(!define("A", "STRING", DefineValue::Other).is_well_formed());
}

#[test]
fn record_keeps_field_order() {
    let s = Struct {
        name: String::from("Vector2"),
        description: String::from("Vector2, 2 components"),
        fields: vec![
            ident("x", "float", "Vector x component"),
            ident("y", "float", "Vector y component"),
        ],
    };
    assert!(s.is_well_formed());
    let mut code = String::new();
    s.generate_code(&mut code);
    assert_eq!(
        code,
        "\n/// Vector2, 2 components\n#[repr(C)]\n#[derive(Clone, Debug)]\npub struct Vector2 {\n\t/// Vector x component\n\tpub x: core::ffi::c_float,\n\t/// Vector y component\n\tpub y: core::ffi::c_float,\n}\n"
    );
}

#[test]
fn record_fields_in_the_other_order() {
    let s = Struct {
        name: String::from("S"),
        description: String::from("d"),
        fields: vec![ident("z", "int", "last letter"), ident("a", "void *", "first letter")],
    };
    let mut code = String::new();
    s.generate_code(&mut code);
    assert_eq!(
        code,
        "\n/// d\n#[repr(C)]\n#[derive(Clone, Debug)]\npub struct S {\n\t/// last letter\n\tpub z: core::ffi::c_int,\n\t/// first letter\n\tpub a: *mut core::ffi::c_void,\n}\n"
    );
}

#[test]
fn record_without_fields() {
    let s = Struct { name: String::from("E"), description: String::new(), fields: vec![] };
    assert!(s.is_well_formed());
    let mut code = String::from("0");
    s.generate_code(&mut code);
    assert_eq!(code, "0\n/// \n#[repr(C)]\n#[derive(Clone, Debug)]\npub struct E {\n}\n");
}

#[test]
fn record_field_names_are_never_escaped() {
    let s = Struct {
        name: String::from("S"),
        description: String::from("d"),
        fields: vec![ident("type", "int", "t"), ident("box", "Rectangle", "b")],
    };
    let mut code = String::new();
    s.generate_code(&mut code);
    assert!(code.contains("\tpub type: core::ffi::c_int,\n"));
    assert!(code.contains("\tpub box: Rectangle,\n"));
    assert!(!code.contains("r#"));
}

#[test]
fn record_with_a_malformed_field_is_not_well_formed() {
    let s = Struct {
        name: String::from("S"),
        description: String::from("d"),
        fields: vec![ident("a", "int", ""), ident("b", "int[", ""), ident("c", "int", "")],
    };
    assert!(!s.is_well_formed());
    assert!(ident("a", "int[4]", "").is_well_formed());
    assert!(!ident("a", "int[four]", "").is_well_formed());
}

#[test]
fn field_and_alias() {
    let t = ident("params", "float[4]", "Material generic parameters");
    let mut code = String::new();
    t.generate_field(&mut code);
    assert_eq!(
        code,
        "\t/// Material generic parameters\n\tpub params: [core::ffi::c_float; 4],\n"
    );
    let a = ident("Quaternion", "Vector4", "Quaternion, 4 components (Vector4 alias)");
    let mut code = String::from("//");
    a.generate_alias(&mut code);
    assert_eq!(
        code,
        "//\n/// Quaternion, 4 components (Vector4 alias)\npub type Quaternion = Vector4;\n"
    );
}

#[test]
fn enum_writes_only_the_first_value_of_a_code() {
    let e = enumeration(
        "Foo",
        "Foo things",
        vec![value("FOO_A", 3, "first"), value("FOO_B", 3, "second")],
    );
    let mut code = String::new();
    e.generate_code(&mut code);
    assert_eq!(
        code,
        format!("\n/// Foo things\n{}pub enum Foo {{\n\t/// first\n\tA = 3,\n}}\n", ENUM_HEAD)
    );
    assert_eq!(code.matches(" = 3,").count(), 1);
    assert!(!code.contains("B"));
}

#[test]
fn enum_keeps_the_order_of_first_occurrences() {
    let e = enumeration(
        "KeyboardKey",
        "Keys",
        vec![
            value("KEY_NULL", 0, "none"),
            value("KEY_BACK", 4, "back"),
            value("KEY_MENU", 82, "menu"),
            value("KEY_OTHER_NULL", 0, "zero again"),
            value("KEY_R", 82, "same as menu"),
            value("KEY_A", 65, "a"),
            value("KEY_AGAIN", 4, "four again"),
        ],
    );
    let mut code = String::from("mod k {");
    e.generate_code(&mut code);
    assert_eq!(
        code,
        format!(
            "mod k {{\n/// Keys\n{}pub enum KeyboardKey {{\n\t/// none\n\tNull = 0,\n\t/// back\n\tBack = 4,\n\t/// menu\n\tMenu = 82,\n\t/// a\n\tA = 65,\n}}\n",
            ENUM_HEAD
        )
    );
}

#[test]
fn enum_without_values() {
    let e = enumeration("Nothing", "", vec![]);
    let mut code = String::new();
    e.generate_code(&mut code);
    assert_eq!(code, format!("\n/// \n{}pub enum Nothing {{\n}}\n", ENUM_HEAD));
}

#[test]
fn enum_with_two_prefix_words() {
    let e = enumeration(
        "PixelFormat",
        "Pixel formats",
        vec![
            value("PIXELFORMAT_UNCOMPRESSED_GRAYSCALE", 1, "8 bit per pixel (no alpha)"),
            value("PIXELFORMAT_UNCOMPRESSED_R8G8B8A8", 7, "32 bpp"),
        ],
    );
    let mut code = String::new();
    e.generate_code(&mut code);
    assert_eq!(
        code,
        format!(
            "\n/// Pixel formats\n{}pub enum PixelFormat {{\n\t/// 8 bit per pixel (no alpha)\n\tGrayscale = 1,\n\t/// 32 bpp\n\tR8G8B8A8 = 7,\n}}\n",
            ENUM_HEAD
        )
    );
}

#[test]
fn bitflag_enum_has_every_value_and_the_catch_all() {
    let e = enumeration(
        "Gesture",
        "Gesture",
        vec![
            value("GESTURE_NONE", 0, "No gesture"),
            value("GESTURE_TAP", 1, "Tap gesture"),
            value("GESTURE_SWIPE_UP", 64, "Swipe up gesture"),
            value("GESTURE_ALSO_TAP", 1, "same bit"),
        ],
    );
    let mut code = String::new();
    e.generate_code(&mut code);
    assert_eq!(
        code,
        format!(
            "\n/// Gesture\n{}pub struct Gesture(u32);\n\nbitflags::bitflags! {{\n\timpl Gesture: u32 {{\n\t\t/// No gesture\n\t\tconst NONE = 0;\n\t\t/// Tap gesture\n\t\tconst TAP = 1;\n\t\t/// Swipe up gesture\n\t\tconst SWIPE_UP = 64;\n\t\t/// same bit\n\t\tconst ALSO_TAP = 1;\n\n\t\tconst _ = !0;\n\t}}\n}}\n",
            ENUM_HEAD
        )
    );
}

#[test]
fn bitflags_alone() {
    let e = enumeration(
        "ConfigFlags",
        "System/Window config flags",
        vec![value("FLAG_VSYNC_HINT", 64, "Set to try enabling V-Sync on GPU")],
    );
    let mut code = String::from("#");
    e.generate_bitflags(&mut code);
    assert_eq!(
        code,
        "#pub struct ConfigFlags(u32);\n\nbitflags::bitflags! {\n\timpl ConfigFlags: u32 {\n\t\t/// Set to try enabling V-Sync on GPU\n\t\tconst VSYNC_HINT = 64;\n\n\t\tconst _ = !0;\n\t}\n}\n"
    );
}

#[test]
fn bitflag_catch_all_covers_every_bit() {
    let e = enumeration(
        "ConfigFlags",
        "flags",
        vec![value("FLAG_A", 1, ""), value("FLAG_B", 0x8000_0000, "")],
    );
    let mut code = String::new();
    e.generate_bitflags(&mut code);
    assert!(code.ends_with("\n\t\tconst _ = !0;\n\t}\n}\n"));
    let named: u32 = e.values.iter().fold(0, |bits, v| bits | v.value);
    let catch_all: u32 = !0;
    for bit in 0..32 {
        assert_eq!(((named | catch_all) >> bit) & 1, 1);
    }
    let empty = enumeration("Gesture", "", vec![]);
    let mut code = String::new();
    empty.generate_bitflags(&mut code);
    assert_eq!(
        code,
        "pub struct Gesture(u32);\n\nbitflags::bitflags! {\n\timpl Gesture: u32 {\n\n\t\tconst _ = !0;\n\t}\n}\n"
    );
}

#[test]
fn bitflag_names_without_enough_words_are_empty() {
    let e = enumeration("Gesture", "g", vec![value("TAP", 1, "t"), value("A_", 2, "u")]);
    let mut code = String::new();
    e.generate_bitflags(&mut code);
    assert!(code.contains("\t\tconst  = 1;\n"));
    assert!(code.contains("\t\tconst  = 2;\n"));
}

#[test]
fn plain_function() {
    let f = function(
        "InitWindow",
        "void",
        vec![ident("width", "int", ""), ident("height", "int", ""), ident("title", "const char *", "")],
    );
    assert!(f.is_well_formed());
    let mut code = String::new();
    f.generate_code_as_function(&mut code);
    assert_eq!(
        code,
        "\t/// InitWindow does\n\tpub fn InitWindow(width: core::ffi::c_int, height: core::ffi::c_int, title: *const core::ffi::c_char, );\n"
    );
}

#[test]
fn function_with_result_and_no_parameters() {
    let f = function("WindowShouldClose", "bool", vec![]);
    let mut code = String::new();
    f.generate_code_as_function(&mut code);
    assert_eq!(code, "\t/// WindowShouldClose does\n\tpub fn WindowShouldClose() -> bool;\n");
    let mut code = String::from("fn");
    f.generate_code_common(&mut code);
    assert_eq!(code, "fn() -> bool");
}

#[test]
fn function_returning_a_pointer() {
    let f = function("MemAlloc", "void *", vec![ident("size", "unsigned int", "")]);
    let mut code = String::new();
    f.generate_code_common(&mut code);
    assert_eq!(code, "(size: core::ffi::c_uint, ) -> *mut core::ffi::c_void");
}

#[test]
fn variadic_function() {
    let f = function(
        "TraceLog",
        "void",
        vec![ident("logLevel", "int", ""), ident("text", "const char *", ""), ident("args", "...", "")],
    );
    assert!(f.is_well_formed());
    let mut code = String::new();
    f.generate_code_as_function(&mut code);
    assert_eq!(
        code,
        "\t/// TraceLog does\n\tpub fn TraceLog(logLevel: core::ffi::c_int, text: *const core::ffi::c_char, ..., );\n"
    );
    assert!(!code.contains("args"));
}

#[test]
fn variadic_callback() {
    let f = function(
        "LogCallback",
        "int",
        vec![ident("text", "const char *", ""), ident("args", "...", "")],
    );
    let mut code = String::new();
    f.generate_code_as_callback(&mut code);
    assert_eq!(
        code,
        "/// LogCallback does\npub type LogCallback = Option<unsafe extern \"C\" fn(text: *const core::ffi::c_char, ..., ) -> core::ffi::c_int>;\n"
    );
    assert!(!code.contains("args"));
}

#[test]
fn callback_is_a_nullable_function_pointer() {
    let f = function(
        "TraceLogCallback",
        "void",
        vec![
            ident("logLevel", "int", ""),
            ident("text", "const char *", ""),
            ident("args", "va_list", ""),
        ],
    );
    let mut code = String::new();
    f.generate_code_as_callback(&mut code);
    assert_eq!(
        code,
        "/// TraceLogCallback does\npub type TraceLogCallback = Option<unsafe extern \"C\" fn(logLevel: core::ffi::c_int, text: *const core::ffi::c_char, args: *mut core::ffi::c_void, )>;\n"
    );
}

#[test]
fn reserved_parameter_names_are_escaped() {
    let f = function(
        "CheckCollisionBoxes",
        "bool",
        vec![
            ident("box", "BoundingBox", ""),
            ident("type", "int", ""),
            ident("box1", "BoundingBox", ""),
            ident("Type", "int", ""),
            ident("types", "int", ""),
            ident("fn", "int", ""),
            ident("r#type", "int", ""),
        ],
    );
    let mut code = String::new();
    f.generate_code_common(&mut code);
    assert_eq!(
        code,
        "(r#box: BoundingBox, r#type: core::ffi::c_int, box1: BoundingBox, Type: core::ffi::c_int, types: core::ffi::c_int, fn: core::ffi::c_int, r#type: core::ffi::c_int, ) -> bool"
    );
    let mut code = String::new();
    f.generate_code_as_callback(&mut code);
    assert!(code.contains("(r#box: BoundingBox, r#type: core::ffi::c_int, box1"));
}

#[test]
fn one_parameter() {
    let mut code = String::new();
    ident("type", "int", "").generate_param(&mut code);
    assert_eq!(code, "r#type: core::ffi::c_int, ");
    let mut code = String::new();
    ident("type", "...", "").generate_param(&mut code);
    assert_eq!(code, "..., ");
    let mut code = String::new();
    ident("list", "... ", "").generate_param(&mut code);
    assert_eq!(code, "list: ... , ");
    assert!(ident("a", "...", "").is_well_formed_param());
    assert!(ident("a", "int[2]", "").is_well_formed_param());
    assert!(!ident("a", "int[2", "").is_well_formed_param());
}

#[test]
fn functions_with_malformed_types_are_not_well_formed() {
    assert!(!function("f", "int[", vec![]).is_well_formed());
    assert!(!function("f", "void", vec![ident("a", "int", ""), ident("b", "int[z]", "")]).is_well_formed());
    assert!(function("f", "void", vec![ident("b", "...", "")]).is_well_formed());
    assert!(function("f", "int[3]", vec![]).is_well_formed());
}

fn small_api() -> Api {
    Api {
        defines: vec![
            define("RAYLIB_VERSION_MAJOR", "INT", DefineValue::Unsigned(4)),
            define("PI", "FLOAT", DefineValue::Other),
            define("RAYLIB_VERSION", "STRING", DefineValue::Text(String::from("4.5"))),
        ],
        structs: vec![Struct {
            name: String::from("Color"),
            description: String::from("Color, 4 components, R8G8B8A8 (32bit)"),
            fields: vec![ident("r", "unsigned char", "Color red value")],
        }],
        aliases: vec![ident("Texture2D", "Texture", "Texture2D, same as Texture")],
        enums: vec![
            enumeration("BlendMode", "Color blending modes", vec![value("BLEND_ALPHA", 0, "Blend")]),
            enumeration("Gesture", "Gesture", vec![value("GESTURE_TAP", 1, "Tap gesture")]),
        ],
        callbacks: vec![function("AudioCallback", "void", vec![ident("bufferData", "void *", "")])],
        functions: vec![
            function("CloseWindow", "void", vec![]),
            function("GetScreenWidth", "int", vec![]),
        ],
    }
}

const COLORS: [(&str, [u8; 4]); 26] = [
    ("LIGHTGRAY", [200, 200, 200, 255]),
    ("GRAY", [130, 130, 130, 255]),
    ("DARKGRAY", [80, 80, 80, 255]),
    ("YELLOW", [253, 249, 0, 255]),
    ("GOLD", [255, 203, 0, 255]),
    ("ORANGE", [255, 161, 0, 255]),
    ("PINK", [255, 109, 194, 255]),
    ("RED", [230, 41, 55, 255]),
    ("MAROON", [190, 33, 55, 255]),
    ("GREEN", [0, 228, 48, 255]),
    ("LIME", [0, 158, 47, 255]),
    ("DARKGREEN", [0, 117, 44, 255]),
    ("SKYBLUE", [102, 191, 255, 255]),
    ("BLUE", [0, 121, 241, 255]),
    ("DARKBLUE", [0, 82, 172, 255]),
    ("PURPLE", [200, 122, 255, 255]),
    ("VIOLET", [135, 60, 190, 255]),
    ("DARKPURPLE", [112, 31, 126, 255]),
    ("BEIGE", [211, 176, 131, 255]),
    ("BROWN", [127, 106, 79, 255]),
    ("DARKBROWN", [76, 63, 47, 255]),
    ("WHITE", [255, 255, 255, 255]),
    ("BLACK", [0, 0, 0, 255]),
    ("BLANK", [0, 0, 0, 0]),
    ("MAGENTA", [255, 0, 255, 255]),
    ("RAYWHITE", [245, 245, 245, 255]),
];

fn preamble() -> String {
    let mut code = String::new();
    code.push_str("pub const MAX_SHADER_LOCATIONS: usize = 32;\n");
    code.push_str("pub const MAX_MATERIAL_MAPS: usize = 12;\n\n");
    code.push_str("#[repr(C)]\npub struct rAudioBuffer { _empty: core::marker::PhantomData<()> }\n");
    code.push_str("#[repr(C)]\npub struct rAudioProcessor { _empty: core::marker::PhantomData<()> }\n\n");
    code.push_str("pub mod colors {\n");
    for (name, [r, g, b, a]) in COLORS.iter() {
        code.push_str(&format!(
            "\tpub const {}: super::Color = super::Color {{ r: {}, g: {}, b: {}, a: {} }};\n",
            name, r, g, b, a
        ));
    }
    code.push_str("}\n\n");
    code
}

#[test]
fn empty_api_is_the_preamble_and_an_empty_block() {
    let api = Api {
        defines: vec![],
        structs: vec![],
        aliases: vec![],
        enums: vec![],
        callbacks: vec![],
        functions: vec![],
    };
    assert!(api.is_well_formed());
    assert_eq!(api.generate_code(), format!("{}\nextern \"C\" {{\n}}\n", preamble()));
}

#[test]
fn whole_file_in_fixed_order() {
    let api = small_api();
    assert!(api.is_well_formed());
    let expected = format!(
        "{}pub const RAYLIB_VERSION_MAJOR: u32 = 4;\npub const RAYLIB_VERSION: &str = \"4.5\";\n\n/// Color, 4 components, R8G8B8A8 (32bit)\n#[repr(C)]\n#[derive(Clone, Debug)]\npub struct Color {{\n\t/// Color red value\n\tpub r: core::ffi::c_uchar,\n}}\n\n/// Texture2D, same as Texture\npub type Texture2D = Texture;\n\n/// Color blending modes\n{}pub enum BlendMode {{\n\t/// Blend\n\tAlpha = 0,\n}}\n\n/// Gesture\n{}pub struct Gesture(u32);\n\nbitflags::bitflags! {{\n\timpl Gesture: u32 {{\n\t\t/// Tap gesture\n\t\tconst TAP = 1;\n\n\t\tconst _ = !0;\n\t}}\n}}\n/// AudioCallback does\npub type AudioCallback = Option<unsafe extern \"C\" fn(bufferData: *mut core::ffi::c_void, )>;\n\nextern \"C\" {{\n\t/// CloseWindow does\n\tpub fn CloseWindow();\n\t/// GetScreenWidth does\n\tpub fn GetScreenWidth() -> core::ffi::c_int;\n}}\n",
        preamble(),
        ENUM_HEAD,
        ENUM_HEAD
    );
    assert_eq!(api.generate_code(), expected);
}

#[test]
fn generating_twice_gives_the_same_text() {
    let api = small_api();
    assert_eq!(api.generate_code(), api.generate_code());
}

#[test]
fn preamble_names_the_colors() {
    let api = small_api();
    let code = api.generate_code();
    assert!(code.starts_with("pub const MAX_SHADER_LOCATIONS: usize = 32;\npub const MAX_MATERIAL_MAPS: usize = 12;\n\n#[repr(C)]\npub struct rAudioBuffer {"));
    assert!(code.contains("\tpub const LIGHTGRAY: super::Color = super::Color { r: 200, g: 200, b: 200, a: 255 };\n"));
    assert!(code.contains("\tpub const BLANK: super::Color = super::Color { r: 0, g: 0, b: 0, a: 0 };\n"));
    assert!(code.contains("\tpub const RAYWHITE: super::Color = super::Color { r: 245, g: 245, b: 245, a: 255 };\n}\n\n"));
    assert_eq!(code.matches("super::Color {").count(), 26);
}

#[test]
fn api_with_a_malformed_part_is_not_well_formed() {
    let mut api = small_api();
    api.defines.push(define("BAD", "INT", DefineValue::Other));
    assert!(!api.is_well_formed());
    let mut api = small_api();
    api.structs[0].fields.push(ident("x", "int[", ""));
    assert!(!api.is_well_formed());
    let mut api = small_api();
    api.aliases.push(ident("A", "int[]", ""));
    assert!(!api.is_well_formed());
    let mut api = small_api();
    api.callbacks[0].return_type = String::from("int[a]");
    assert!(!api.is_well_formed());
    let mut api = small_api();
    api.functions[1].params.push(ident("p", "int[-]", ""));
    assert!(!api.is_well_formed());
    let mut api = small_api();
    api.enums.push(enumeration("Odd[", "", vec![value("[", 1, "")]));
    assert!(api.is_well_formed());
}
