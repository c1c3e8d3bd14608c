use caller_utils_gen::to_pascal_case;
use caller_utils_gen::to_snake_case;
use caller_utils_gen::typemap::generate_default_value;
use caller_utils_gen::typemap::wit_type_to_rust;

#[test]
fn snake_case_replaces_dashes() {
    assert_eq!(to_snake_case("get-balance"), "get_balance");
    assert_eq!(to_snake_case("already_snake"), "already_snake");
    assert_eq!(to_snake_case(""), "");
}

#[test]
fn pascal_case_uppercases_each_piece() {
    assert_eq!(to_pascal_case("get-balance"), "GetBalance");
    assert_eq!(to_pascal_case("transfer"), "Transfer");
    assert_eq!(to_pascal_case("--a-b-"), "AB");
    assert_eq!(to_pascal_case(""), "");
}

#[test]
fn primitive_table_is_fixed() {
    assert_eq!(wit_type_to_rust("s8"), "i8");
    assert_eq!(wit_type_to_rust("u8"), "u8");
    assert_eq!(wit_type_to_rust("s16"), "i16");
    assert_eq!(wit_type_to_rust("u16"), "u16");
    assert_eq!(wit_type_to_rust("s32"), "i32");
    assert_eq!(wit_type_to_rust("u32"), "u32");
    assert_eq!(wit_type_to_rust("s64"), "i64");
    assert_eq!(wit_type_to_rust("u64"), "u64");
    assert_eq!(wit_type_to_rust("usize"), "usize");
    assert_eq!(wit_type_to_rust("isize"), "isize");
    assert_eq!(wit_type_to_rust("f32"), "f32");
    assert_eq!(wit_type_to_rust("f64"), "f64");
    assert_eq!(wit_type_to_rust("string"), "String");
    assert_eq!(wit_type_to_rust("str"), "&str");
    assert_eq!(wit_type_to_rust("char"), "char");
    assert_eq!(wit_type_to_rust("bool"), "bool");
    assert_eq!(wit_type_to_rust("unit"), "()");
    assert_eq!(wit_type_to_rust("address"), "WitAddress");
    assert_eq!(wit_type_to_rust("i8"), "i8");
    assert_eq!(wit_type_to_rust("i16"), "i16");
    assert_eq!(wit_type_to_rust("i32"), "i32");
    assert_eq!(wit_type_to_rust("i64"), "i64");
}

#[test]
fn parametric_shapes_recurse() {
    assert_eq!(wit_type_to_rust("list<u8>"), "Vec<u8>");
    assert_eq!(wit_type_to_rust("option<string>"), "Option<String>");
    assert_eq!(wit_type_to_rust("result<u32>"), "Result<u32, ()>");
    assert_eq!(wit_type_to_rust("result<string, s32>"), "Result<String, i32>");
    assert_eq!(wit_type_to_rust("tuple<u8, string, bool>"), "(u8, String, bool)");
    assert_eq!(wit_type_to_rust("map<string, u64>"), "HashMap<String, u64>");
}

#[test]
fn nested_shapes_recurse_at_depth_two() {
    assert_eq!(wit_type_to_rust("list<option<u64>>"), "Vec<Option<u64>>");
    assert_eq!(wit_type_to_rust("map<string, list<u8>>"), "HashMap<String, Vec<u8>>");
    assert_eq!(wit_type_to_rust("option<list<my-type>>"), "Option<Vec<MyType>>");
    assert_eq!(wit_type_to_rust("list<tuple<u8, bool>>"), "Vec<(u8, bool)>");
}

#[test]
fn custom_types_become_pascal_case() {
    assert_eq!(wit_type_to_rust("my-type"), "MyType");
    assert_eq!(wit_type_to_rust("order"), "Order");
}

#[test]
fn malformed_map_falls_back_to_string_key() {
    assert_eq!(wit_type_to_rust("map<u64>"), "HashMap<String, u64>");
}

#[test]
fn defaults_for_primitives() {
    assert_eq!(generate_default_value("i8"), "0");
    assert_eq!(generate_default_value("u64"), "0");
    assert_eq!(generate_default_value("usize"), "0");
    assert_eq!(generate_default_value("f32"), "0.0");
    assert_eq!(generate_default_value("String"), "String::new()");
    assert_eq!(generate_default_value("&str"), "\"\"");
    assert_eq!(generate_default_value("bool"), "false");
    assert_eq!(generate_default_value("char"), "'\\0'");
    assert_eq!(generate_default_value("()"), "()");
}

#[test]
fn defaults_for_containers_and_customs() {
    assert_eq!(generate_default_value("Vec<u8>"), "Vec::new()");
    assert_eq!(generate_default_value("Option<String>"), "None");
    assert_eq!(generate_default_value("HashMap<String, u64>"), "HashMap::new()");
    assert_eq!(generate_default_value("Result<u64, ()>"), "Ok(0)");
    assert_eq!(generate_default_value("Result<String, i32>"), "Ok(String::new())");
    assert_eq!(generate_default_value("(u8, String)"), "(0, String::new())");
    assert_eq!(generate_default_value("MyType"), "MyType::default()");
}

#[test]
fn default_of_mapped_type_composes() {
    assert_eq!(generate_default_value(&wit_type_to_rust("u64")), "0");
    assert_eq!(generate_default_value(&wit_type_to_rust("string")), "String::new()");
    assert_eq!(generate_default_value(&wit_type_to_rust("list<u8>")), "Vec::new()");
    assert_eq!(generate_default_value(&wit_type_to_rust("result<u64>")), "Ok(0)");
    assert_eq!(generate_default_value(&wit_type_to_rust("tuple<u8, bool>")), "(0, false)");
    assert_eq!(generate_default_value(&wit_type_to_rust("address")), "WitAddress::default()");
}
