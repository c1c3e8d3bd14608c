//! The type-mapping engine: interface-language type expressions are
//! turned into host-language type expressions, and every mapped type
//! gets a default-constructing expression.

use vstd::prelude::*;

use crate::casing::pascal_of;
use crate::casing::to_pascal_case;
use crate::strutil::find_sub;
use crate::strutil::find_str;
use crate::strutil::lemma_find_from_bounds;
use crate::strutil::lemma_strip_prefix_all_len;
use crate::strutil::lemma_strip_suffix_all_len;
use crate::strutil::lemma_trim_len;
use crate::strutil::starts_with_str;
use crate::strutil::str_eq;
use crate::strutil::strip_prefix_all;
use crate::strutil::strip_prefix_all_spec;
use crate::strutil::strip_suffix_all;
use crate::strutil::strip_suffix_all_spec;
use crate::strutil::trim_spec;
use crate::strutil::trim_ws;

verus! {

/// The host-language type expression for an interface-language type
/// expression: a fixed table for the primitive names, recursive
/// descent for `list`, `option`, `result`, `tuple` and `map` shapes,
/// and kebab-case to PascalCase for anything else.
pub open spec fn rust_type_of(t: Seq<char>) -> Seq<char>
    decreases t.len(), 0int,
    via rust_type_of_dec
{
    if t == "s8"@ {
        "i8"@
    } else if t == "u8"@ {
        "u8"@
    } else if t == "s16"@ {
        "i16"@
    } else if t == "u16"@ {
        "u16"@
    } else if t == "s32"@ {
        "i32"@
    } else if t == "u32"@ {
        "u32"@
    } else if t == "s64"@ {
        "i64"@
    } else if t == "u64"@ {
        "u64"@
    } else if t == "usize"@ {
        "usize"@
    } else if t == "isize"@ {
        "isize"@
    } else if t == "f32"@ {
        "f32"@
    } else if t == "f64"@ {
        "f64"@
    } else if t == "string"@ {
        "String"@
    } else if t == "str"@ {
        "&str"@
    } else if t == "char"@ {
        "char"@
    } else if t == "bool"@ {
        "bool"@
    } else if t == "unit"@ {
        "()"@
    } else if t == "address"@ {
        "WitAddress"@
    } else if t == "i8"@ {
        "i8"@
    } else if t == "i16"@ {
        "i16"@
    } else if t == "i32"@ {
        "i32"@
    } else if t == "i64"@ {
        "i64"@
    } else if ("list<"@).is_prefix_of(t) && t.len() > 5 {
        "Vec<"@ + rust_type_of(t.subrange(5, t.len() - 1)) + ">"@
    } else if ("option<"@).is_prefix_of(t) && t.len() > 7 {
        "Option<"@ + rust_type_of(t.subrange(7, t.len() - 1)) + ">"@
    } else if ("result<"@).is_prefix_of(t) && t.len() > 7 {
        let inner = t.subrange(7, t.len() - 1);
        match find_sub(inner, seq![',']) {
            Some(i) => "Result<"@ + rust_type_of(trim_spec(inner.take(i))) + ", "@ + rust_type_of(
                trim_spec(inner.skip(i + 1)),
            ) + ">"@,
            None => "Result<"@ + rust_type_of(inner) + ", ()>"@,
        }
    } else if ("tuple<"@).is_prefix_of(t) && t.len() > 6 {
        "("@ + rust_tuple_elems(t.subrange(6, t.len() - 1)) + ")"@
    } else if ("map<"@).is_prefix_of(t) && t.len() > 4 {
        let inner = t.subrange(4, t.len() - 1);
        match find_sub(inner, seq![',']) {
            Some(i) => "HashMap<"@ + rust_type_of(trim_spec(inner.take(i))) + ", "@
                + rust_type_of(trim_spec(inner.skip(i + 1))) + ">"@,
            None => "HashMap<String, "@ + rust_type_of(inner) + ">"@,
        }
    } else {
        pascal_of(t)
    }
}

/// The elements of a tuple body, split on `", "`, each mapped by
/// `rust_type_of` and joined with `", "` again.
pub open spec fn rust_tuple_elems(s: Seq<char>) -> Seq<char>
    decreases s.len(), 1int,
    via rust_tuple_elems_dec
{
    match find_sub(s, seq![',', ' ']) {
        Some(i) => rust_type_of(s.take(i)) + seq![',', ' '] + rust_tuple_elems(s.skip(i + 2)),
        None => rust_type_of(s),
    }
}

#[via_fn]
proof fn rust_type_of_dec(t: Seq<char>) {
    if ("result<"@).is_prefix_of(t) && t.len() > 7 {
        let inner = t.subrange(7, t.len() - 1);
        lemma_find_from_bounds(inner, seq![','], 0);
        if let Some(i) = find_sub(inner, seq![',']) {
            lemma_trim_len(inner.take(i));
            lemma_trim_len(inner.skip(i + 1));
        }
    }
    if ("map<"@).is_prefix_of(t) && t.len() > 4 {
        let inner = t.subrange(4, t.len() - 1);
        lemma_find_from_bounds(inner, seq![','], 0);
        if let Some(i) = find_sub(inner, seq![',']) {
            lemma_trim_len(inner.take(i));
            lemma_trim_len(inner.skip(i + 1));
        }
    }
}

#[via_fn]
proof fn rust_tuple_elems_dec(s: Seq<char>) {
    lemma_find_from_bounds(s, seq![',', ' '], 0);
}

/// The default-constructing expression for a host-language type
/// expression: literals for the primitives, empty constructors for the
/// containers, `Ok` of the success default for results, elementwise
/// defaults for tuples, and the type's own default constructor for
/// anything else.
pub open spec fn default_of(t: Seq<char>) -> Seq<char>
    decreases t.len(), 0int,
    via default_of_dec
{
    if t == "i8"@ || t == "u8"@ || t == "i16"@ || t == "u16"@ || t == "i32"@ || t == "u32"@ || t
        == "i64"@ || t == "u64"@ || t == "isize"@ || t == "usize"@ {
        "0"@
    } else if t == "f32"@ || t == "f64"@ {
        "0.0"@
    } else if t == "String"@ {
        "String::new()"@
    } else if t == "&str"@ {
        "\"\""@
    } else if t == "bool"@ {
        "false"@
    } else if t == "char"@ {
        "'\\0'"@
    } else if t == "()"@ {
        "()"@
    } else if ("Vec<"@).is_prefix_of(t) {
        "Vec::new()"@
    } else if ("Option<"@).is_prefix_of(t) {
        "None"@
    } else if ("Result<"@).is_prefix_of(t) {
        match find_sub(t, seq![',']) {
            Some(i) => if i >= 7 {
                "Ok("@ + default_of(t.subrange(7, i)) + ")"@
            } else {
                "Ok(())"@
            },
            None => "Ok(())"@,
        }
    } else if ("HashMap<"@).is_prefix_of(t) {
        "HashMap::new()"@
    } else if ("("@).is_prefix_of(t) {
        let inner = strip_suffix_all_spec(strip_prefix_all_spec(t, seq!['(']), seq![')']);
        "("@ + default_tuple_elems(inner) + ")"@
    } else {
        t + "::default()"@
    }
}

/// The elementwise defaults of a tuple body, split on `", "` and
/// joined with `", "` again.
pub open spec fn default_tuple_elems(s: Seq<char>) -> Seq<char>
    decreases s.len(), 1int,
    via default_tuple_elems_dec
{
    match find_sub(s, seq![',', ' ']) {
        Some(i) => default_of(s.take(i)) + seq![',', ' '] + default_tuple_elems(s.skip(i + 2)),
        None => default_of(s),
    }
}

#[via_fn]
proof fn default_of_dec(t: Seq<char>) {
    if !(("Vec<"@).is_prefix_of(t)) && !(("Option<"@).is_prefix_of(t)) && (("Result<"@)
        .is_prefix_of(t)) {
        lemma_find_from_bounds(t, seq![','], 0);
    }
    if ("("@).is_prefix_of(t) {
        reveal_strlit("(");
        let stripped = strip_prefix_all_spec(t, seq!['(']);
        assert(("("@) =~= seq!['(']);
        assert(seq!['('].is_prefix_of(t));
        assert(strip_prefix_all_spec(t, seq!['(']) == strip_prefix_all_spec(
            t.skip(1),
            seq!['('],
        ));
        lemma_strip_prefix_all_len(t.skip(1), seq!['(']);
        lemma_strip_suffix_all_len(stripped, seq![')']);
    }
}

#[via_fn]
proof fn default_tuple_elems_dec(s: Seq<char>) {
    lemma_find_from_bounds(s, seq![',', ' '], 0);
}

/// Maps an interface-language type expression to the host-language
/// type expression.
pub fn wit_type_to_rust(wit_type: &str) -> (r: String)
    ensures
        r@ == rust_type_of(wit_type@),
    decreases wit_type@.len(), 0int,
{
    if str_eq(wit_type, "s8") {
        return String::from_str("i8");
    }
    if str_eq(wit_type, "u8") {
        return String::from_str("u8");
    }
    if str_eq(wit_type, "s16") {
        return String::from_str("i16");
    }
    if str_eq(wit_type, "u16") {
        return String::from_str("u16");
    }
    if str_eq(wit_type, "s32") {
        return String::from_str("i32");
    }
    if str_eq(wit_type, "u32") {
        return String::from_str("u32");
    }
    if str_eq(wit_type, "s64") {
        return String::from_str("i64");
    }
    if str_eq(wit_type, "u64") {
        return String::from_str("u64");
    }
    if str_eq(wit_type, "usize") {
        return String::from_str("usize");
    }
    if str_eq(wit_type, "isize") {
        return String::from_str("isize");
    }
    if str_eq(wit_type, "f32") {
        return String::from_str("f32");
    }
    if str_eq(wit_type, "f64") {
        return String::from_str("f64");
    }
    if str_eq(wit_type, "string") {
        return String::from_str("String");
    }
    if str_eq(wit_type, "str") {
        return String::from_str("&str");
    }
    if str_eq(wit_type, "char") {
        return String::from_str("char");
    }
    if str_eq(wit_type, "bool") {
        return String::from_str("bool");
    }
    if str_eq(wit_type, "unit") {
        return String::from_str("()");
    }
    if str_eq(wit_type, "address") {
        return String::from_str("WitAddress");
    }
    if str_eq(wit_type, "i8") {
        return String::from_str("i8");
    }
    if str_eq(wit_type, "i16") {
        return String::from_str("i16");
    }
    if str_eq(wit_type, "i32") {
        return String::from_str("i32");
    }
    if str_eq(wit_type, "i64") {
        return String::from_str("i64");
    }
    let tl = wit_type.unicode_len();
    if starts_with_str(wit_type, "list<") && tl > 5 {
        proof {
            reveal_strlit("list<");
        }
        let inner = wit_type.substring_char(5, tl - 1);
        let mapped = wit_type_to_rust(inner);
        let mut out = String::from_str("Vec<");
        out.append(mapped.as_str());
        out.append(">");
        proof {
            assert(out@ =~= rust_type_of(wit_type@));
        }
        return out;
    }
    if starts_with_str(wit_type, "option<") && tl > 7 {
        proof {
            reveal_strlit("option<");
        }
        let inner = wit_type.substring_char(7, tl - 1);
        let mapped = wit_type_to_rust(inner);
        let mut out = String::from_str("Option<");
        out.append(mapped.as_str());
        out.append(">");
        proof {
            assert(out@ =~= rust_type_of(wit_type@));
        }
        return out;
    }
    if starts_with_str(wit_type, "result<") && tl > 7 {
        proof {
            reveal_strlit("result<");
            reveal_strlit(",");
        }
        let inner = wit_type.substring_char(7, tl - 1);
        proof {
            assert(","@ =~= seq![',']);
        }
        match find_str(inner, ",") {
            Some(i) => {
                proof {
                    lemma_find_from_bounds(inner@, seq![','], 0);
                }
                let il = inner.unicode_len();
                let ok_part = trim_ws(inner.substring_char(0, i));
                let err_part = trim_ws(inner.substring_char(i + 1, il));
                proof {
                    assert(inner@.subrange(0, i as int) =~= inner@.take(i as int));
                    assert(inner@.subrange(i as int + 1, il as int) =~= inner@.skip(i as int + 1));
                    lemma_trim_len(inner@.take(i as int));
                    lemma_trim_len(inner@.skip(i as int + 1));
                }
                let a = wit_type_to_rust(ok_part);
                let b = wit_type_to_rust(err_part);
                let mut out = String::from_str("Result<");
                out.append(a.as_str());
                out.append(", ");
                out.append(b.as_str());
                out.append(">");
                proof {
                    assert(out@ =~= rust_type_of(wit_type@));
                }
                return out;
            },
            None => {
                let mapped = wit_type_to_rust(inner);
                let mut out = String::from_str("Result<");
                out.append(mapped.as_str());
                out.append(", ()>");
                proof {
                    assert(out@ =~= rust_type_of(wit_type@));
                }
                return out;
            },
        }
    }
    if starts_with_str(wit_type, "tuple<") && tl > 6 {
        proof {
            reveal_strlit("tuple<");
        }
        let inner = wit_type.substring_char(6, tl - 1);
        let mid = map_tuple_body(inner);
        let mut out = String::from_str("(");
        out.append(mid.as_str());
        out.append(")");
        proof {
            assert(out@ =~= rust_type_of(wit_type@));
        }
        return out;
    }
    if starts_with_str(wit_type, "map<") && tl > 4 {
        proof {
            reveal_strlit("map<");
            reveal_strlit(",");
        }
        let inner = wit_type.substring_char(4, tl - 1);
        proof {
            assert(","@ =~= seq![',']);
        }
        match find_str(inner, ",") {
            Some(i) => {
                proof {
                    lemma_find_from_bounds(inner@, seq![','], 0);
                }
                let il = inner.unicode_len();
                let key_part = trim_ws(inner.substring_char(0, i));
                let val_part = trim_ws(inner.substring_char(i + 1, il));
                proof {
                    assert(inner@.subrange(0, i as int) =~= inner@.take(i as int));
                    assert(inner@.subrange(i as int + 1, il as int) =~= inner@.skip(i as int + 1));
                    lemma_trim_len(inner@.take(i as int));
                    lemma_trim_len(inner@.skip(i as int + 1));
                }
                let a = wit_type_to_rust(key_part);
                let b = wit_type_to_rust(val_part);
                let mut out = String::from_str("HashMap<");
                out.append(a.as_str());
                out.append(", ");
                out.append(b.as_str());
                out.append(">");
                proof {
                    assert(out@ =~= rust_type_of(wit_type@));
                }
                return out;
            },
            None => {
                let mapped = wit_type_to_rust(inner);
                let mut out = String::from_str("HashMap<String, ");
                out.append(mapped.as_str());
                out.append(">");
                proof {
                    assert(out@ =~= rust_type_of(wit_type@));
                }
                return out;
            },
        }
    }
    to_pascal_case(wit_type)
}

/// Maps each `", "`-separated element of a tuple body.
fn map_tuple_body(s: &str) -> (r: String)
    ensures
        r@ == rust_tuple_elems(s@),
    decreases s@.len(), 1int,
{
    proof {
        reveal_strlit(", ");
        assert((", "@) =~= seq![',', ' ']);
    }
    match find_str(s, ", ") {
        Some(i) => {
            proof {
                lemma_find_from_bounds(s@, seq![',', ' '], 0);
            }
            let sl = s.unicode_len();
            let head = s.substring_char(0, i);
            let tail = s.substring_char(i + 2, sl);
            proof {
                assert(head@ =~= s@.take(i as int));
                assert(tail@ =~= s@.skip(i as int + 2));
            }
            let mut out = wit_type_to_rust(head);
            out.append(", ");
            let rest = map_tuple_body(tail);
            out.append(rest.as_str());
            proof {
                assert(out@ =~= rust_tuple_elems(s@));
            }
            out
        },
        None => wit_type_to_rust(s),
    }
}

/// Produces the default-constructing expression for a host-language
/// type expression.
pub fn generate_default_value(rust_type: &str) -> (r: String)
    ensures
        r@ == default_of(rust_type@),
    decreases rust_type@.len(), 0int,
{
    if str_eq(rust_type, "i8") || str_eq(rust_type, "u8") || str_eq(rust_type, "i16") || str_eq(
        rust_type,
        "u16",
    ) || str_eq(rust_type, "i32") || str_eq(rust_type, "u32") || str_eq(rust_type, "i64")
        || str_eq(rust_type, "u64") || str_eq(rust_type, "isize") || str_eq(rust_type, "usize") {
        return String::from_str("0");
    }
    if str_eq(rust_type, "f32") || str_eq(rust_type, "f64") {
        return String::from_str("0.0");
    }
    if str_eq(rust_type, "String") {
        return String::from_str("String::new()");
    }
    if str_eq(rust_type, "&str") {
        return String::from_str("\"\"");
    }
    if str_eq(rust_type, "bool") {
        return String::from_str("false");
    }
    if str_eq(rust_type, "char") {
        return String::from_str("'\\0'");
    }
    if str_eq(rust_type, "()") {
        return String::from_str("()");
    }
    if starts_with_str(rust_type, "Vec<") {
        return String::from_str("Vec::new()");
    }
    if starts_with_str(rust_type, "Option<") {
        return String::from_str("None");
    }
    if starts_with_str(rust_type, "Result<") {
        proof {
            reveal_strlit(",");
        }
        proof {
            assert(","@ =~= seq![',']);
        }
        match find_str(rust_type, ",") {
            Some(i) => {
                if i >= 7 {
                    proof {
                        lemma_find_from_bounds(rust_type@, seq![','], 0);
                    }
                    let success_type = rust_type.substring_char(7, i);
                    let inner_default = generate_default_value(success_type);
                    let mut out = String::from_str("Ok(");
                    out.append(inner_default.as_str());
                    out.append(")");
                    proof {
                        assert(out@ =~= default_of(rust_type@));
                    }
                    return out;
                } else {
                    return String::from_str("Ok(())");
                }
            },
            None => {
                return String::from_str("Ok(())");
            },
        }
    }
    if starts_with_str(rust_type, "HashMap<") {
        return String::from_str("HashMap::new()");
    }
    if starts_with_str(rust_type, "(") {
        proof {
            reveal_strlit("(");
            reveal_strlit(")");
            assert(("("@) =~= seq!['(']);
            assert((")"@) =~= seq![')']);
        }
        let stripped = strip_suffix_all(strip_prefix_all(rust_type, "("), ")");
        proof {
            assert(seq!['('].is_prefix_of(rust_type@));
            assert(strip_prefix_all_spec(rust_type@, seq!['(']) == strip_prefix_all_spec(
                rust_type@.skip(1),
                seq!['('],
            ));
            lemma_strip_prefix_all_len(rust_type@.skip(1), seq!['(']);
            lemma_strip_suffix_all_len(strip_prefix_all_spec(rust_type@, seq!['(']), seq![')']);
        }
        let mid = default_tuple_body(stripped);
        let mut out = String::from_str("(");
        out.append(mid.as_str());
        out.append(")");
        proof {
            assert(out@ =~= default_of(rust_type@));
        }
        return out;
    }
    let mut out = String::from_str(rust_type);
    out.append("::default()");
    proof {
        assert(out@ =~= default_of(rust_type@));
    }
    out
}

/// Produces the default for each `", "`-separated element of a tuple
/// body.
fn default_tuple_body(s: &str) -> (r: String)
    ensures
        r@ == default_tuple_elems(s@),
    decreases s@.len(), 1int,
{
    proof {
        reveal_strlit(", ");
        assert((", "@) =~= seq![',', ' ']);
    }
    match find_str(s, ", ") {
        Some(i) => {
            proof {
                lemma_find_from_bounds(s@, seq![',', ' '], 0);
            }
            let sl = s.unicode_len();
            let head = s.substring_char(0, i);
            let tail = s.substring_char(i + 2, sl);
            proof {
                assert(head@ =~= s@.take(i as int));
                assert(tail@ =~= s@.skip(i as int + 2));
            }
            let mut out = generate_default_value(head);
            out.append(", ");
            let rest = default_tuple_body(tail);
            out.append(rest.as_str());
            proof {
                assert(out@ =~= default_tuple_elems(s@));
            }
            out
        },
        None => generate_default_value(s),
    }
}

} // verus!
