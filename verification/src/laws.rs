//! The stated laws of the type mapper, the stub generator and the
//! manifest registration, proved once and for all inputs.

use vstd::prelude::*;

use crate::parser::scan_fields;
use crate::parser::split_sub;
use crate::strutil::find_from;
use crate::strutil::lines_acc;
use crate::strutil::lines_of;
use crate::strutil::strip_cr;
use crate::strutil::find_sub;
use crate::strutil::trim_spec;
use crate::casing::pascal_of;
use crate::casing::pascal_rec;
use crate::casing::snake_of;
use crate::parser::SigFieldView;
use crate::parser::SigView;
use crate::stubgen::non_control_fields;
use crate::stubgen::return_type_of;
use crate::stubgen::stub_fn_name;
use crate::stubgen::stub_text_of;
use crate::stubgen::target_param_of;
use crate::stubgen::underscore_decl;
use crate::stubgen::http_params_of;
use crate::strutil::strip_prefix_all_spec;
use crate::strutil::strip_suffix_all_spec;
use crate::typemap::default_tuple_elems;
use crate::stubgen::payload_of;
use crate::typemap::default_of;
use crate::typemap::rust_type_of;
use crate::typemap::rust_tuple_elems;
use crate::strutil::join_sep;
use crate::world::FileView;
use crate::world::classify_worlds;
use crate::world::exists_file;
use crate::world::resolved_world_of;

verus! {

/// A first character that differs rules a prefix out.
pub proof fn lemma_not_prefix_char0(p: Seq<char>, t: Seq<char>)
    requires
        p.len() >= 1,
        t.len() >= 1,
        p[0] != t[0],
    ensures
        !p.is_prefix_of(t),
{
    if p.is_prefix_of(t) {
        assert(t.subrange(0, p.len() as int)[0] == t[0]);
    }
}

proof fn prim_s8()
    ensures
        rust_type_of("s8"@) == "i8"@,
{
    reveal_strlit("i8");
    reveal_strlit("s8");
    assert(rust_type_of("s8"@) == "i8"@);
}

proof fn prim_u8()
    ensures
        rust_type_of("u8"@) == "u8"@,
{
    reveal_strlit("s8");
    reveal_strlit("u8");
    assert(("u8"@)[0] != ("s8"@)[0]);
    assert(rust_type_of("u8"@) == "u8"@);
}

proof fn prim_s16()
    ensures
        rust_type_of("s16"@) == "i16"@,
{
    reveal_strlit("i16");
    reveal_strlit("s16");
    reveal_strlit("s8");
    reveal_strlit("u8");
    assert(("s16"@).len() != ("s8"@).len());
    assert(("s16"@).len() != ("u8"@).len());
    assert(rust_type_of("s16"@) == "i16"@);
}

proof fn prim_u16()
    ensures
        rust_type_of("u16"@) == "u16"@,
{
    reveal_strlit("s16");
    reveal_strlit("s8");
    reveal_strlit("u16");
    reveal_strlit("u8");
    assert(("u16"@).len() != ("s8"@).len());
    assert(("u16"@).len() != ("u8"@).len());
    assert(("u16"@)[0] != ("s16"@)[0]);
    assert(rust_type_of("u16"@) == "u16"@);
}

proof fn prim_s32()
    ensures
        rust_type_of("s32"@) == "i32"@,
{
    reveal_strlit("i32");
    reveal_strlit("s16");
    reveal_strlit("s32");
    reveal_strlit("s8");
    reveal_strlit("u16");
    reveal_strlit("u8");
    assert(("s32"@).len() != ("s8"@).len());
    assert(("s32"@).len() != ("u8"@).len());
    assert(("s32"@)[1] != ("s16"@)[1]);
    assert(("s32"@)[0] != ("u16"@)[0]);
    assert(rust_type_of("s32"@) == "i32"@);
}

proof fn prim_u32()
    ensures
        rust_type_of("u32"@) == "u32"@,
{
    reveal_strlit("s16");
    reveal_strlit("s32");
    reveal_strlit("s8");
    reveal_strlit("u16");
    reveal_strlit("u32");
    reveal_strlit("u8");
    assert(("u32"@).len() != ("s8"@).len());
    assert(("u32"@).len() != ("u8"@).len());
    assert(("u32"@)[0] != ("s16"@)[0]);
    assert(("u32"@)[1] != ("u16"@)[1]);
    assert(("u32"@)[0] != ("s32"@)[0]);
    assert(rust_type_of("u32"@) == "u32"@);
}

proof fn prim_s64()
    ensures
        rust_type_of("s64"@) == "i64"@,
{
    reveal_strlit("i64");
    reveal_strlit("s16");
    reveal_strlit("s32");
    reveal_strlit("s64");
    reveal_strlit("s8");
    reveal_strlit("u16");
    reveal_strlit("u32");
    reveal_strlit("u8");
    assert(("s64"@).len() != ("s8"@).len());
    assert(("s64"@).len() != ("u8"@).len());
    assert(("s64"@)[1] != ("s16"@)[1]);
    assert(("s64"@)[0] != ("u16"@)[0]);
    assert(("s64"@)[1] != ("s32"@)[1]);
    assert(("s64"@)[0] != ("u32"@)[0]);
    assert(rust_type_of("s64"@) == "i64"@);
}

proof fn prim_u64()
    ensures
        rust_type_of("u64"@) == "u64"@,
{
    reveal_strlit("s16");
    reveal_strlit("s32");
    reveal_strlit("s64");
    reveal_strlit("s8");
    reveal_strlit("u16");
    reveal_strlit("u32");
    reveal_strlit("u64");
    reveal_strlit("u8");
    assert(("u64"@).len() != ("s8"@).len());
    assert(("u64"@).len() != ("u8"@).len());
    assert(("u64"@)[0] != ("s16"@)[0]);
    assert(("u64"@)[1] != ("u16"@)[1]);
    assert(("u64"@)[0] != ("s32"@)[0]);
    assert(("u64"@)[1] != ("u32"@)[1]);
    assert(("u64"@)[0] != ("s64"@)[0]);
    assert(rust_type_of("u64"@) == "u64"@);
}

proof fn prim_usize()
    ensures
        rust_type_of("usize"@) == "usize"@,
{
    reveal_strlit("s16");
    reveal_strlit("s32");
    reveal_strlit("s64");
    reveal_strlit("s8");
    reveal_strlit("u16");
    reveal_strlit("u32");
    reveal_strlit("u64");
    reveal_strlit("u8");
    reveal_strlit("usize");
    assert(("usize"@).len() != ("s8"@).len());
    assert(("usize"@).len() != ("u8"@).len());
    assert(("usize"@).len() != ("s16"@).len());
    assert(("usize"@).len() != ("u16"@).len());
    assert(("usize"@).len() != ("s32"@).len());
    assert(("usize"@).len() != ("u32"@).len());
    assert(("usize"@).len() != ("s64"@).len());
    assert(("usize"@).len() != ("u64"@).len());
    assert(rust_type_of("usize"@) == "usize"@);
}

proof fn prim_isize()
    ensures
        rust_type_of("isize"@) == "isize"@,
{
    reveal_strlit("isize");
    reveal_strlit("s16");
    reveal_strlit("s32");
    reveal_strlit("s64");
    reveal_strlit("s8");
    reveal_strlit("u16");
    reveal_strlit("u32");
    reveal_strlit("u64");
    reveal_strlit("u8");
    reveal_strlit("usize");
    assert(("isize"@).len() != ("s8"@).len());
    assert(("isize"@).len() != ("u8"@).len());
    assert(("isize"@).len() != ("s16"@).len());
    assert(("isize"@).len() != ("u16"@).len());
    assert(("isize"@).len() != ("s32"@).len());
    assert(("isize"@).len() != ("u32"@).len());
    assert(("isize"@).len() != ("s64"@).len());
    assert(("isize"@).len() != ("u64"@).len());
    assert(("isize"@)[0] != ("usize"@)[0]);
    assert(rust_type_of("isize"@) == "isize"@);
}

proof fn prim_f32()
    ensures
        rust_type_of("f32"@) == "f32"@,
{
    reveal_strlit("f32");
    reveal_strlit("isize");
    reveal_strlit("s16");
    reveal_strlit("s32");
    reveal_strlit("s64");
    reveal_strlit("s8");
    reveal_strlit("u16");
    reveal_strlit("u32");
    reveal_strlit("u64");
    reveal_strlit("u8");
    reveal_strlit("usize");
    assert(("f32"@).len() != ("s8"@).len());
    assert(("f32"@).len() != ("u8"@).len());
    assert(("f32"@)[0] != ("s16"@)[0]);
    assert(("f32"@)[0] != ("u16"@)[0]);
    assert(("f32"@)[0] != ("s32"@)[0]);
    assert(("f32"@)[0] != ("u32"@)[0]);
    assert(("f32"@)[0] != ("s64"@)[0]);
    assert(("f32"@)[0] != ("u64"@)[0]);
    assert(("f32"@).len() != ("usize"@).len());
    assert(("f32"@).len() != ("isize"@).len());
    assert(rust_type_of("f32"@) == "f32"@);
}

proof fn prim_f64()
    ensures
        rust_type_of("f64"@) == "f64"@,
{
    reveal_strlit("f32");
    reveal_strlit("f64");
    reveal_strlit("isize");
    reveal_strlit("s16");
    reveal_strlit("s32");
    reveal_strlit("s64");
    reveal_strlit("s8");
    reveal_strlit("u16");
    reveal_strlit("u32");
    reveal_strlit("u64");
    reveal_strlit("u8");
    reveal_strlit("usize");
    assert(("f64"@).len() != ("s8"@).len());
    assert(("f64"@).len() != ("u8"@).len());
    assert(("f64"@)[0] != ("s16"@)[0]);
    assert(("f64"@)[0] != ("u16"@)[0]);
    assert(("f64"@)[0] != ("s32"@)[0]);
    assert(("f64"@)[0] != ("u32"@)[0]);
    assert(("f64"@)[0] != ("s64"@)[0]);
    assert(("f64"@)[0] != ("u64"@)[0]);
    assert(("f64"@).len() != ("usize"@).len());
    assert(("f64"@).len() != ("isize"@).len());
    assert(("f64"@)[1] != ("f32"@)[1]);
    assert(rust_type_of("f64"@) == "f64"@);
}

proof fn prim_string()
    ensures
        rust_type_of("string"@) == "String"@,
{
    reveal_strlit("String");
    reveal_strlit("f32");
    reveal_strlit("f64");
    reveal_strlit("isize");
    reveal_strlit("s16");
    reveal_strlit("s32");
    reveal_strlit("s64");
    reveal_strlit("s8");
    reveal_strlit("string");
    reveal_strlit("u16");
    reveal_strlit("u32");
    reveal_strlit("u64");
    reveal_strlit("u8");
    reveal_strlit("usize");
    assert(("string"@).len() != ("s8"@).len());
    assert(("string"@).len() != ("u8"@).len());
    assert(("string"@).len() != ("s16"@).len());
    assert(("string"@).len() != ("u16"@).len());
    assert(("string"@).len() != ("s32"@).len());
    assert(("string"@).len() != ("u32"@).len());
    assert(("string"@).len() != ("s64"@).len());
    assert(("string"@).len() != ("u64"@).len());
    assert(("string"@).len() != ("usize"@).len());
    assert(("string"@).len() != ("isize"@).len());
    assert(("string"@).len() != ("f32"@).len());
    assert(("string"@).len() != ("f64"@).len());
    assert(rust_type_of("string"@) == "String"@);
}

proof fn prim_str()
    ensures
        rust_type_of("str"@) == "&str"@,
{
    reveal_strlit("&str");
    reveal_strlit("f32");
    reveal_strlit("f64");
    reveal_strlit("isize");
    reveal_strlit("s16");
    reveal_strlit("s32");
    reveal_strlit("s64");
    reveal_strlit("s8");
    reveal_strlit("str");
    reveal_strlit("string");
    reveal_strlit("u16");
    reveal_strlit("u32");
    reveal_strlit("u64");
    reveal_strlit("u8");
    reveal_strlit("usize");
    assert(("str"@).len() != ("s8"@).len());
    assert(("str"@).len() != ("u8"@).len());
    assert(("str"@)[1] != ("s16"@)[1]);
    assert(("str"@)[0] != ("u16"@)[0]);
    assert(("str"@)[1] != ("s32"@)[1]);
    assert(("str"@)[0] != ("u32"@)[0]);
    assert(("str"@)[1] != ("s64"@)[1]);
    assert(("str"@)[0] != ("u64"@)[0]);
    assert(("str"@).len() != ("usize"@).len());
    assert(("str"@).len() != ("isize"@).len());
    assert(("str"@)[0] != ("f32"@)[0]);
    assert(("str"@)[0] != ("f64"@)[0]);
    assert(("str"@).len() != ("string"@).len());
    assert(rust_type_of("str"@) == "&str"@);
}

proof fn prim_char()
    ensures
        rust_type_of("char"@) == "char"@,
{
    reveal_strlit("char");
    reveal_strlit("f32");
    reveal_strlit("f64");
    reveal_strlit("isize");
    reveal_strlit("s16");
    reveal_strlit("s32");
    reveal_strlit("s64");
    reveal_strlit("s8");
    reveal_strlit("str");
    reveal_strlit("string");
    reveal_strlit("u16");
    reveal_strlit("u32");
    reveal_strlit("u64");
    reveal_strlit("u8");
    reveal_strlit("usize");
    assert(("char"@).len() != ("s8"@).len());
    assert(("char"@).len() != ("u8"@).len());
    assert(("char"@).len() != ("s16"@).len());
    assert(("char"@).len() != ("u16"@).len());
    assert(("char"@).len() != ("s32"@).len());
    assert(("char"@).len() != ("u32"@).len());
    assert(("char"@).len() != ("s64"@).len());
    assert(("char"@).len() != ("u64"@).len());
    assert(("char"@).len() != ("usize"@).len());
    assert(("char"@).len() != ("isize"@).len());
    assert(("char"@).len() != ("f32"@).len());
    assert(("char"@).len() != ("f64"@).len());
    assert(("char"@).len() != ("string"@).len());
    assert(("char"@).len() != ("str"@).len());
    assert(rust_type_of("char"@) == "char"@);
}

proof fn prim_bool()
    ensures
        rust_type_of("bool"@) == "bool"@,
{
    reveal_strlit("bool");
    reveal_strlit("char");
    reveal_strlit("f32");
    reveal_strlit("f64");
    reveal_strlit("isize");
    reveal_strlit("s16");
    reveal_strlit("s32");
    reveal_strlit("s64");
    reveal_strlit("s8");
    reveal_strlit("str");
    reveal_strlit("string");
    reveal_strlit("u16");
    reveal_strlit("u32");
    reveal_strlit("u64");
    reveal_strlit("u8");
    reveal_strlit("usize");
    assert(("bool"@).len() != ("s8"@).len());
    assert(("bool"@).len() != ("u8"@).len());
    assert(("bool"@).len() != ("s16"@).len());
    assert(("bool"@).len() != ("u16"@).len());
    assert(("bool"@).len() != ("s32"@).len());
    assert(("bool"@).len() != ("u32"@).len());
    assert(("bool"@).len() != ("s64"@).len());
    assert(("bool"@).len() != ("u64"@).len());
    assert(("bool"@).len() != ("usize"@).len());
    assert(("bool"@).len() != ("isize"@).len());
    assert(("bool"@).len() != ("f32"@).len());
    assert(("bool"@).len() != ("f64"@).len());
    assert(("bool"@).len() != ("string"@).len());
    assert(("bool"@).len() != ("str"@).len());
    assert(("bool"@)[0] != ("char"@)[0]);
    assert(rust_type_of("bool"@) == "bool"@);
}

proof fn prim_unit()
    ensures
        rust_type_of("unit"@) == "()"@,
{
    reveal_strlit("()");
    reveal_strlit("bool");
    reveal_strlit("char");
    reveal_strlit("f32");
    reveal_strlit("f64");
    reveal_strlit("isize");
    reveal_strlit("s16");
    reveal_strlit("s32");
    reveal_strlit("s64");
    reveal_strlit("s8");
    reveal_strlit("str");
    reveal_strlit("string");
    reveal_strlit("u16");
    reveal_strlit("u32");
    reveal_strlit("u64");
    reveal_strlit("u8");
    reveal_strlit("unit");
    reveal_strlit("usize");
    assert(("unit"@).len() != ("s8"@).len());
    assert(("unit"@).len() != ("u8"@).len());
    assert(("unit"@).len() != ("s16"@).len());
    assert(("unit"@).len() != ("u16"@).len());
    assert(("unit"@).len() != ("s32"@).len());
    assert(("unit"@).len() != ("u32"@).len());
    assert(("unit"@).len() != ("s64"@).len());
    assert(("unit"@).len() != ("u64"@).len());
    assert(("unit"@).len() != ("usize"@).len());
    assert(("unit"@).len() != ("isize"@).len());
    assert(("unit"@).len() != ("f32"@).len());
    assert(("unit"@).len() != ("f64"@).len());
    assert(("unit"@).len() != ("string"@).len());
    assert(("unit"@).len() != ("str"@).len());
    assert(("unit"@)[0] != ("char"@)[0]);
    assert(("unit"@)[0] != ("bool"@)[0]);
    assert(rust_type_of("unit"@) == "()"@);
}

proof fn prim_address()
    ensures
        rust_type_of("address"@) == "WitAddress"@,
{
    reveal_strlit("WitAddress");
    reveal_strlit("address");
    reveal_strlit("bool");
    reveal_strlit("char");
    reveal_strlit("f32");
    reveal_strlit("f64");
    reveal_strlit("isize");
    reveal_strlit("s16");
    reveal_strlit("s32");
    reveal_strlit("s64");
    reveal_strlit("s8");
    reveal_strlit("str");
    reveal_strlit("string");
    reveal_strlit("u16");
    reveal_strlit("u32");
    reveal_strlit("u64");
    reveal_strlit("u8");
    reveal_strlit("unit");
    reveal_strlit("usize");
    assert(("address"@).len() != ("s8"@).len());
    assert(("address"@).len() != ("u8"@).len());
    assert(("address"@).len() != ("s16"@).len());
    assert(("address"@).len() != ("u16"@).len());
    assert(("address"@).len() != ("s32"@).len());
    assert(("address"@).len() != ("u32"@).len());
    assert(("address"@).len() != ("s64"@).len());
    assert(("address"@).len() != ("u64"@).len());
    assert(("address"@).len() != ("usize"@).len());
    assert(("address"@).len() != ("isize"@).len());
    assert(("address"@).len() != ("f32"@).len());
    assert(("address"@).len() != ("f64"@).len());
    assert(("address"@).len() != ("string"@).len());
    assert(("address"@).len() != ("str"@).len());
    assert(("address"@).len() != ("char"@).len());
    assert(("address"@).len() != ("bool"@).len());
    assert(("address"@).len() != ("unit"@).len());
    assert(rust_type_of("address"@) == "WitAddress"@);
}

proof fn prim_i8()
    ensures
        rust_type_of("i8"@) == "i8"@,
{
    reveal_strlit("address");
    reveal_strlit("bool");
    reveal_strlit("char");
    reveal_strlit("f32");
    reveal_strlit("f64");
    reveal_strlit("i8");
    reveal_strlit("isize");
    reveal_strlit("s16");
    reveal_strlit("s32");
    reveal_strlit("s64");
    reveal_strlit("s8");
    reveal_strlit("str");
    reveal_strlit("string");
    reveal_strlit("u16");
    reveal_strlit("u32");
    reveal_strlit("u64");
    reveal_strlit("u8");
    reveal_strlit("unit");
    reveal_strlit("usize");
    assert(("i8"@)[0] != ("s8"@)[0]);
    assert(("i8"@)[0] != ("u8"@)[0]);
    assert(("i8"@).len() != ("s16"@).len());
    assert(("i8"@).len() != ("u16"@).len());
    assert(("i8"@).len() != ("s32"@).len());
    assert(("i8"@).len() != ("u32"@).len());
    assert(("i8"@).len() != ("s64"@).len());
    assert(("i8"@).len() != ("u64"@).len());
    assert(("i8"@).len() != ("usize"@).len());
    assert(("i8"@).len() != ("isize"@).len());
    assert(("i8"@).len() != ("f32"@).len());
    assert(("i8"@).len() != ("f64"@).len());
    assert(("i8"@).len() != ("string"@).len());
    assert(("i8"@).len() != ("str"@).len());
    assert(("i8"@).len() != ("char"@).len());
    assert(("i8"@).len() != ("bool"@).len());
    assert(("i8"@).len() != ("unit"@).len());
    assert(("i8"@).len() != ("address"@).len());
    assert(rust_type_of("i8"@) == "i8"@);
}

proof fn prim_i16()
    ensures
        rust_type_of("i16"@) == "i16"@,
{
    reveal_strlit("address");
    reveal_strlit("bool");
    reveal_strlit("char");
    reveal_strlit("f32");
    reveal_strlit("f64");
    reveal_strlit("i16");
    reveal_strlit("i8");
    reveal_strlit("isize");
    reveal_strlit("s16");
    reveal_strlit("s32");
    reveal_strlit("s64");
    reveal_strlit("s8");
    reveal_strlit("str");
    reveal_strlit("string");
    reveal_strlit("u16");
    reveal_strlit("u32");
    reveal_strlit("u64");
    reveal_strlit("u8");
    reveal_strlit("unit");
    reveal_strlit("usize");
    assert(("i16"@).len() != ("s8"@).len());
    assert(("i16"@).len() != ("u8"@).len());
    assert(("i16"@)[0] != ("s16"@)[0]);
    assert(("i16"@)[0] != ("u16"@)[0]);
    assert(("i16"@)[0] != ("s32"@)[0]);
    assert(("i16"@)[0] != ("u32"@)[0]);
    assert(("i16"@)[0] != ("s64"@)[0]);
    assert(("i16"@)[0] != ("u64"@)[0]);
    assert(("i16"@).len() != ("usize"@).len());
    assert(("i16"@).len() != ("isize"@).len());
    assert(("i16"@)[0] != ("f32"@)[0]);
    assert(("i16"@)[0] != ("f64"@)[0]);
    assert(("i16"@).len() != ("string"@).len());
    assert(("i16"@)[0] != ("str"@)[0]);
    assert(("i16"@).len() != ("char"@).len());
    assert(("i16"@).len() != ("bool"@).len());
    assert(("i16"@).len() != ("unit"@).len());
    assert(("i16"@).len() != ("address"@).len());
    assert(("i16"@).len() != ("i8"@).len());
    assert(rust_type_of("i16"@) == "i16"@);
}

proof fn prim_i32()
    ensures
        rust_type_of("i32"@) == "i32"@,
{
    reveal_strlit("address");
    reveal_strlit("bool");
    reveal_strlit("char");
    reveal_strlit("f32");
    reveal_strlit("f64");
    reveal_strlit("i16");
    reveal_strlit("i32");
    reveal_strlit("i8");
    reveal_strlit("isize");
    reveal_strlit("s16");
    reveal_strlit("s32");
    reveal_strlit("s64");
    reveal_strlit("s8");
    reveal_strlit("str");
    reveal_strlit("string");
    reveal_strlit("u16");
    reveal_strlit("u32");
    reveal_strlit("u64");
    reveal_strlit("u8");
    reveal_strlit("unit");
    reveal_strlit("usize");
    assert(("i32"@).len() != ("s8"@).len());
    assert(("i32"@).len() != ("u8"@).len());
    assert(("i32"@)[0] != ("s16"@)[0]);
    assert(("i32"@)[0] != ("u16"@)[0]);
    assert(("i32"@)[0] != ("s32"@)[0]);
    assert(("i32"@)[0] != ("u32"@)[0]);
    assert(("i32"@)[0] != ("s64"@)[0]);
    assert(("i32"@)[0] != ("u64"@)[0]);
    assert(("i32"@).len() != ("usize"@).len());
    assert(("i32"@).len() != ("isize"@).len());
    assert(("i32"@)[0] != ("f32"@)[0]);
    assert(("i32"@)[0] != ("f64"@)[0]);
    assert(("i32"@).len() != ("string"@).len());
    assert(("i32"@)[0] != ("str"@)[0]);
    assert(("i32"@).len() != ("char"@).len());
    assert(("i32"@).len() != ("bool"@).len());
    assert(("i32"@).len() != ("unit"@).len());
    assert(("i32"@).len() != ("address"@).len());
    assert(("i32"@).len() != ("i8"@).len());
    assert(("i32"@)[1] != ("i16"@)[1]);
    assert(rust_type_of("i32"@) == "i32"@);
}

proof fn prim_i64()
    ensures
        rust_type_of("i64"@) == "i64"@,
{
    reveal_strlit("address");
    reveal_strlit("bool");
    reveal_strlit("char");
    reveal_strlit("f32");
    reveal_strlit("f64");
    reveal_strlit("i16");
    reveal_strlit("i32");
    reveal_strlit("i64");
    reveal_strlit("i8");
    reveal_strlit("isize");
    reveal_strlit("s16");
    reveal_strlit("s32");
    reveal_strlit("s64");
    reveal_strlit("s8");
    reveal_strlit("str");
    reveal_strlit("string");
    reveal_strlit("u16");
    reveal_strlit("u32");
    reveal_strlit("u64");
    reveal_strlit("u8");
    reveal_strlit("unit");
    reveal_strlit("usize");
    assert(("i64"@).len() != ("s8"@).len());
    assert(("i64"@).len() != ("u8"@).len());
    assert(("i64"@)[0] != ("s16"@)[0]);
    assert(("i64"@)[0] != ("u16"@)[0]);
    assert(("i64"@)[0] != ("s32"@)[0]);
    assert(("i64"@)[0] != ("u32"@)[0]);
    assert(("i64"@)[0] != ("s64"@)[0]);
    assert(("i64"@)[0] != ("u64"@)[0]);
    assert(("i64"@).len() != ("usize"@).len());
    assert(("i64"@).len() != ("isize"@).len());
    assert(("i64"@)[0] != ("f32"@)[0]);
    assert(("i64"@)[0] != ("f64"@)[0]);
    assert(("i64"@).len() != ("string"@).len());
    assert(("i64"@)[0] != ("str"@)[0]);
    assert(("i64"@).len() != ("char"@).len());
    assert(("i64"@).len() != ("bool"@).len());
    assert(("i64"@).len() != ("unit"@).len());
    assert(("i64"@).len() != ("address"@).len());
    assert(("i64"@).len() != ("i8"@).len());
    assert(("i64"@)[1] != ("i16"@)[1]);
    assert(("i64"@)[1] != ("i32"@)[1]);
    assert(rust_type_of("i64"@) == "i64"@);
}

/// Law: the primitive table is total and fixed — every primitive
/// interface-language type name maps to exactly its table entry; no
/// table entry falls through to the custom-type fallback.
pub proof fn lemma_primitive_table()
    ensures
        rust_type_of("s8"@) == "i8"@,
        rust_type_of("u8"@) == "u8"@,
        rust_type_of("s16"@) == "i16"@,
        rust_type_of("u16"@) == "u16"@,
        rust_type_of("s32"@) == "i32"@,
        rust_type_of("u32"@) == "u32"@,
        rust_type_of("s64"@) == "i64"@,
        rust_type_of("u64"@) == "u64"@,
        rust_type_of("usize"@) == "usize"@,
        rust_type_of("isize"@) == "isize"@,
        rust_type_of("f32"@) == "f32"@,
        rust_type_of("f64"@) == "f64"@,
        rust_type_of("string"@) == "String"@,
        rust_type_of("str"@) == "&str"@,
        rust_type_of("char"@) == "char"@,
        rust_type_of("bool"@) == "bool"@,
        rust_type_of("unit"@) == "()"@,
        rust_type_of("address"@) == "WitAddress"@,
        rust_type_of("i8"@) == "i8"@,
        rust_type_of("i16"@) == "i16"@,
        rust_type_of("i32"@) == "i32"@,
        rust_type_of("i64"@) == "i64"@,
{
    prim_s8();
    prim_u8();
    prim_s16();
    prim_u16();
    prim_s32();
    prim_u32();
    prim_s64();
    prim_u64();
    prim_usize();
    prim_isize();
    prim_f32();
    prim_f64();
    prim_string();
    prim_str();
    prim_char();
    prim_bool();
    prim_unit();
    prim_address();
    prim_i8();
    prim_i16();
    prim_i32();
    prim_i64();
}

/// The first match of `p` at or after `i` is at `j` when `p` matches
/// there and nowhere earlier.
pub proof fn lemma_find_at(s: Seq<char>, p: Seq<char>, i: int, j: int)
    requires
        0 <= i <= j,
        j + p.len() <= s.len(),
        p.len() > 0,
        p.is_prefix_of(s.skip(j)),
        forall|k: int| i <= k < j ==> !p.is_prefix_of(s.skip(k)),
    ensures
        find_from(s, p, i) == Some(j),
    decreases j - i,
{
    if i < j {
        lemma_find_at(s, p, i + 1, j);
    }
}

/// Law: the mapper recurses on the inner type of a list shape,
/// whatever the inner type is — nested shapes included.
pub proof fn lemma_map_list(x: Seq<char>)
    ensures
        rust_type_of("list<"@ + x + ">"@) == "Vec<"@ + rust_type_of(x) + ">"@,
{
    reveal_strlit("list<");
    reveal_strlit(">");
    let t = "list<"@ + x + ">"@;
    assert(t.len() == 6 + x.len());
    assert(t[0] == 'l');
    lemma_shape_head_not_primitive(t);
    assert(("list<"@).is_prefix_of(t)) by {
        assert(t.subrange(0, 5) =~= "list<"@);
    }
    assert(t.subrange(5, t.len() - 1) =~= x);
}

/// Law: the mapper recurses on the inner type of an option shape.
pub proof fn lemma_map_option(x: Seq<char>)
    ensures
        rust_type_of("option<"@ + x + ">"@) == "Option<"@ + rust_type_of(x) + ">"@,
{
    reveal_strlit("list<");
    reveal_strlit("option<");
    reveal_strlit(">");
    let t = "option<"@ + x + ">"@;
    assert(t.len() == 8 + x.len());
    assert(t[0] == 'o');
    lemma_shape_head_not_primitive(t);
    lemma_not_prefix_char0("list<"@, t);
    assert(("option<"@).is_prefix_of(t)) by {
        assert(t.subrange(0, 7) =~= "option<"@);
    }
    assert(t.subrange(7, t.len() - 1) =~= x);
}

/// No primitive table entry begins with the character this expression
/// begins with, so none of the exact table arms applies.
proof fn lemma_shape_head_not_primitive(t: Seq<char>)
    requires
        t.len() >= 1,
        t[0] == 'l' || t[0] == 'o' || t[0] == 'r' || t[0] == 't' || t[0] == 'm',
    ensures
        t != "s8"@ && t != "u8"@ && t != "s16"@ && t != "u16"@ && t != "s32"@ && t != "u32"@
            && t != "s64"@ && t != "u64"@ && t != "usize"@ && t != "isize"@ && t != "f32"@
            && t != "f64"@ && t != "string"@ && t != "str"@ && t != "char"@ && t != "bool"@
            && t != "unit"@ && t != "address"@ && t != "i8"@ && t != "i16"@ && t != "i32"@
            && t != "i64"@,
{
    reveal_strlit("s8");
    reveal_strlit("u8");
    reveal_strlit("s16");
    reveal_strlit("u16");
    reveal_strlit("s32");
    reveal_strlit("u32");
    reveal_strlit("s64");
    reveal_strlit("u64");
    reveal_strlit("usize");
    reveal_strlit("isize");
    reveal_strlit("f32");
    reveal_strlit("f64");
    reveal_strlit("string");
    reveal_strlit("str");
    reveal_strlit("char");
    reveal_strlit("bool");
    reveal_strlit("unit");
    reveal_strlit("address");
    reveal_strlit("i8");
    reveal_strlit("i16");
    reveal_strlit("i32");
    reveal_strlit("i64");
}

/// A pattern that matches nowhere from `i` on is not found.
pub proof fn lemma_find_none_from(s: Seq<char>, p: Seq<char>, i: int)
    requires
        0 <= i,
        p.len() > 0,
        forall|k: int| i <= k && k + p.len() <= s.len() ==> !p.is_prefix_of(s.skip(k)),
    ensures
        find_from(s, p, i) is None,
    decreases s.len() - i,
{
    if i + p.len() <= s.len() {
        lemma_find_none_from(s, p, i + 1);
    }
}

/// Law: the mapper splits a result shape at its first comma and
/// recurses on both sides; the sides here carry no comma and no edge
/// whitespace.
pub proof fn lemma_map_result(a: Seq<char>, b: Seq<char>)
    requires
        forall|i: int| 0 <= i < a.len() ==> a[i] != ',',
        trim_spec(a) == a,
        trim_spec(b) == b,
    ensures
        rust_type_of("result<"@ + a + ","@ + b + ">"@) == "Result<"@ + rust_type_of(a) + ", "@
            + rust_type_of(b) + ">"@,
{
    reveal_strlit("list<");
    reveal_strlit("option<");
    reveal_strlit("result<");
    reveal_strlit(",");
    reveal_strlit(">");
    let t = "result<"@ + a + ","@ + b + ">"@;
    assert(t.len() == 9 + a.len() + b.len());
    assert(t[0] == 'r');
    lemma_shape_head_not_primitive(t);
    lemma_not_prefix_char0("list<"@, t);
    lemma_not_prefix_char0("option<"@, t);
    assert(("result<"@).is_prefix_of(t)) by {
        assert(t.subrange(0, 7) =~= "result<"@);
    }
    let inner = t.subrange(7, t.len() - 1);
    assert(inner =~= a + ","@ + b);
    let j = a.len() as int;
    assert(seq![','].is_prefix_of(inner.skip(j))) by {
        assert(inner.skip(j)[0] == ',');
        assert(inner.skip(j).subrange(0, 1) =~= seq![',']);
    }
    assert forall|k: int| 0 <= k < j implies !seq![','].is_prefix_of(inner.skip(k)) by {
        assert(inner.skip(k)[0] == a[k]);
        lemma_not_prefix_char0(seq![','], inner.skip(k));
    }
    lemma_find_at(inner, seq![','], 0, j);
    assert(inner.take(j) =~= a);
    assert(inner.skip(j + 1) =~= b);
}

/// Law: the mapper splits a map shape at its first comma into key and
/// value and recurses on both; the key here carries no comma, and
/// neither side edge whitespace.
pub proof fn lemma_map_map(a: Seq<char>, b: Seq<char>)
    requires
        forall|i: int| 0 <= i < a.len() ==> a[i] != ',',
        trim_spec(a) == a,
        trim_spec(b) == b,
    ensures
        rust_type_of("map<"@ + a + ","@ + b + ">"@) == "HashMap<"@ + rust_type_of(a) + ", "@
            + rust_type_of(b) + ">"@,
{
    reveal_strlit("list<");
    reveal_strlit("option<");
    reveal_strlit("result<");
    reveal_strlit("tuple<");
    reveal_strlit("map<");
    reveal_strlit(",");
    reveal_strlit(">");
    let t = "map<"@ + a + ","@ + b + ">"@;
    assert(t.len() == 6 + a.len() + b.len());
    assert(t[0] == 'm');
    lemma_shape_head_not_primitive(t);
    lemma_not_prefix_char0("list<"@, t);
    lemma_not_prefix_char0("option<"@, t);
    lemma_not_prefix_char0("result<"@, t);
    lemma_not_prefix_char0("tuple<"@, t);
    assert(("map<"@).is_prefix_of(t)) by {
        assert(t.subrange(0, 4) =~= "map<"@);
    }
    let inner = t.subrange(4, t.len() - 1);
    assert(inner =~= a + ","@ + b);
    let j = a.len() as int;
    assert(seq![','].is_prefix_of(inner.skip(j))) by {
        assert(inner.skip(j)[0] == ',');
        assert(inner.skip(j).subrange(0, 1) =~= seq![',']);
    }
    assert forall|k: int| 0 <= k < j implies !seq![','].is_prefix_of(inner.skip(k)) by {
        assert(inner.skip(k)[0] == a[k]);
        lemma_not_prefix_char0(seq![','], inner.skip(k));
    }
    lemma_find_at(inner, seq![','], 0, j);
    assert(inner.take(j) =~= a);
    assert(inner.skip(j + 1) =~= b);
}

/// Law: the mapper splits a two-element tuple shape on the separator
/// and recurses on both elements; the elements here carry no comma.
#[verifier::rlimit(100)]
#[verifier::spinoff_prover]
pub proof fn lemma_map_tuple(a: Seq<char>, b: Seq<char>)
    requires
        forall|i: int| 0 <= i < a.len() ==> a[i] != ',',
        forall|i: int| 0 <= i < b.len() ==> b[i] != ',',
    ensures
        rust_type_of("tuple<"@ + a + ", "@ + b + ">"@) == "("@ + rust_type_of(a) + ", "@
            + rust_type_of(b) + ")"@,
{
    reveal_strlit("list<");
    reveal_strlit("option<");
    reveal_strlit("result<");
    reveal_strlit("tuple<");
    reveal_strlit(", ");
    reveal_strlit(">");
    let t = "tuple<"@ + a + ", "@ + b + ">"@;
    assert(t.len() == 9 + a.len() + b.len());
    assert(t[0] == 't');
    lemma_shape_head_not_primitive(t);
    lemma_not_prefix_char0("list<"@, t);
    lemma_not_prefix_char0("option<"@, t);
    lemma_not_prefix_char0("result<"@, t);
    assert(("tuple<"@).is_prefix_of(t)) by {
        assert(t.subrange(0, 6) =~= "tuple<"@);
    }
    let inner = t.subrange(6, t.len() - 1);
    assert(inner =~= a + ", "@ + b);
    let j = a.len() as int;
    let sep = seq![',', ' '];
    assert(sep.is_prefix_of(inner.skip(j))) by {
        assert(inner.skip(j)[0] == ',');
        assert(inner.skip(j)[1] == ' ');
        assert(inner.skip(j).subrange(0, 2) =~= sep);
    }
    assert forall|k: int| 0 <= k < j implies !sep.is_prefix_of(inner.skip(k)) by {
        assert(inner.skip(k)[0] == a[k]);
        lemma_not_prefix_char0(sep, inner.skip(k));
    }
    lemma_find_at(inner, sep, 0, j);
    assert(inner.take(j) =~= a);
    assert(inner.skip(j + 2) =~= b);
    assert(find_sub(b, sep) is None) by {
        assert forall|k: int| 0 <= k && k + 2 <= b.len() implies !sep.is_prefix_of(
            b.skip(k),
        ) by {
            assert(b.skip(k)[0] == b[k]);
            lemma_not_prefix_char0(sep, b.skip(k));
        }
        lemma_find_none_from(b, sep, 0);
    }
    assert(rust_tuple_elems(b) == rust_type_of(b));
    assert(rust_tuple_elems(inner) == rust_type_of(a) + ", "@ + rust_tuple_elems(b));
    assert("("@ + rust_tuple_elems(inner) + ")"@ =~= "("@ + rust_type_of(a) + ", "@
        + rust_type_of(b) + ")"@);
}

proof fn dflt_i8()
    ensures
        default_of("i8"@) == "0"@,
{
    reveal_strlit("0");
    reveal_strlit("i8");
    assert(default_of("i8"@) == "0"@);
}

proof fn dflt_u8()
    ensures
        default_of("u8"@) == "0"@,
{
    reveal_strlit("0");
    reveal_strlit("i8");
    reveal_strlit("u8");
    assert(("u8"@)[0] != ("i8"@)[0]);
    assert(default_of("u8"@) == "0"@);
}

proof fn dflt_i16()
    ensures
        default_of("i16"@) == "0"@,
{
    reveal_strlit("0");
    reveal_strlit("i16");
    reveal_strlit("i8");
    reveal_strlit("u8");
    assert(("i16"@).len() != ("i8"@).len());
    assert(("i16"@).len() != ("u8"@).len());
    assert(default_of("i16"@) == "0"@);
}

proof fn dflt_u16()
    ensures
        default_of("u16"@) == "0"@,
{
    reveal_strlit("0");
    reveal_strlit("i16");
    reveal_strlit("i8");
    reveal_strlit("u16");
    reveal_strlit("u8");
    assert(("u16"@).len() != ("i8"@).len());
    assert(("u16"@).len() != ("u8"@).len());
    assert(("u16"@)[0] != ("i16"@)[0]);
    assert(default_of("u16"@) == "0"@);
}

proof fn dflt_i32()
    ensures
        default_of("i32"@) == "0"@,
{
    reveal_strlit("0");
    reveal_strlit("i16");
    reveal_strlit("i32");
    reveal_strlit("i8");
    reveal_strlit("u16");
    reveal_strlit("u8");
    assert(("i32"@).len() != ("i8"@).len());
    assert(("i32"@).len() != ("u8"@).len());
    assert(("i32"@)[1] != ("i16"@)[1]);
    assert(("i32"@)[0] != ("u16"@)[0]);
    assert(default_of("i32"@) == "0"@);
}

proof fn dflt_u32()
    ensures
        default_of("u32"@) == "0"@,
{
    reveal_strlit("0");
    reveal_strlit("i16");
    reveal_strlit("i32");
    reveal_strlit("i8");
    reveal_strlit("u16");
    reveal_strlit("u32");
    reveal_strlit("u8");
    assert(("u32"@).len() != ("i8"@).len());
    assert(("u32"@).len() != ("u8"@).len());
    assert(("u32"@)[0] != ("i16"@)[0]);
    assert(("u32"@)[1] != ("u16"@)[1]);
    assert(("u32"@)[0] != ("i32"@)[0]);
    assert(default_of("u32"@) == "0"@);
}

proof fn dflt_i64()
    ensures
        default_of("i64"@) == "0"@,
{
    reveal_strlit("0");
    reveal_strlit("i16");
    reveal_strlit("i32");
    reveal_strlit("i64");
    reveal_strlit("i8");
    reveal_strlit("u16");
    reveal_strlit("u32");
    reveal_strlit("u8");
    assert(("i64"@).len() != ("i8"@).len());
    assert(("i64"@).len() != ("u8"@).len());
    assert(("i64"@)[1] != ("i16"@)[1]);
    assert(("i64"@)[0] != ("u16"@)[0]);
    assert(("i64"@)[1] != ("i32"@)[1]);
    assert(("i64"@)[0] != ("u32"@)[0]);
    assert(default_of("i64"@) == "0"@);
}

proof fn dflt_u64()
    ensures
        default_of("u64"@) == "0"@,
{
    reveal_strlit("0");
    reveal_strlit("i16");
    reveal_strlit("i32");
    reveal_strlit("i64");
    reveal_strlit("i8");
    reveal_strlit("u16");
    reveal_strlit("u32");
    reveal_strlit("u64");
    reveal_strlit("u8");
    assert(("u64"@).len() != ("i8"@).len());
    assert(("u64"@).len() != ("u8"@).len());
    assert(("u64"@)[0] != ("i16"@)[0]);
    assert(("u64"@)[1] != ("u16"@)[1]);
    assert(("u64"@)[0] != ("i32"@)[0]);
    assert(("u64"@)[1] != ("u32"@)[1]);
    assert(("u64"@)[0] != ("i64"@)[0]);
    assert(default_of("u64"@) == "0"@);
}

proof fn dflt_isize()
    ensures
        default_of("isize"@) == "0"@,
{
    reveal_strlit("0");
    reveal_strlit("i16");
    reveal_strlit("i32");
    reveal_strlit("i64");
    reveal_strlit("i8");
    reveal_strlit("isize");
    reveal_strlit("u16");
    reveal_strlit("u32");
    reveal_strlit("u64");
    reveal_strlit("u8");
    assert(("isize"@).len() != ("i8"@).len());
    assert(("isize"@).len() != ("u8"@).len());
    assert(("isize"@).len() != ("i16"@).len());
    assert(("isize"@).len() != ("u16"@).len());
    assert(("isize"@).len() != ("i32"@).len());
    assert(("isize"@).len() != ("u32"@).len());
    assert(("isize"@).len() != ("i64"@).len());
    assert(("isize"@).len() != ("u64"@).len());
    assert(default_of("isize"@) == "0"@);
}

proof fn dflt_usize()
    ensures
        default_of("usize"@) == "0"@,
{
    reveal_strlit("0");
    reveal_strlit("i16");
    reveal_strlit("i32");
    reveal_strlit("i64");
    reveal_strlit("i8");
    reveal_strlit("isize");
    reveal_strlit("u16");
    reveal_strlit("u32");
    reveal_strlit("u64");
    reveal_strlit("u8");
    reveal_strlit("usize");
    assert(("usize"@).len() != ("i8"@).len());
    assert(("usize"@).len() != ("u8"@).len());
    assert(("usize"@).len() != ("i16"@).len());
    assert(("usize"@).len() != ("u16"@).len());
    assert(("usize"@).len() != ("i32"@).len());
    assert(("usize"@).len() != ("u32"@).len());
    assert(("usize"@).len() != ("i64"@).len());
    assert(("usize"@).len() != ("u64"@).len());
    assert(("usize"@)[0] != ("isize"@)[0]);
    assert(default_of("usize"@) == "0"@);
}

proof fn dflt_f32()
    ensures
        default_of("f32"@) == "0.0"@,
{
    reveal_strlit("0.0");
    reveal_strlit("f32");
    reveal_strlit("i16");
    reveal_strlit("i32");
    reveal_strlit("i64");
    reveal_strlit("i8");
    reveal_strlit("isize");
    reveal_strlit("u16");
    reveal_strlit("u32");
    reveal_strlit("u64");
    reveal_strlit("u8");
    reveal_strlit("usize");
    assert(("f32"@).len() != ("i8"@).len());
    assert(("f32"@).len() != ("u8"@).len());
    assert(("f32"@)[0] != ("i16"@)[0]);
    assert(("f32"@)[0] != ("u16"@)[0]);
    assert(("f32"@)[0] != ("i32"@)[0]);
    assert(("f32"@)[0] != ("u32"@)[0]);
    assert(("f32"@)[0] != ("i64"@)[0]);
    assert(("f32"@)[0] != ("u64"@)[0]);
    assert(("f32"@).len() != ("isize"@).len());
    assert(("f32"@).len() != ("usize"@).len());
    assert(default_of("f32"@) == "0.0"@);
}

proof fn dflt_f64()
    ensures
        default_of("f64"@) == "0.0"@,
{
    reveal_strlit("0.0");
    reveal_strlit("f32");
    reveal_strlit("f64");
    reveal_strlit("i16");
    reveal_strlit("i32");
    reveal_strlit("i64");
    reveal_strlit("i8");
    reveal_strlit("isize");
    reveal_strlit("u16");
    reveal_strlit("u32");
    reveal_strlit("u64");
    reveal_strlit("u8");
    reveal_strlit("usize");
    assert(("f64"@).len() != ("i8"@).len());
    assert(("f64"@).len() != ("u8"@).len());
    assert(("f64"@)[0] != ("i16"@)[0]);
    assert(("f64"@)[0] != ("u16"@)[0]);
    assert(("f64"@)[0] != ("i32"@)[0]);
    assert(("f64"@)[0] != ("u32"@)[0]);
    assert(("f64"@)[0] != ("i64"@)[0]);
    assert(("f64"@)[0] != ("u64"@)[0]);
    assert(("f64"@).len() != ("isize"@).len());
    assert(("f64"@).len() != ("usize"@).len());
    assert(("f64"@)[1] != ("f32"@)[1]);
    assert(default_of("f64"@) == "0.0"@);
}

proof fn dflt_string_ty()
    ensures
        default_of("String"@) == "String::new()"@,
{
    reveal_strlit("String");
    reveal_strlit("String::new()");
    reveal_strlit("f32");
    reveal_strlit("f64");
    reveal_strlit("i16");
    reveal_strlit("i32");
    reveal_strlit("i64");
    reveal_strlit("i8");
    reveal_strlit("isize");
    reveal_strlit("u16");
    reveal_strlit("u32");
    reveal_strlit("u64");
    reveal_strlit("u8");
    reveal_strlit("usize");
    assert(("String"@).len() != ("i8"@).len());
    assert(("String"@).len() != ("u8"@).len());
    assert(("String"@).len() != ("i16"@).len());
    assert(("String"@).len() != ("u16"@).len());
    assert(("String"@).len() != ("i32"@).len());
    assert(("String"@).len() != ("u32"@).len());
    assert(("String"@).len() != ("i64"@).len());
    assert(("String"@).len() != ("u64"@).len());
    assert(("String"@).len() != ("isize"@).len());
    assert(("String"@).len() != ("usize"@).len());
    assert(("String"@).len() != ("f32"@).len());
    assert(("String"@).len() != ("f64"@).len());
    assert(default_of("String"@) == "String::new()"@);
}

proof fn dflt_str_ty()
    ensures
        default_of("&str"@) == "\"\""@,
{
    reveal_strlit("&str");
    reveal_strlit("String");
    reveal_strlit("\"\"");
    reveal_strlit("f32");
    reveal_strlit("f64");
    reveal_strlit("i16");
    reveal_strlit("i32");
    reveal_strlit("i64");
    reveal_strlit("i8");
    reveal_strlit("isize");
    reveal_strlit("u16");
    reveal_strlit("u32");
    reveal_strlit("u64");
    reveal_strlit("u8");
    reveal_strlit("usize");
    assert(("&str"@).len() != ("i8"@).len());
    assert(("&str"@).len() != ("u8"@).len());
    assert(("&str"@).len() != ("i16"@).len());
    assert(("&str"@).len() != ("u16"@).len());
    assert(("&str"@).len() != ("i32"@).len());
    assert(("&str"@).len() != ("u32"@).len());
    assert(("&str"@).len() != ("i64"@).len());
    assert(("&str"@).len() != ("u64"@).len());
    assert(("&str"@).len() != ("isize"@).len());
    assert(("&str"@).len() != ("usize"@).len());
    assert(("&str"@).len() != ("f32"@).len());
    assert(("&str"@).len() != ("f64"@).len());
    assert(("&str"@).len() != ("String"@).len());
    assert(default_of("&str"@) == "\"\""@);
}

proof fn dflt_bool()
    ensures
        default_of("bool"@) == "false"@,
{
    reveal_strlit("&str");
    reveal_strlit("String");
    reveal_strlit("bool");
    reveal_strlit("f32");
    reveal_strlit("f64");
    reveal_strlit("false");
    reveal_strlit("i16");
    reveal_strlit("i32");
    reveal_strlit("i64");
    reveal_strlit("i8");
    reveal_strlit("isize");
    reveal_strlit("u16");
    reveal_strlit("u32");
    reveal_strlit("u64");
    reveal_strlit("u8");
    reveal_strlit("usize");
    assert(("bool"@).len() != ("i8"@).len());
    assert(("bool"@).len() != ("u8"@).len());
    assert(("bool"@).len() != ("i16"@).len());
    assert(("bool"@).len() != ("u16"@).len());
    assert(("bool"@).len() != ("i32"@).len());
    assert(("bool"@).len() != ("u32"@).len());
    assert(("bool"@).len() != ("i64"@).len());
    assert(("bool"@).len() != ("u64"@).len());
    assert(("bool"@).len() != ("isize"@).len());
    assert(("bool"@).len() != ("usize"@).len());
    assert(("bool"@).len() != ("f32"@).len());
    assert(("bool"@).len() != ("f64"@).len());
    assert(("bool"@).len() != ("String"@).len());
    assert(("bool"@)[0] != ("&str"@)[0]);
    assert(default_of("bool"@) == "false"@);
}

proof fn dflt_char()
    ensures
        default_of("char"@) == "'\\0'"@,
{
    reveal_strlit("&str");
    reveal_strlit("'\\0'");
    reveal_strlit("String");
    reveal_strlit("bool");
    reveal_strlit("char");
    reveal_strlit("f32");
    reveal_strlit("f64");
    reveal_strlit("i16");
    reveal_strlit("i32");
    reveal_strlit("i64");
    reveal_strlit("i8");
    reveal_strlit("isize");
    reveal_strlit("u16");
    reveal_strlit("u32");
    reveal_strlit("u64");
    reveal_strlit("u8");
    reveal_strlit("usize");
    assert(("char"@).len() != ("i8"@).len());
    assert(("char"@).len() != ("u8"@).len());
    assert(("char"@).len() != ("i16"@).len());
    assert(("char"@).len() != ("u16"@).len());
    assert(("char"@).len() != ("i32"@).len());
    assert(("char"@).len() != ("u32"@).len());
    assert(("char"@).len() != ("i64"@).len());
    assert(("char"@).len() != ("u64"@).len());
    assert(("char"@).len() != ("isize"@).len());
    assert(("char"@).len() != ("usize"@).len());
    assert(("char"@).len() != ("f32"@).len());
    assert(("char"@).len() != ("f64"@).len());
    assert(("char"@).len() != ("String"@).len());
    assert(("char"@)[0] != ("&str"@)[0]);
    assert(("char"@)[0] != ("bool"@)[0]);
    assert(default_of("char"@) == "'\\0'"@);
}

proof fn dflt_unit()
    ensures
        default_of("()"@) == "()"@,
{
    reveal_strlit("&str");
    reveal_strlit("()");
    reveal_strlit("String");
    reveal_strlit("bool");
    reveal_strlit("char");
    reveal_strlit("f32");
    reveal_strlit("f64");
    reveal_strlit("i16");
    reveal_strlit("i32");
    reveal_strlit("i64");
    reveal_strlit("i8");
    reveal_strlit("isize");
    reveal_strlit("u16");
    reveal_strlit("u32");
    reveal_strlit("u64");
    reveal_strlit("u8");
    reveal_strlit("usize");
    assert(("()"@)[0] != ("i8"@)[0]);
    assert(("()"@)[0] != ("u8"@)[0]);
    assert(("()"@).len() != ("i16"@).len());
    assert(("()"@).len() != ("u16"@).len());
    assert(("()"@).len() != ("i32"@).len());
    assert(("()"@).len() != ("u32"@).len());
    assert(("()"@).len() != ("i64"@).len());
    assert(("()"@).len() != ("u64"@).len());
    assert(("()"@).len() != ("isize"@).len());
    assert(("()"@).len() != ("usize"@).len());
    assert(("()"@).len() != ("f32"@).len());
    assert(("()"@).len() != ("f64"@).len());
    assert(("()"@).len() != ("String"@).len());
    assert(("()"@).len() != ("&str"@).len());
    assert(("()"@).len() != ("bool"@).len());
    assert(("()"@).len() != ("char"@).len());
    assert(default_of("()"@) == "()"@);
}

proof fn dflt_custom()
    ensures
        default_of("WitAddress"@) == "WitAddress::default()"@,
{
    reveal_strlit("&str");
    reveal_strlit("(");
    reveal_strlit("()");
    reveal_strlit("HashMap<");
    reveal_strlit("Option<");
    reveal_strlit("Result<");
    reveal_strlit("String");
    reveal_strlit("Vec<");
    reveal_strlit("WitAddress");
    reveal_strlit("WitAddress::default()");
    reveal_strlit("bool");
    reveal_strlit("char");
    reveal_strlit("f32");
    reveal_strlit("f64");
    reveal_strlit("i16");
    reveal_strlit("i32");
    reveal_strlit("i64");
    reveal_strlit("i8");
    reveal_strlit("isize");
    reveal_strlit("u16");
    reveal_strlit("u32");
    reveal_strlit("u64");
    reveal_strlit("u8");
    reveal_strlit("usize");
    assert(("WitAddress"@).len() != ("i8"@).len());
    assert(("WitAddress"@).len() != ("u8"@).len());
    assert(("WitAddress"@).len() != ("i16"@).len());
    assert(("WitAddress"@).len() != ("u16"@).len());
    assert(("WitAddress"@).len() != ("i32"@).len());
    assert(("WitAddress"@).len() != ("u32"@).len());
    assert(("WitAddress"@).len() != ("i64"@).len());
    assert(("WitAddress"@).len() != ("u64"@).len());
    assert(("WitAddress"@).len() != ("isize"@).len());
    assert(("WitAddress"@).len() != ("usize"@).len());
    assert(("WitAddress"@).len() != ("f32"@).len());
    assert(("WitAddress"@).len() != ("f64"@).len());
    assert(("WitAddress"@).len() != ("String"@).len());
    assert(("WitAddress"@).len() != ("&str"@).len());
    assert(("WitAddress"@).len() != ("bool"@).len());
    assert(("WitAddress"@).len() != ("char"@).len());
    assert(("WitAddress"@).len() != ("()"@).len());
    let t = "WitAddress"@;
    lemma_not_prefix_char0("Vec<"@, t);
    lemma_not_prefix_char0("Option<"@, t);
    lemma_not_prefix_char0("Result<"@, t);
    lemma_not_prefix_char0("HashMap<"@, t);
    lemma_not_prefix_char0("("@, t);
    reveal_strlit("::default()");
    assert(default_of(t) =~= t + "::default()"@);
    assert(t + "::default()"@ =~= "WitAddress::default()"@);
}

/// Law: every mapped primitive type has the fixed default-value
/// expression of its kind — zero for the numbers, empty constructors
/// for the strings, and the literal defaults for the rest.
pub proof fn lemma_primitive_defaults()
    ensures
        default_of("i8"@) == "0"@,
        default_of("u8"@) == "0"@,
        default_of("i16"@) == "0"@,
        default_of("u16"@) == "0"@,
        default_of("i32"@) == "0"@,
        default_of("u32"@) == "0"@,
        default_of("i64"@) == "0"@,
        default_of("u64"@) == "0"@,
        default_of("isize"@) == "0"@,
        default_of("usize"@) == "0"@,
        default_of("f32"@) == "0.0"@,
        default_of("f64"@) == "0.0"@,
        default_of("String"@) == "String::new()"@,
        default_of("&str"@) == "\"\""@,
        default_of("bool"@) == "false"@,
        default_of("char"@) == "'\\0'"@,
        default_of("()"@) == "()"@,
        default_of("WitAddress"@) == "WitAddress::default()"@,
{
    dflt_i8();
    dflt_u8();
    dflt_i16();
    dflt_u16();
    dflt_i32();
    dflt_u32();
    dflt_i64();
    dflt_u64();
    dflt_isize();
    dflt_usize();
    dflt_f32();
    dflt_f64();
    dflt_string_ty();
    dflt_str_ty();
    dflt_bool();
    dflt_char();
    dflt_unit();
    dflt_custom();
}


/// No default-table entry begins with the character this mapped
/// container type begins with.
proof fn lemma_dflt_entries_excluded(t: Seq<char>)
    requires
        t.len() >= 1,
        t[0] == 'V' || t[0] == 'O' || t[0] == 'R' || t[0] == 'H',
    ensures
        t != "i8"@ && t != "u8"@ && t != "i16"@ && t != "u16"@ && t != "i32"@ && t != "u32"@
            && t != "i64"@ && t != "u64"@ && t != "isize"@ && t != "usize"@ && t != "f32"@
            && t != "f64"@ && t != "String"@ && t != "&str"@ && t != "bool"@ && t != "char"@
            && t != "()"@,
{
    reveal_strlit("i8");
    reveal_strlit("u8");
    reveal_strlit("i16");
    reveal_strlit("u16");
    reveal_strlit("i32");
    reveal_strlit("u32");
    reveal_strlit("i64");
    reveal_strlit("u64");
    reveal_strlit("isize");
    reveal_strlit("usize");
    reveal_strlit("f32");
    reveal_strlit("f64");
    reveal_strlit("String");
    reveal_strlit("&str");
    reveal_strlit("bool");
    reveal_strlit("char");
    reveal_strlit("()");
}

/// Law: a mapped sequence type defaults to the empty sequence
/// constructor, whatever its element type.
pub proof fn lemma_default_vec(x: Seq<char>)
    ensures
        default_of("Vec<"@ + x) == "Vec::new()"@,
{
    reveal_strlit("Vec<");
    let t = "Vec<"@ + x;
    assert(t[0] == 'V');
    lemma_dflt_entries_excluded(t);
    assert(("Vec<"@).is_prefix_of(t)) by {
        assert(t.subrange(0, 4) =~= "Vec<"@);
    }
}

/// Law: a mapped optional type defaults to the absent value, whatever
/// its inner type.
pub proof fn lemma_default_option(x: Seq<char>)
    ensures
        default_of("Option<"@ + x) == "None"@,
{
    reveal_strlit("Vec<");
    reveal_strlit("Option<");
    let t = "Option<"@ + x;
    assert(t[0] == 'O');
    lemma_dflt_entries_excluded(t);
    lemma_not_prefix_char0("Vec<"@, t);
    assert(("Option<"@).is_prefix_of(t)) by {
        assert(t.subrange(0, 7) =~= "Option<"@);
    }
}

/// Law: a mapped associative-container type defaults to the empty
/// container constructor, whatever its key and value types.
pub proof fn lemma_default_hashmap(x: Seq<char>)
    ensures
        default_of("HashMap<"@ + x) == "HashMap::new()"@,
{
    reveal_strlit("Vec<");
    reveal_strlit("Option<");
    reveal_strlit("Result<");
    reveal_strlit("HashMap<");
    reveal_strlit(",");
    let t = "HashMap<"@ + x;
    assert(t[0] == 'H');
    lemma_dflt_entries_excluded(t);
    lemma_not_prefix_char0("Vec<"@, t);
    lemma_not_prefix_char0("Option<"@, t);
    lemma_not_prefix_char0("Result<"@, t);
    assert(("HashMap<"@).is_prefix_of(t)) by {
        assert(t.subrange(0, 8) =~= "HashMap<"@);
    }
}

/// Law: a mapped result type defaults to a success wrapping the
/// success type's own default; the success type here carries no
/// comma.
pub proof fn lemma_default_result(a: Seq<char>, b: Seq<char>)
    requires
        forall|i: int| 0 <= i < a.len() ==> a[i] != ',',
    ensures
        default_of("Result<"@ + a + ", "@ + b) == "Ok("@ + default_of(a) + ")"@,
{
    reveal_strlit("Vec<");
    reveal_strlit("Option<");
    reveal_strlit("Result<");
    reveal_strlit(", ");
    let t = "Result<"@ + a + ", "@ + b;
    assert(t[0] == 'R');
    lemma_dflt_entries_excluded(t);
    lemma_not_prefix_char0("Vec<"@, t);
    lemma_not_prefix_char0("Option<"@, t);
    assert(("Result<"@).is_prefix_of(t)) by {
        assert(t.subrange(0, 7) =~= "Result<"@);
    }
    let j = 7 + a.len() as int;
    assert(seq![','].is_prefix_of(t.skip(j))) by {
        assert(t.skip(j)[0] == ',');
        assert(t.skip(j).subrange(0, 1) =~= seq![',']);
    }
    assert forall|k: int| 0 <= k < j implies !seq![','].is_prefix_of(t.skip(k)) by {
        assert(t.skip(k)[0] == t[k]);
        assert(t[k] != ',');
        lemma_not_prefix_char0(seq![','], t.skip(k));
    }
    lemma_find_at(t, seq![','], 0, j);
    assert(t.subrange(7, j) =~= a);
}

/// Stripping the outer parentheses of a two-element tuple leaves the
/// element list, when the elements do not themselves begin or end
/// with one.
proof fn lemma_strip_tuple_parens(a: Seq<char>, b: Seq<char>)
    requires
        a.len() > 0,
        b.len() > 0,
        a[0] != '(',
        b[b.len() - 1] != ')',
    ensures
        crate::strutil::strip_suffix_all_spec(
            crate::strutil::strip_prefix_all_spec("("@ + a + ", "@ + b + ")"@, seq!['(']),
            seq![')'],
        ) == a + ", "@ + b,
{
    reveal_strlit("(");
    reveal_strlit(")");
    reveal_strlit(", ");
    let t = "("@ + a + ", "@ + b + ")"@;
    assert(seq!['('].is_prefix_of(t)) by {
        assert(t[0] == '(');
        assert(t.subrange(0, 1) =~= seq!['(']);
    }
    let t1 = t.skip(1);
    assert(t1 =~= a + ", "@ + b + ")"@);
    assert(t1[0] == a[0]);
    lemma_not_prefix_char0(seq!['('], t1);
    assert(crate::strutil::strip_prefix_all_spec(t1, seq!['(']) == t1);
    assert(crate::strutil::strip_prefix_all_spec(t, seq!['(']) == t1);
    assert(seq![')'].is_suffix_of(t1)) by {
        assert(t1[t1.len() - 1] == ')');
        assert(t1.subrange(t1.len() - 1, t1.len() as int) =~= seq![')']);
    }
    let t2 = t1.take(t1.len() - 1);
    assert(t2 =~= a + ", "@ + b);
    assert(!seq![')'].is_suffix_of(t2)) by {
        assert(t2[t2.len() - 1] == b[b.len() - 1]);
        if seq![')'].is_suffix_of(t2) {
            assert(t2.subrange(t2.len() - 1, t2.len() as int)[0] == t2[t2.len() - 1]);
        }
    }
    assert(crate::strutil::strip_suffix_all_spec(t1, seq![')']) == crate::strutil::strip_suffix_all_spec(
        t2,
        seq![')'],
    ));
}

/// The elementwise defaults of a two-element list whose elements
/// carry no comma.
proof fn lemma_default_elems_two(a: Seq<char>, b: Seq<char>)
    requires
        forall|i: int| 0 <= i < a.len() ==> a[i] != ',',
        forall|i: int| 0 <= i < b.len() ==> b[i] != ',',
    ensures
        crate::typemap::default_tuple_elems(a + ", "@ + b) == default_of(a) + ", "@ + default_of(
            b,
        ),
{
    reveal_strlit(", ");
    let t2 = a + ", "@ + b;
    let j = a.len() as int;
    let sep = seq![',', ' '];
    assert(sep.is_prefix_of(t2.skip(j))) by {
        assert(t2.skip(j)[0] == ',');
        assert(t2.skip(j)[1] == ' ');
        assert(t2.skip(j).subrange(0, 2) =~= sep);
    }
    assert forall|k: int| 0 <= k < j implies !sep.is_prefix_of(t2.skip(k)) by {
        assert(t2.skip(k)[0] == a[k]);
        lemma_not_prefix_char0(sep, t2.skip(k));
    }
    lemma_find_at(t2, sep, 0, j);
    assert(t2.take(j) =~= a);
    assert(t2.skip(j + 2) =~= b);
    assert(crate::typemap::default_tuple_elems(b) == default_of(b)) by {
        assert forall|k: int| 0 <= k && k + 2 <= b.len() implies !sep.is_prefix_of(
            b.skip(k),
        ) by {
            assert(b.skip(k)[0] == b[k]);
            lemma_not_prefix_char0(sep, b.skip(k));
        }
        lemma_find_none_from(b, sep, 0);
    }
}

/// Law: a mapped tuple type defaults elementwise; the two elements
/// here carry no comma, the first does not open with a parenthesis
/// and the second does not close with one.
pub proof fn lemma_default_tuple(a: Seq<char>, b: Seq<char>)
    requires
        forall|i: int| 0 <= i < a.len() ==> a[i] != ',',
        forall|i: int| 0 <= i < b.len() ==> b[i] != ',',
        a.len() > 0,
        b.len() > 0,
        a[0] != '(',
        b[b.len() - 1] != ')',
    ensures
        default_of("("@ + a + ", "@ + b + ")"@) == "("@ + default_of(a) + ", "@ + default_of(b)
            + ")"@,
{
    reveal_strlit("Vec<");
    reveal_strlit("Option<");
    reveal_strlit("Result<");
    reveal_strlit("HashMap<");
    reveal_strlit("(");
    reveal_strlit(")");
    reveal_strlit(", ");
    let t = "("@ + a + ", "@ + b + ")"@;
    assert(t.len() == 4 + a.len() + b.len());
    assert(t[0] == '(');
    lemma_dflt_entries_excluded_paren(t);
    lemma_not_prefix_char0("Vec<"@, t);
    lemma_not_prefix_char0("Option<"@, t);
    lemma_not_prefix_char0("Result<"@, t);
    lemma_not_prefix_char0("HashMap<"@, t);
    assert(("("@).is_prefix_of(t)) by {
        assert(t.subrange(0, 1) =~= "("@);
    }
    lemma_strip_tuple_parens(a, b);
    lemma_default_elems_two(a, b);
    assert("("@ + crate::typemap::default_tuple_elems(a + ", "@ + b) + ")"@ =~= "("@
        + default_of(a) + ", "@ + default_of(b) + ")"@);
}

/// No default-table entry is this tuple expression: it opens with a
/// parenthesis and is longer than the unit type.
proof fn lemma_dflt_entries_excluded_paren(t: Seq<char>)
    requires
        t.len() >= 3,
        t[0] == '(',
    ensures
        t != "i8"@ && t != "u8"@ && t != "i16"@ && t != "u16"@ && t != "i32"@ && t != "u32"@
            && t != "i64"@ && t != "u64"@ && t != "isize"@ && t != "usize"@ && t != "f32"@
            && t != "f64"@ && t != "String"@ && t != "&str"@ && t != "bool"@ && t != "char"@
            && t != "()"@,
{
    reveal_strlit("i8");
    reveal_strlit("u8");
    reveal_strlit("i16");
    reveal_strlit("u16");
    reveal_strlit("i32");
    reveal_strlit("u32");
    reveal_strlit("i64");
    reveal_strlit("u64");
    reveal_strlit("isize");
    reveal_strlit("usize");
    reveal_strlit("f32");
    reveal_strlit("f64");
    reveal_strlit("String");
    reveal_strlit("&str");
    reveal_strlit("bool");
    reveal_strlit("char");
    reveal_strlit("()");
}

/// Law: mapping a primitive type and taking its default composes to
/// the fixed default of its kind — every default is a well-formed
/// expression of the mapped type.
pub proof fn lemma_primitive_map_defaults()
    ensures
        default_of(rust_type_of("s8"@)) == "0"@,
        default_of(rust_type_of("u8"@)) == "0"@,
        default_of(rust_type_of("s16"@)) == "0"@,
        default_of(rust_type_of("u16"@)) == "0"@,
        default_of(rust_type_of("s32"@)) == "0"@,
        default_of(rust_type_of("u32"@)) == "0"@,
        default_of(rust_type_of("s64"@)) == "0"@,
        default_of(rust_type_of("u64"@)) == "0"@,
        default_of(rust_type_of("usize"@)) == "0"@,
        default_of(rust_type_of("isize"@)) == "0"@,
        default_of(rust_type_of("f32"@)) == "0.0"@,
        default_of(rust_type_of("f64"@)) == "0.0"@,
        default_of(rust_type_of("string"@)) == "String::new()"@,
        default_of(rust_type_of("str"@)) == "\"\""@,
        default_of(rust_type_of("char"@)) == "'\\0'"@,
        default_of(rust_type_of("bool"@)) == "false"@,
        default_of(rust_type_of("unit"@)) == "()"@,
        default_of(rust_type_of("address"@)) == "WitAddress::default()"@,
        default_of(rust_type_of("i8"@)) == "0"@,
        default_of(rust_type_of("i16"@)) == "0"@,
        default_of(rust_type_of("i32"@)) == "0"@,
        default_of(rust_type_of("i64"@)) == "0"@,
{
    lemma_primitive_table();
    lemma_primitive_defaults();
}

/// Law: the request payload takes exactly one of three shapes by the
/// number of ordinary parameters — an empty object for none, the bare
/// value for one, a tuple of the values in order for more.
pub proof fn lemma_payload_shape(pascal: Seq<char>, names: Seq<Seq<char>>)
    ensures
        names.len() == 0 ==> payload_of(pascal, names) == "json!({\""@ + pascal
            + "\" : {}})"@,
        names.len() == 1 ==> payload_of(pascal, names) == "json!({\""@ + pascal + "\": "@
            + names[0] + "})"@,
        names.len() >= 2 ==> payload_of(pascal, names) == "json!({\""@ + pascal + "\": ("@
            + join_sep(names, ", "@) + ")})"@,
{
}

/// Law: world resolution prefers the prefixed candidate, then the
/// promoted plain candidate when its prefixed file exists, then the
/// plain candidate with the fallback mark, and fails only when no
/// candidate exists at all.
pub proof fn lemma_world_resolution(files: Seq<FileView>)
    ensures
        match classify_worlds(files).1 {
            Some(t) => resolved_world_of(files) == Some((t, false)),
            None => match classify_worlds(files).0 {
                Some(r) => if exists_file(files, "types-"@ + r + ".wit"@) {
                    resolved_world_of(files) == Some(("types-"@ + r, false))
                } else {
                    resolved_world_of(files) == Some((r, true))
                },
                None => resolved_world_of(files) is None,
            },
        },
{
}

/// No line feed anywhere in the text.
pub open spec fn no_nl(s: Seq<char>) -> bool {
    forall|i: int| 0 <= i < s.len() ==> s[i] != '\n'
}

/// Every line feed is directly followed by the comment opener.
pub open spec fn nl_commented(s: Seq<char>) -> bool {
    forall|i: int|
        0 <= i < s.len() && #[trigger] s[i] == '\n' ==> i + 2 < s.len() && s[i + 1] == '/'
            && s[i + 2] == '/'
}

/// Inert text: it opens with the comment opener and every one of its
/// lines does too.
pub open spec fn commented_out(s: Seq<char>) -> bool {
    s.len() >= 2 && s[0] == '/' && s[1] == '/' && nl_commented(s)
}


/// Only ASCII characters in the text.
pub open spec fn ascii_only(s: Seq<char>) -> bool {
    forall|i: int| 0 <= i < s.len() ==> (#[trigger] s[i] as u32) < 128
}

/// A field whose name and type carry no line feed and only ASCII
/// characters, as every field read from one source line does.
pub open spec fn clean_field(f: SigFieldView) -> bool {
    no_nl(f.name) && ascii_only(f.name) && no_nl(f.wit_type) && ascii_only(f.wit_type)
}

/// Concatenation keeps text free of line feeds.
pub proof fn lemma_no_nl_concat(a: Seq<char>, b: Seq<char>)
    requires
        no_nl(a),
        no_nl(b),
    ensures
        no_nl(a + b),
{
    assert forall|i: int| 0 <= i < (a + b).len() implies (a + b)[i] != '\n' by {
        if i < a.len() {
            assert((a + b)[i] == a[i]);
        } else {
            assert((a + b)[i] == b[i - a.len()]);
        }
    }
}

/// Concatenation keeps every line feed commented.
pub proof fn lemma_nl_commented_concat(a: Seq<char>, b: Seq<char>)
    requires
        nl_commented(a),
        nl_commented(b),
    ensures
        nl_commented(a + b),
{
    assert forall|i: int|
        0 <= i < (a + b).len() && #[trigger] (a + b)[i] == '\n' implies i + 2 < (a + b).len()
            && (a + b)[i + 1] == '/' && (a + b)[i + 2] == '/' by {
        if i < a.len() {
            assert((a + b)[i] == a[i]);
            assert(a[i + 1] == (a + b)[i + 1]);
            assert(a[i + 2] == (a + b)[i + 2]);
        } else {
            assert((a + b)[i] == b[i - a.len()]);
            assert((a + b)[i + 1] == b[i - a.len() + 1]);
            assert((a + b)[i + 2] == b[i - a.len() + 2]);
        }
    }
}

/// Text without line feeds is trivially commented.
pub proof fn lemma_no_nl_commented(a: Seq<char>)
    requires
        no_nl(a),
    ensures
        nl_commented(a),
{
}

/// Snake-casing keeps text free of line feeds.
pub proof fn lemma_snake_no_nl(s: Seq<char>)
    requires
        no_nl(s),
    ensures
        no_nl(snake_of(s)),
{
    assert forall|i: int| 0 <= i < snake_of(s).len() implies snake_of(s)[i] != '\n' by {
        assert(s[i] != '\n');
    }
}

/// Pascal-casing keeps ASCII text free of line feeds.
pub proof fn lemma_pascal_no_nl(s: Seq<char>, at_start: bool)
    requires
        no_nl(s),
        ascii_only(s),
    ensures
        no_nl(pascal_rec(s, at_start)),
    decreases s.len(),
{
    if s.len() != 0 {
        assert(no_nl(s.drop_first())) by {
            assert forall|i: int|
                0 <= i < s.drop_first().len() implies s.drop_first()[i] != '\n' by {
                assert(s.drop_first()[i] == s[i + 1]);
            }
        }
        assert(ascii_only(s.drop_first())) by {
            assert forall|i: int|
                0 <= i < s.drop_first().len() implies (s.drop_first()[i] as u32) < 128 by {
                assert(s.drop_first()[i] == s[i + 1]);
            }
        }
        if s[0] == '-' {
            lemma_pascal_no_nl(s.drop_first(), true);
        } else {
            lemma_pascal_no_nl(s.drop_first(), false);
            if at_start {
                assert(s[0] != '\n');
                assert((s[0] as u32) < 128);
                assert(crate::casing::upper_char(s[0]) != '\n');
                lemma_no_nl_concat(seq![crate::casing::upper_char(s[0])], pascal_rec(
                    s.drop_first(),
                    false,
                ));
            } else {
                lemma_no_nl_concat(seq![s[0]], pascal_rec(s.drop_first(), false));
            }
        }
    }
}

/// Trimming keeps text free of line feeds.
pub proof fn lemma_trim_clean(s: Seq<char>)
    requires
        no_nl(s),
        ascii_only(s),
    ensures
        no_nl(crate::strutil::trim_spec(s)),
        ascii_only(crate::strutil::trim_spec(s)),
{
    crate::strutil::lemma_first_non_ws_bounds(s, 0);
    crate::strutil::lemma_last_non_ws_end_bounds(s, s.len() as int);
}

/// Stripping a prefix repeatedly keeps text free of line feeds.
pub proof fn lemma_strip_prefix_no_nl(s: Seq<char>, p: Seq<char>)
    requires
        no_nl(s),
    ensures
        no_nl(strip_prefix_all_spec(s, p)),
    decreases s.len(),
{
    if p.len() > 0 && p.is_prefix_of(s) {
        assert(no_nl(s.skip(p.len() as int))) by {
            assert forall|i: int|
                0 <= i < s.skip(p.len() as int).len() implies s.skip(p.len() as int)[i]
                    != '\n' by {
                assert(s.skip(p.len() as int)[i] == s[i + p.len()]);
            }
        }
        lemma_strip_prefix_no_nl(s.skip(p.len() as int), p);
    }
}

/// Stripping a suffix repeatedly keeps text free of line feeds.
pub proof fn lemma_strip_suffix_no_nl(s: Seq<char>, p: Seq<char>)
    requires
        no_nl(s),
    ensures
        no_nl(strip_suffix_all_spec(s, p)),
    decreases s.len(),
{
    if p.len() > 0 && p.is_suffix_of(s) {
        assert(no_nl(s.take(s.len() - p.len())));
        lemma_strip_suffix_no_nl(s.take(s.len() - p.len()), p);
    }
}

/// The mapped type of line-feed-free ASCII text is line-feed-free.
pub proof fn lemma_rust_type_no_nl(t: Seq<char>)
    requires
        no_nl(t),
        ascii_only(t),
    ensures
        no_nl(rust_type_of(t)),
    decreases t.len(), 0int,
{
    lemma_literals_no_nl();
    if ("list<"@).is_prefix_of(t) && t.len() > 5 && !table_entry(t) {
        lemma_subrange_clean(t, 5, t.len() - 1);
        lemma_rust_type_no_nl(t.subrange(5, t.len() - 1));
    } else if ("option<"@).is_prefix_of(t) && t.len() > 7 && !table_entry(t) {
        lemma_subrange_clean(t, 7, t.len() - 1);
        lemma_rust_type_no_nl(t.subrange(7, t.len() - 1));
    } else if ("result<"@).is_prefix_of(t) && t.len() > 7 && !table_entry(t) {
        lemma_subrange_clean(t, 7, t.len() - 1);
        let inner = t.subrange(7, t.len() - 1);
        crate::strutil::lemma_find_from_bounds(inner, seq![','], 0);
        match crate::strutil::find_sub(inner, seq![',']) {
            Some(i) => {
                lemma_subrange_clean(inner, 0, i);
                lemma_subrange_clean(inner, i + 1, inner.len() as int);
                lemma_trim_clean(inner.take(i));
                lemma_trim_clean(inner.skip(i + 1));
                crate::strutil::lemma_trim_len(inner.take(i));
                crate::strutil::lemma_trim_len(inner.skip(i + 1));
                lemma_rust_type_no_nl(crate::strutil::trim_spec(inner.take(i)));
                lemma_rust_type_no_nl(crate::strutil::trim_spec(inner.skip(i + 1)));
            },
            None => {
                lemma_rust_type_no_nl(inner);
            },
        }
    } else if ("tuple<"@).is_prefix_of(t) && t.len() > 6 && !table_entry(t) {
        lemma_subrange_clean(t, 6, t.len() - 1);
        lemma_rust_tuple_no_nl(t.subrange(6, t.len() - 1));
    } else if ("map<"@).is_prefix_of(t) && t.len() > 4 && !table_entry(t) {
        lemma_subrange_clean(t, 4, t.len() - 1);
        let inner = t.subrange(4, t.len() - 1);
        crate::strutil::lemma_find_from_bounds(inner, seq![','], 0);
        match crate::strutil::find_sub(inner, seq![',']) {
            Some(i) => {
                lemma_subrange_clean(inner, 0, i);
                lemma_subrange_clean(inner, i + 1, inner.len() as int);
                lemma_trim_clean(inner.take(i));
                lemma_trim_clean(inner.skip(i + 1));
                crate::strutil::lemma_trim_len(inner.take(i));
                crate::strutil::lemma_trim_len(inner.skip(i + 1));
                lemma_rust_type_no_nl(crate::strutil::trim_spec(inner.take(i)));
                lemma_rust_type_no_nl(crate::strutil::trim_spec(inner.skip(i + 1)));
            },
            None => {
                lemma_rust_type_no_nl(inner);
            },
        }
    } else if !table_entry(t) {
        lemma_pascal_no_nl(t, true);
    }
}

/// Whether the expression is one of the primitive table entries.
pub open spec fn table_entry(t: Seq<char>) -> bool {
    t == "s8"@ || t == "u8"@ || t == "s16"@ || t == "u16"@ || t == "s32"@ || t == "u32"@ || t
        == "s64"@ || t == "u64"@ || t == "usize"@ || t == "isize"@ || t == "f32"@ || t == "f64"@
        || t == "string"@ || t == "str"@ || t == "char"@ || t == "bool"@ || t == "unit"@ || t
        == "address"@ || t == "i8"@ || t == "i16"@ || t == "i32"@ || t == "i64"@
}

/// A subrange of line-feed-free ASCII text is line-feed-free ASCII.
pub proof fn lemma_subrange_clean(s: Seq<char>, a: int, b: int)
    requires
        no_nl(s),
        ascii_only(s),
        0 <= a <= b <= s.len(),
    ensures
        no_nl(s.subrange(a, b)),
        ascii_only(s.subrange(a, b)),
{
    assert forall|i: int| 0 <= i < b - a implies s.subrange(a, b)[i] != '\n' && (s.subrange(
        a,
        b,
    )[i] as u32) < 128 by {
        assert(s.subrange(a, b)[i] == s[a + i]);
    }
}

/// The mapped tuple elements of line-feed-free ASCII text are
/// line-feed-free.
pub proof fn lemma_rust_tuple_no_nl(s: Seq<char>)
    requires
        no_nl(s),
        ascii_only(s),
    ensures
        no_nl(rust_tuple_elems(s)),
    decreases s.len(), 1int,
{
    lemma_literals_no_nl();
    crate::strutil::lemma_find_from_bounds(s, seq![',', ' '], 0);
    match crate::strutil::find_sub(s, seq![',', ' ']) {
        Some(i) => {
            lemma_subrange_clean(s, 0, i);
            lemma_subrange_clean(s, i + 2, s.len() as int);
            lemma_rust_type_no_nl(s.take(i));
            lemma_rust_tuple_no_nl(s.skip(i + 2));
        },
        None => {
            lemma_rust_type_no_nl(s);
        },
    }
}

/// The pieces the mapper and the default builder glue in carry no
/// line feed.
proof fn lemma_literals_no_nl()
    ensures
        no_nl("Vec<"@) && no_nl("Option<"@) && no_nl("Result<"@) && no_nl("HashMap<"@)
            && no_nl("HashMap<String, "@) && no_nl(", "@) && no_nl(", ()>"@) && no_nl(">"@)
            && no_nl("("@) && no_nl(")"@) && no_nl("i8"@) && no_nl("u8"@) && no_nl("i16"@)
            && no_nl("u16"@) && no_nl("i32"@) && no_nl("u32"@) && no_nl("i64"@) && no_nl("u64"@)
            && no_nl("usize"@) && no_nl("isize"@) && no_nl("f32"@) && no_nl("f64"@) && no_nl(
            "String"@,
        ) && no_nl("&str"@) && no_nl("char"@) && no_nl("bool"@) && no_nl("()"@) && no_nl(
            "WitAddress"@,
        ) && no_nl("0"@) && no_nl("0.0"@) && no_nl("String::new()"@) && no_nl("\"\""@)
            && no_nl("false"@) && no_nl("'\\0'"@) && no_nl("Vec::new()"@) && no_nl("None"@)
            && no_nl("Ok("@) && no_nl("Ok(())"@) && no_nl("HashMap::new()"@) && no_nl(
            "::default()"@,
        ) && no_nl("&Address"@),
{
    reveal_strlit("Vec<");
    reveal_strlit("Option<");
    reveal_strlit("Result<");
    reveal_strlit("HashMap<");
    reveal_strlit("HashMap<String, ");
    reveal_strlit(", ");
    reveal_strlit(", ()>");
    reveal_strlit(">");
    reveal_strlit("(");
    reveal_strlit(")");
    reveal_strlit("i8");
    reveal_strlit("u8");
    reveal_strlit("i16");
    reveal_strlit("u16");
    reveal_strlit("i32");
    reveal_strlit("u32");
    reveal_strlit("i64");
    reveal_strlit("u64");
    reveal_strlit("usize");
    reveal_strlit("isize");
    reveal_strlit("f32");
    reveal_strlit("f64");
    reveal_strlit("String");
    reveal_strlit("&str");
    reveal_strlit("char");
    reveal_strlit("bool");
    reveal_strlit("()");
    reveal_strlit("WitAddress");
    reveal_strlit("0");
    reveal_strlit("0.0");
    reveal_strlit("String::new()");
    reveal_strlit("\"\"");
    reveal_strlit("false");
    reveal_strlit("'\\0'");
    reveal_strlit("Vec::new()");
    reveal_strlit("None");
    reveal_strlit("Ok(");
    reveal_strlit("Ok(())");
    reveal_strlit("HashMap::new()");
    reveal_strlit("::default()");
    reveal_strlit("&Address");
}

/// The default expression of line-feed-free text is line-feed-free.
pub proof fn lemma_default_no_nl(t: Seq<char>)
    requires
        no_nl(t),
    ensures
        no_nl(default_of(t)),
    decreases t.len(), 0int,
{
    lemma_literals_no_nl();
    if ("Vec<"@).is_prefix_of(t) || ("Option<"@).is_prefix_of(t) {
    } else if ("Result<"@).is_prefix_of(t) && !dflt_entry(t) {
        crate::strutil::lemma_find_from_bounds(t, seq![','], 0);
        match crate::strutil::find_sub(t, seq![',']) {
            Some(i) => {
                if i >= 7 {
                    lemma_subrange_no_nl(t, 7, i);
                    lemma_default_no_nl(t.subrange(7, i));
                }
            },
            None => {},
        }
    } else if ("HashMap<"@).is_prefix_of(t) {
    } else if ("("@).is_prefix_of(t) && !dflt_entry(t) {
        let inner = strip_suffix_all_spec(strip_prefix_all_spec(t, seq!['(']), seq![')']);
        lemma_strip_prefix_no_nl(t, seq!['(']);
        lemma_strip_suffix_no_nl(strip_prefix_all_spec(t, seq!['(']), seq![')']);
        crate::strutil::lemma_strip_prefix_all_len(t, seq!['(']);
        crate::strutil::lemma_strip_suffix_all_len(strip_prefix_all_spec(t, seq!['(']), seq![')']);
        reveal_strlit("(");
        assert(seq!['('].is_prefix_of(t)) by {
            assert(t.subrange(0, 1) =~= seq!['(']);
        }
        assert(strip_prefix_all_spec(t, seq!['(']) == strip_prefix_all_spec(t.skip(1), seq!['(']));
        crate::strutil::lemma_strip_prefix_all_len(t.skip(1), seq!['(']);
        lemma_default_elems_no_nl(inner);
    } else {
    }
}

/// Whether the expression is one of the default table entries.
pub open spec fn dflt_entry(t: Seq<char>) -> bool {
    t == "i8"@ || t == "u8"@ || t == "i16"@ || t == "u16"@ || t == "i32"@ || t == "u32"@ || t
        == "i64"@ || t == "u64"@ || t == "isize"@ || t == "usize"@ || t == "f32"@ || t == "f64"@
        || t == "String"@ || t == "&str"@ || t == "bool"@ || t == "char"@ || t == "()"@
}

/// A subrange of line-feed-free text is line-feed-free.
pub proof fn lemma_subrange_no_nl(s: Seq<char>, a: int, b: int)
    requires
        no_nl(s),
        0 <= a <= b <= s.len(),
    ensures
        no_nl(s.subrange(a, b)),
{
    assert forall|i: int| 0 <= i < b - a implies s.subrange(a, b)[i] != '\n' by {
        assert(s.subrange(a, b)[i] == s[a + i]);
    }
}

/// The elementwise defaults of line-feed-free text are line-feed-free.
pub proof fn lemma_default_elems_no_nl(s: Seq<char>)
    requires
        no_nl(s),
    ensures
        no_nl(default_tuple_elems(s)),
    decreases s.len(), 1int,
{
    lemma_literals_no_nl();
    crate::strutil::lemma_find_from_bounds(s, seq![',', ' '], 0);
    match crate::strutil::find_sub(s, seq![',', ' ']) {
        Some(i) => {
            lemma_subrange_no_nl(s, 0, i);
            lemma_subrange_no_nl(s, i + 2, s.len() as int);
            lemma_default_no_nl(s.take(i));
            lemma_default_elems_no_nl(s.skip(i + 2));
        },
        None => {
            lemma_default_no_nl(s);
        },
    }
}

/// The mapped return type of clean fields is line-feed-free.
pub proof fn lemma_return_type_no_nl(fields: Seq<SigFieldView>)
    requires
        forall|k: int| 0 <= k < fields.len() ==> clean_field(#[trigger] fields[k]),
    ensures
        no_nl(return_type_of(fields)),
    decreases fields.len(),
{
    lemma_literals_no_nl();
    if fields.len() == 0 {
    } else if fields.last().name == "returning"@ {
        lemma_rust_type_no_nl(fields.last().wit_type);
    } else {
        assert forall|k: int|
            0 <= k < fields.drop_last().len() implies clean_field(
            #[trigger] fields.drop_last()[k]) by {
            assert(fields.drop_last()[k] == fields[k]);
        }
        lemma_return_type_no_nl(fields.drop_last());
    }
}

/// The routing parameter's type is one of two fixed pieces or empty.
pub proof fn lemma_target_param_no_nl(fields: Seq<SigFieldView>)
    ensures
        no_nl(target_param_of(fields)),
    decreases fields.len(),
{
    lemma_literals_no_nl();
    if fields.len() == 0 {
    } else if fields.last().name == "target"@ {
    } else {
        lemma_target_param_no_nl(fields.drop_last());
    }
}

/// Joining line-feed-free pieces with a line-feed-free separator
/// yields line-feed-free text.
pub proof fn lemma_join_no_nl(parts: Seq<Seq<char>>, sep: Seq<char>)
    requires
        forall|k: int| 0 <= k < parts.len() ==> no_nl(#[trigger] parts[k]),
        no_nl(sep),
    ensures
        no_nl(join_sep(parts, sep)),
    decreases parts.len(),
{
    if parts.len() <= 1 {
    } else {
        assert forall|k: int|
            0 <= k < parts.drop_first().len() implies no_nl(#[trigger] parts.drop_first()[k]) by {
            assert(parts.drop_first()[k] == parts[k + 1]);
        }
        lemma_join_no_nl(parts.drop_first(), sep);
        lemma_no_nl_concat(parts[0], sep);
        lemma_no_nl_concat(parts[0] + sep, join_sep(parts.drop_first(), sep));
    }
}

/// The unused-marked parameter list of clean fields is
/// line-feed-free.
pub proof fn lemma_http_params_no_nl(fields: Seq<SigFieldView>)
    requires
        forall|k: int| 0 <= k < fields.len() ==> clean_field(#[trigger] fields[k]),
    ensures
        no_nl(http_params_of(fields)),
{
    lemma_literals_no_nl();
    reveal_strlit("_");
    reveal_strlit(":  ");
    reveal_strlit("_target: ");
    lemma_non_control_clean(fields);
    let ups = non_control_fields(fields).map_values(|f: SigFieldView| underscore_decl(f));
    assert forall|k: int| 0 <= k < ups.len() implies no_nl(#[trigger] ups[k]) by {
        let f = non_control_fields(fields)[k];
        assert(clean_field(f));
        lemma_snake_no_nl(f.name);
        lemma_rust_type_no_nl(f.wit_type);
        lemma_no_nl_concat("_"@, snake_of(f.name));
        lemma_no_nl_concat("_"@ + snake_of(f.name), ":  "@);
        lemma_no_nl_concat("_"@ + snake_of(f.name) + ":  "@, rust_type_of(f.wit_type));
        assert(ups[k] == underscore_decl(f));
    }
    lemma_join_no_nl(ups, ", "@);
    lemma_target_param_no_nl(fields);
    let tp = target_param_of(fields);
    if tp.len() == 0 {
    } else if non_control_fields(fields).len() == 0 {
        lemma_no_nl_concat("_target: "@, tp);
        assert(no_nl("_target: "@)) by {
            reveal_strlit("_target: ");
        }
    } else {
        lemma_no_nl_concat("_target: "@, tp);
        lemma_no_nl_concat("_target: "@ + tp, ", "@);
        lemma_no_nl_concat("_target: "@ + tp + ", "@, join_sep(ups, ", "@));
    }
}

/// Every field the parameter filter keeps comes from the field list.
pub proof fn lemma_non_control_clean(fields: Seq<SigFieldView>)
    requires
        forall|k: int| 0 <= k < fields.len() ==> clean_field(#[trigger] fields[k]),
    ensures
        forall|k: int|
            0 <= k < non_control_fields(fields).len() ==> clean_field(
                #[trigger] non_control_fields(fields)[k],
            ),
    decreases fields.len(),
{
    if fields.len() != 0 {
        assert forall|k: int|
            0 <= k < fields.drop_last().len() implies clean_field(
            #[trigger] fields.drop_last()[k]) by {
            assert(fields.drop_last()[k] == fields[k]);
        }
        lemma_non_control_clean(fields.drop_last());
        assert(clean_field(fields.last()));
        let prev = non_control_fields(fields.drop_last());
        let cur = non_control_fields(fields);
        assert forall|k: int| 0 <= k < cur.len() implies clean_field(#[trigger] cur[k]) by {
            if k < prev.len() {
                assert(cur[k] == prev[k]);
            } else {
                assert(cur[k] == fields.last());
            }
        }
    }
}

/// Law: a signature whose call kind is the special transport kind
/// always yields inert output — the emitted text opens with the
/// comment marker and every one of its lines does too, whatever the
/// fields hold.
#[verifier::rlimit(100)]
#[verifier::spinoff_prover]
pub proof fn lemma_http_stub_inert(sig: SigView)
    requires
        sig.attr_type == "http"@,
        no_nl(sig.function_name),
        ascii_only(sig.function_name),
        forall|k: int| 0 <= k < sig.fields.len() ==> clean_field(#[trigger] sig.fields[k]),
    ensures
        commented_out(stub_text_of(sig)),
{
    reveal_strlit("/// Generated stub for `");
    reveal_strlit("` ");
    reveal_strlit("http");
    reveal_strlit(" RPC call\n/// HTTP endpoint - uncomment to implement\n// pub async fn ");
    reveal_strlit("_");
    reveal_strlit("_rpc");
    reveal_strlit("(");
    reveal_strlit(") -> SendResult<");
    reveal_strlit("> {\n//     // TODO: Implement HTTP endpoint\n//     SendResult::Success(");
    reveal_strlit(")\n// }");
    let a0 = "/// Generated stub for `"@;
    let b = " RPC call\n/// HTTP endpoint - uncomment to implement\n// pub async fn "@;
    let c = "> {\n//     // TODO: Implement HTTP endpoint\n//     SendResult::Success("@;
    let d = ")\n// }"@;
    assert(nl_commented(a0));
    assert(nl_commented(b));
    assert(nl_commented(c));
    assert(nl_commented(d));
    lemma_snake_no_nl(sig.function_name);
    assert(no_nl(stub_fn_name(sig))) by {
        lemma_no_nl_concat(snake_of(sig.function_name), "_"@);
        lemma_no_nl_concat(snake_of(sig.function_name) + "_"@, sig.attr_type);
        lemma_no_nl_concat(snake_of(sig.function_name) + "_"@ + sig.attr_type, "_rpc"@);
    }
    lemma_http_params_no_nl(sig.fields);
    lemma_return_type_no_nl(sig.fields);
    lemma_default_no_nl(return_type_of(sig.fields));
    let s1 = a0 + sig.function_name;
    let s2 = s1 + "` "@;
    let s3 = s2 + sig.attr_type;
    let s4 = s3 + b;
    let s5 = s4 + stub_fn_name(sig);
    let s6 = s5 + "("@;
    let s7 = s6 + http_params_of(sig.fields);
    let s8 = s7 + ") -> SendResult<"@;
    let s9 = s8 + return_type_of(sig.fields);
    let s10 = s9 + c;
    let s11 = s10 + default_of(return_type_of(sig.fields));
    let s12 = s11 + d;
    lemma_nl_commented_concat(a0, sig.function_name);
    lemma_nl_commented_concat(s1, "` "@);
    lemma_nl_commented_concat(s2, sig.attr_type);
    lemma_nl_commented_concat(s3, b);
    lemma_nl_commented_concat(s4, stub_fn_name(sig));
    lemma_nl_commented_concat(s5, "("@);
    lemma_nl_commented_concat(s6, http_params_of(sig.fields));
    lemma_nl_commented_concat(s7, ") -> SendResult<"@);
    lemma_nl_commented_concat(s8, return_type_of(sig.fields));
    lemma_nl_commented_concat(s9, c);
    lemma_nl_commented_concat(s10, default_of(return_type_of(sig.fields)));
    lemma_nl_commented_concat(s11, d);
    assert(stub_text_of(sig) == s12);
    assert(s12[0] == '/' && s12[1] == '/') by {
        assert(s1[0] == a0[0] && s1[1] == a0[1]);
        assert(s2[0] == s1[0] && s2[1] == s1[1]);
        assert(s3[0] == s2[0] && s3[1] == s2[1]);
        assert(s4[0] == s3[0] && s4[1] == s3[1]);
        assert(s5[0] == s4[0] && s5[1] == s4[1]);
        assert(s6[0] == s5[0] && s6[1] == s5[1]);
        assert(s7[0] == s6[0] && s7[1] == s6[1]);
        assert(s8[0] == s7[0] && s8[1] == s7[1]);
        assert(s9[0] == s8[0] && s9[1] == s8[1]);
        assert(s10[0] == s9[0] && s10[1] == s9[1]);
        assert(s11[0] == s10[0] && s11[1] == s10[1]);
        assert(s12[0] == s11[0] && s12[1] == s11[1]);
    }
}

proof fn stable_string_ty()
    ensures
        rust_type_of("String"@) == "String"@,
{
    reveal_strlit("s8");
    reveal_strlit("u8");
    reveal_strlit("s16");
    reveal_strlit("u16");
    reveal_strlit("s32");
    reveal_strlit("u32");
    reveal_strlit("s64");
    reveal_strlit("u64");
    reveal_strlit("usize");
    reveal_strlit("isize");
    reveal_strlit("f32");
    reveal_strlit("f64");
    reveal_strlit("string");
    reveal_strlit("str");
    reveal_strlit("char");
    reveal_strlit("bool");
    reveal_strlit("unit");
    reveal_strlit("address");
    reveal_strlit("i8");
    reveal_strlit("i16");
    reveal_strlit("i32");
    reveal_strlit("i64");
    reveal_strlit("String");
    reveal_strlit("list<");
    reveal_strlit("option<");
    reveal_strlit("result<");
    reveal_strlit("tuple<");
    reveal_strlit("map<");
    let t = "String"@;
    assert(t[0] == 'S');
    lemma_not_prefix_char0("list<"@, t);
    lemma_not_prefix_char0("option<"@, t);
    lemma_not_prefix_char0("result<"@, t);
    lemma_not_prefix_char0("tuple<"@, t);
    lemma_not_prefix_char0("map<"@, t);
    assert(rust_type_of(t) == pascal_of(t));
    reveal_with_fuel(pascal_rec, 8);
    assert(pascal_of(t) =~= t);
}

proof fn stable_str_ty()
    ensures
        rust_type_of("&str"@) == "&str"@,
{
    reveal_strlit("s8");
    reveal_strlit("u8");
    reveal_strlit("s16");
    reveal_strlit("u16");
    reveal_strlit("s32");
    reveal_strlit("u32");
    reveal_strlit("s64");
    reveal_strlit("u64");
    reveal_strlit("usize");
    reveal_strlit("isize");
    reveal_strlit("f32");
    reveal_strlit("f64");
    reveal_strlit("string");
    reveal_strlit("str");
    reveal_strlit("char");
    reveal_strlit("bool");
    reveal_strlit("unit");
    reveal_strlit("address");
    reveal_strlit("i8");
    reveal_strlit("i16");
    reveal_strlit("i32");
    reveal_strlit("i64");
    reveal_strlit("&str");
    let t = "&str"@;
    assert(t[0] == '&');
    assert(rust_type_of(t) == pascal_of(t));
    reveal_with_fuel(pascal_rec, 6);
    assert(pascal_of(t) =~= t);
}

proof fn stable_unit_ty()
    ensures
        rust_type_of("()"@) == "()"@,
{
    reveal_strlit("s8");
    reveal_strlit("u8");
    reveal_strlit("s16");
    reveal_strlit("u16");
    reveal_strlit("s32");
    reveal_strlit("u32");
    reveal_strlit("s64");
    reveal_strlit("u64");
    reveal_strlit("usize");
    reveal_strlit("isize");
    reveal_strlit("f32");
    reveal_strlit("f64");
    reveal_strlit("string");
    reveal_strlit("str");
    reveal_strlit("char");
    reveal_strlit("bool");
    reveal_strlit("unit");
    reveal_strlit("address");
    reveal_strlit("i8");
    reveal_strlit("i16");
    reveal_strlit("i32");
    reveal_strlit("i64");
    reveal_strlit("()");
    let t = "()"@;
    assert(t[0] == '(');
    assert(rust_type_of(t) == pascal_of(t));
    reveal_with_fuel(pascal_rec, 4);
    assert(pascal_of(t) =~= t);
}

#[verifier::rlimit(100)]
#[verifier::spinoff_prover]
proof fn stable_address_ty()
    ensures
        rust_type_of("WitAddress"@) == "WitAddress"@,
{
    reveal_strlit("s8");
    reveal_strlit("u8");
    reveal_strlit("s16");
    reveal_strlit("u16");
    reveal_strlit("s32");
    reveal_strlit("u32");
    reveal_strlit("s64");
    reveal_strlit("u64");
    reveal_strlit("usize");
    reveal_strlit("isize");
    reveal_strlit("f32");
    reveal_strlit("f64");
    reveal_strlit("string");
    reveal_strlit("str");
    reveal_strlit("char");
    reveal_strlit("bool");
    reveal_strlit("unit");
    reveal_strlit("address");
    reveal_strlit("i8");
    reveal_strlit("i16");
    reveal_strlit("i32");
    reveal_strlit("i64");
    reveal_strlit("WitAddress");
    reveal_strlit("list<");
    reveal_strlit("option<");
    reveal_strlit("result<");
    reveal_strlit("tuple<");
    reveal_strlit("map<");
    let t = "WitAddress"@;
    assert(t[0] == 'W');
    lemma_not_prefix_char0("list<"@, t);
    lemma_not_prefix_char0("option<"@, t);
    lemma_not_prefix_char0("result<"@, t);
    lemma_not_prefix_char0("tuple<"@, t);
    lemma_not_prefix_char0("map<"@, t);
    assert(rust_type_of(t) == pascal_of(t));
    reveal_with_fuel(pascal_rec, 12);
    assert(pascal_of(t) =~= t);
}

/// Law: the table is stable — mapping the result of a mapped
/// primitive name again returns it unchanged, so no table entry's
/// image is ever reshaped by the custom-type fallback.
pub proof fn lemma_primitive_map_stable()
    ensures
        rust_type_of(rust_type_of("s8"@)) == rust_type_of("s8"@),
        rust_type_of(rust_type_of("u8"@)) == rust_type_of("u8"@),
        rust_type_of(rust_type_of("s16"@)) == rust_type_of("s16"@),
        rust_type_of(rust_type_of("u16"@)) == rust_type_of("u16"@),
        rust_type_of(rust_type_of("s32"@)) == rust_type_of("s32"@),
        rust_type_of(rust_type_of("u32"@)) == rust_type_of("u32"@),
        rust_type_of(rust_type_of("s64"@)) == rust_type_of("s64"@),
        rust_type_of(rust_type_of("u64"@)) == rust_type_of("u64"@),
        rust_type_of(rust_type_of("usize"@)) == rust_type_of("usize"@),
        rust_type_of(rust_type_of("isize"@)) == rust_type_of("isize"@),
        rust_type_of(rust_type_of("f32"@)) == rust_type_of("f32"@),
        rust_type_of(rust_type_of("f64"@)) == rust_type_of("f64"@),
        rust_type_of(rust_type_of("string"@)) == rust_type_of("string"@),
        rust_type_of(rust_type_of("str"@)) == rust_type_of("str"@),
        rust_type_of(rust_type_of("char"@)) == rust_type_of("char"@),
        rust_type_of(rust_type_of("bool"@)) == rust_type_of("bool"@),
        rust_type_of(rust_type_of("unit"@)) == rust_type_of("unit"@),
        rust_type_of(rust_type_of("address"@)) == rust_type_of("address"@),
        rust_type_of(rust_type_of("i8"@)) == rust_type_of("i8"@),
        rust_type_of(rust_type_of("i16"@)) == rust_type_of("i16"@),
        rust_type_of(rust_type_of("i32"@)) == rust_type_of("i32"@),
        rust_type_of(rust_type_of("i64"@)) == rust_type_of("i64"@),
{
    lemma_primitive_table();
    stable_string_ty();
    stable_str_ty();
    stable_unit_ty();
    stable_address_ty();
}

/// Law: the default of a mapped container shape is the empty
/// constructor of the mapped container, whatever inner type the shape
/// was built from.
pub proof fn lemma_shape_defaults(x: Seq<char>)
    ensures
        default_of(rust_type_of("list<"@ + x + ">"@)) == "Vec::new()"@,
        default_of(rust_type_of("option<"@ + x + ">"@)) == "None"@,
{
    lemma_map_list(x);
    lemma_map_option(x);
    assert("Vec<"@ + rust_type_of(x) + ">"@ =~= "Vec<"@ + (rust_type_of(x) + ">"@));
    assert("Option<"@ + rust_type_of(x) + ">"@ =~= "Option<"@ + (rust_type_of(x) + ">"@));
    lemma_default_vec(rust_type_of(x) + ">"@);
    lemma_default_option(rust_type_of(x) + ">"@);
}

/// Every line the splitter yields is free of line feeds.
pub proof fn lemma_lines_no_nl(s: Seq<char>, cur: Seq<char>)
    requires
        no_nl(cur),
    ensures
        forall|k: int|
            0 <= k < lines_acc(s, cur).len() ==> no_nl(#[trigger] lines_acc(s, cur)[k]),
    decreases s.len(),
{
    if s.len() == 0 {
        if cur.len() != 0 {
            assert(lines_acc(s, cur) =~= seq![cur]);
        }
    } else if s[0] == '\n' {
        lemma_strip_cr_no_nl(cur);
        lemma_lines_no_nl(s.drop_first(), Seq::<char>::empty());
        assert forall|k: int|
            0 <= k < lines_acc(s, cur).len() implies no_nl(
            #[trigger] lines_acc(s, cur)[k]) by {
            if k == 0 {
                assert(lines_acc(s, cur)[0] == strip_cr(cur));
            } else {
                assert(lines_acc(s, cur)[k] == lines_acc(s.drop_first(), Seq::<char>::empty())[
                    k - 1
                ]);
            }
        }
    } else {
        assert(no_nl(cur.push(s[0]))) by {
            assert forall|i: int| 0 <= i < cur.push(s[0]).len() implies cur.push(s[0])[i]
                != '\n' by {
                if i < cur.len() {
                    assert(cur.push(s[0])[i] == cur[i]);
                } else {
                    assert(cur.push(s[0])[i] == s[0]);
                }
            }
        }
        lemma_lines_no_nl(s.drop_first(), cur.push(s[0]));
        assert(lines_acc(s, cur) == lines_acc(s.drop_first(), cur.push(s[0])));
    }
}

proof fn lemma_strip_cr_no_nl(l: Seq<char>)
    requires
        no_nl(l),
    ensures
        no_nl(strip_cr(l)),
{
    if l.len() > 0 && l[l.len() - 1] == '\r' {
        lemma_subrange_no_nl(l, 0, l.len() - 1);
    }
}

/// Trimming keeps text free of line feeds.
pub proof fn lemma_trim_no_nl(s: Seq<char>)
    requires
        no_nl(s),
    ensures
        no_nl(crate::strutil::trim_spec(s)),
{
    crate::strutil::lemma_first_non_ws_bounds(s, 0);
    crate::strutil::lemma_last_non_ws_end_bounds(s, s.len() as int);
}

/// Every piece a split yields is free of line feeds when the whole
/// text is.
pub proof fn lemma_split_no_nl(s: Seq<char>, sep: Seq<char>)
    requires
        no_nl(s),
    ensures
        forall|k: int|
            0 <= k < split_sub(s, sep).len() ==> no_nl(#[trigger] split_sub(s, sep)[k]),
    decreases s.len(),
{
    if sep.len() == 0 {
    } else {
        crate::strutil::lemma_find_from_bounds(s, sep, 0);
        match crate::strutil::find_sub(s, sep) {
            Some(i) => {
                lemma_subrange_no_nl(s, 0, i);
                assert(no_nl(s.skip(i + sep.len()))) by {
                    lemma_subrange_no_nl(s, i + sep.len(), s.len() as int);
                    assert(s.skip(i + sep.len()) =~= s.subrange(i + sep.len(), s.len() as int));
                }
                lemma_split_no_nl(s.skip(i + sep.len()), sep);
                assert forall|k: int|
                    0 <= k < split_sub(s, sep).len() implies no_nl(
                    #[trigger] split_sub(s, sep)[k]) by {
                    if k == 0 {
                        assert(split_sub(s, sep)[0] == s.take(i));
                        assert(s.take(i) =~= s.subrange(0, i));
                    } else {
                        assert(split_sub(s, sep)[k] == split_sub(s.skip(i + sep.len()), sep)[k
                            - 1]);
                    }
                }
            },
            None => {},
        }
    }
}

/// Every field the scanner collects has a line-feed-free name and
/// type: both are cut out of single lines.
pub proof fn lemma_scanned_fields_no_nl(lines: Seq<Seq<char>>, i: int)
    requires
        forall|k: int| 0 <= k < lines.len() ==> no_nl(#[trigger] lines[k]),
    ensures
        forall|k: int|
            0 <= k < scan_fields(lines, i).0.len() ==> no_nl(
                #[trigger] scan_fields(lines, i).0[k].name,
            ) && no_nl(scan_fields(lines, i).0[k].wit_type),
    decreases lines.len() - i,
{
    if i < 0 || i >= lines.len() {
    } else if ("}"@).is_prefix_of(crate::strutil::trim_spec(lines[i])) {
    } else {
        lemma_scanned_fields_no_nl(lines, i + 1);
        let l = crate::strutil::trim_spec(lines[i]);
        lemma_trim_no_nl(lines[i]);
        let rest = scan_fields(lines, i + 1);
        if ("//"@).is_prefix_of(l) || l.len() == 0 {
        } else {
            let parts = split_sub(l, ":"@);
            lemma_split_no_nl(l, ":"@);
            if parts.len() == 2 {
                lemma_trim_no_nl(parts[0]);
                lemma_trim_no_nl(parts[1]);
                lemma_strip_suffix_no_nl(crate::strutil::trim_spec(parts[1]), ","@);
                assert forall|k: int|
                    0 <= k < scan_fields(lines, i).0.len() implies no_nl(
                    #[trigger] scan_fields(lines, i).0[k].name) && no_nl(
                    scan_fields(lines, i).0[k].wit_type) by {
                    if k > 0 {
                        assert(scan_fields(lines, i).0[k] == rest.0[k - 1]);
                    }
                }
            }
        }
    }
}

/// Law link: the signatures parsed from any source text carry
/// line-feed-free fields, as the inert-template law assumes of them.
pub proof fn lemma_parsed_fields_no_nl(content: Seq<char>, i: int)
    ensures
        forall|k: int, j: int|
            #![trigger crate::parser::parse_from(lines_of(content), i).0[k].fields[j]]
            0 <= k < crate::parser::parse_from(lines_of(content), i).0.len() && 0 <= j
                < crate::parser::parse_from(lines_of(content), i).0[k].fields.len() ==> no_nl(
                crate::parser::parse_from(lines_of(content), i).0[k].fields[j].name,
            ) && no_nl(crate::parser::parse_from(lines_of(content), i).0[k].fields[j].wit_type),
    decreases lines_of(content).len() - i,
{
    let lines = lines_of(content);
    assert(forall|k: int| 0 <= k < lines.len() ==> no_nl(#[trigger] lines[k])) by {
        lemma_lines_no_nl(content, Seq::<char>::empty());
    }
    lemma_parse_fields_no_nl_rec(lines, i);
}

proof fn lemma_parse_fields_no_nl_rec(lines: Seq<Seq<char>>, i: int)
    requires
        forall|k: int| 0 <= k < lines.len() ==> no_nl(#[trigger] lines[k]),
    ensures
        forall|k: int, j: int|
            #![trigger crate::parser::parse_from(lines, i).0[k].fields[j]]
            0 <= k < crate::parser::parse_from(lines, i).0.len() && 0 <= j
                < crate::parser::parse_from(lines, i).0[k].fields.len() ==> no_nl(
                crate::parser::parse_from(lines, i).0[k].fields[j].name,
            ) && no_nl(crate::parser::parse_from(lines, i).0[k].fields[j].wit_type),
    decreases lines.len() - i,
{
    if i < 0 || i >= lines.len() {
    } else {
        let l = crate::strutil::trim_spec(lines[i]);
        if ("record "@).is_prefix_of(l) && !crate::strutil::contains_sub(l, "-signature-"@) {
            lemma_parse_fields_no_nl_rec(lines, i + 1);
            assert(crate::parser::parse_from(lines, i).0 == crate::parser::parse_from(
                lines,
                i + 1,
            ).0);
        } else if ("variant "@).is_prefix_of(l) {
            lemma_parse_fields_no_nl_rec(lines, i + 1);
            assert(crate::parser::parse_from(lines, i).0 == crate::parser::parse_from(
                lines,
                i + 1,
            ).0);
        } else if ("record "@).is_prefix_of(l) {
            let record_name = crate::parser::decl_name(l, "record "@);
            let parts = split_sub(record_name, "-signature-"@);
            if parts.len() != 2 {
                lemma_parse_fields_no_nl_rec(lines, i + 1);
                assert(crate::parser::parse_from(lines, i).0 == crate::parser::parse_from(
                    lines,
                    i + 1,
                ).0);
            } else {
                let fr = scan_fields(lines, i + 1);
                crate::parser::lemma_scan_fields_bounds(lines, i + 1);
                let next = if fr.1 + 1 <= lines.len() {
                    fr.1 + 1
                } else {
                    lines.len() as int
                };
                lemma_parse_fields_no_nl_rec(lines, next);
                lemma_scanned_fields_no_nl(lines, i + 1);
                let cur = crate::parser::parse_from(lines, i).0;
                let rest = crate::parser::parse_from(lines, next).0;
                assert forall|k: int, j: int|
                    #![trigger cur[k].fields[j]]
                    0 <= k < cur.len() && 0 <= j < cur[k].fields.len() implies no_nl(
                    cur[k].fields[j].name) && no_nl(cur[k].fields[j].wit_type) by {
                    if k == 0 {
                        assert(cur[0].fields == fr.0);
                    } else {
                        assert(cur[k] == rest[k - 1]);
                    }
                }
            }
        } else {
            lemma_parse_fields_no_nl_rec(lines, i + 1);
            assert(crate::parser::parse_from(lines, i).0 == crate::parser::parse_from(
                lines,
                i + 1,
            ).0);
        }
    }
}

/// No occurrence of the tuple separator anywhere in the text.
pub open spec fn no_sep(e: Seq<char>) -> bool {
    forall|i: int| 0 <= i && i + 2 <= e.len() ==> !(#[trigger] e[i] == ',' && e[i + 1] == ' ')
}

/// The elementwise mapping of a joined element list: splitting the
/// join on the separator gives the elements back, each mapped.
proof fn lemma_tuple_elems_join(elems: Seq<Seq<char>>)
    requires
        elems.len() >= 1,
        forall|k: int| 0 <= k < elems.len() ==> no_sep(#[trigger] elems[k]),
    ensures
        rust_tuple_elems(join_sep(elems, ", "@)) == join_sep(
            elems.map_values(|e: Seq<char>| rust_type_of(e)),
            ", "@,
        ),
    decreases elems.len(),
{
    reveal_strlit(", ");
    let sep = seq![',', ' '];
    assert((", "@) =~= sep);
    let s = join_sep(elems, ", "@);
    if elems.len() == 1 {
        assert(s == elems[0]);
        assert(find_sub(elems[0], sep) is None) by {
            assert forall|k: int|
                0 <= k && k + 2 <= elems[0].len() implies !sep.is_prefix_of(
                elems[0].skip(k)) by {
                if sep.is_prefix_of(elems[0].skip(k)) {
                    assert(elems[0].skip(k).subrange(0, 2)[0] == elems[0][k]);
                    assert(elems[0].skip(k).subrange(0, 2)[1] == elems[0][k + 1]);
                }
            }
            lemma_find_none_from(elems[0], sep, 0);
        }
        assert(elems.map_values(|e: Seq<char>| rust_type_of(e)) =~= seq![
            rust_type_of(elems[0]),
        ]);
    } else {
        let e0 = elems[0];
        let rest = elems.drop_first();
        assert(s == e0 + ", "@ + join_sep(rest, ", "@)) by {
            assert(elems.len() >= 2);
        }
        let j = e0.len() as int;
        assert(s.len() == j + 2 + join_sep(rest, ", "@).len());
        assert(sep.is_prefix_of(s.skip(j))) by {
            assert(s.skip(j)[0] == ',');
            assert(s.skip(j)[1] == ' ');
            assert(s.skip(j).subrange(0, 2) =~= sep);
        }
        assert forall|k: int| 0 <= k < j implies !sep.is_prefix_of(s.skip(k)) by {
            if sep.is_prefix_of(s.skip(k)) {
                assert(s.skip(k).subrange(0, 2)[0] == s[k]);
                assert(s.skip(k).subrange(0, 2)[1] == s[k + 1]);
                assert(s[k] == ',' && s[k + 1] == ' ');
                if k + 1 < j {
                    assert(s[k] == e0[k]);
                    assert(s[k + 1] == e0[k + 1]);
                    assert(no_sep(e0));
                } else {
                    assert(s[k + 1] == ',');
                }
            }
        }
        lemma_find_at(s, sep, 0, j);
        assert(s.take(j) =~= e0);
        assert(s.skip(j + 2) =~= join_sep(rest, ", "@));
        assert forall|k: int| 0 <= k < rest.len() implies no_sep(#[trigger] rest[k]) by {
            assert(rest[k] == elems[k + 1]);
        }
        lemma_tuple_elems_join(rest);
        let mapped = elems.map_values(|e: Seq<char>| rust_type_of(e));
        assert(mapped.drop_first() =~= rest.map_values(|e: Seq<char>| rust_type_of(e)));
        assert(join_sep(mapped, ", "@) == rust_type_of(e0) + ", "@ + join_sep(
            mapped.drop_first(),
            ", "@,
        )) by {
            assert(mapped.len() >= 2);
            assert(mapped[0] == rust_type_of(e0));
        }
    }
}

/// Law: the mapper splits an n-element tuple shape on the exact
/// separator and recurses on every element, in order; no element here
/// contains the separator itself.
pub proof fn lemma_map_tuple_n(elems: Seq<Seq<char>>)
    requires
        elems.len() >= 1,
        forall|k: int| 0 <= k < elems.len() ==> no_sep(#[trigger] elems[k]),
    ensures
        rust_type_of("tuple<"@ + join_sep(elems, ", "@) + ">"@) == "("@ + join_sep(
            elems.map_values(|e: Seq<char>| rust_type_of(e)),
            ", "@,
        ) + ")"@,
{
    reveal_strlit("list<");
    reveal_strlit("option<");
    reveal_strlit("result<");
    reveal_strlit("tuple<");
    reveal_strlit(">");
    let inner = join_sep(elems, ", "@);
    let t = "tuple<"@ + inner + ">"@;
    assert(t.len() == 7 + inner.len());
    assert(t[0] == 't');
    lemma_shape_head_not_primitive(t);
    lemma_not_prefix_char0("list<"@, t);
    lemma_not_prefix_char0("option<"@, t);
    lemma_not_prefix_char0("result<"@, t);
    assert(("tuple<"@).is_prefix_of(t)) by {
        assert(t.subrange(0, 6) =~= "tuple<"@);
    }
    assert(t.subrange(6, t.len() - 1) =~= inner);
    lemma_tuple_elems_join(elems);
}

/// A subrange of ASCII text is ASCII.
pub proof fn lemma_subrange_ascii(s: Seq<char>, a: int, b: int)
    requires
        ascii_only(s),
        0 <= a <= b <= s.len(),
    ensures
        ascii_only(s.subrange(a, b)),
{
    assert forall|i: int| 0 <= i < b - a implies (s.subrange(a, b)[i] as u32) < 128 by {
        assert(s.subrange(a, b)[i] == s[a + i]);
    }
}

/// Trimming keeps text ASCII.
pub proof fn lemma_trim_ascii(s: Seq<char>)
    requires
        ascii_only(s),
    ensures
        ascii_only(crate::strutil::trim_spec(s)),
{
    crate::strutil::lemma_first_non_ws_bounds(s, 0);
    crate::strutil::lemma_last_non_ws_end_bounds(s, s.len() as int);
    let a = crate::strutil::first_non_ws(s, 0);
    let b = crate::strutil::last_non_ws_end(s, s.len() as int);
    if a < b {
        lemma_subrange_ascii(s, a, b);
    }
}

/// Stripping a prefix repeatedly keeps text ASCII.
pub proof fn lemma_strip_prefix_ascii(s: Seq<char>, p: Seq<char>)
    requires
        ascii_only(s),
    ensures
        ascii_only(strip_prefix_all_spec(s, p)),
    decreases s.len(),
{
    if p.len() > 0 && p.is_prefix_of(s) {
        assert(ascii_only(s.skip(p.len() as int))) by {
            lemma_subrange_ascii(s, p.len() as int, s.len() as int);
            assert(s.skip(p.len() as int) =~= s.subrange(p.len() as int, s.len() as int));
        }
        lemma_strip_prefix_ascii(s.skip(p.len() as int), p);
    }
}

/// Stripping a suffix repeatedly keeps text ASCII.
pub proof fn lemma_strip_suffix_ascii(s: Seq<char>, p: Seq<char>)
    requires
        ascii_only(s),
    ensures
        ascii_only(strip_suffix_all_spec(s, p)),
    decreases s.len(),
{
    if p.len() > 0 && p.is_suffix_of(s) {
        assert(ascii_only(s.take(s.len() - p.len()))) by {
            lemma_subrange_ascii(s, 0, s.len() - p.len());
            assert(s.take(s.len() - p.len()) =~= s.subrange(0, s.len() - p.len()));
        }
        lemma_strip_suffix_ascii(s.take(s.len() - p.len()), p);
    }
}

/// Every piece a split yields is ASCII when the whole text is.
pub proof fn lemma_split_ascii(s: Seq<char>, sep: Seq<char>)
    requires
        ascii_only(s),
    ensures
        forall|k: int|
            0 <= k < split_sub(s, sep).len() ==> ascii_only(#[trigger] split_sub(s, sep)[k]),
    decreases s.len(),
{
    if sep.len() == 0 {
    } else {
        crate::strutil::lemma_find_from_bounds(s, sep, 0);
        match crate::strutil::find_sub(s, sep) {
            Some(i) => {
                lemma_subrange_ascii(s, 0, i);
                assert(ascii_only(s.skip(i + sep.len()))) by {
                    lemma_subrange_ascii(s, i + sep.len(), s.len() as int);
                    assert(s.skip(i + sep.len()) =~= s.subrange(i + sep.len(), s.len() as int));
                }
                lemma_split_ascii(s.skip(i + sep.len()), sep);
                assert forall|k: int|
                    0 <= k < split_sub(s, sep).len() implies ascii_only(
                    #[trigger] split_sub(s, sep)[k]) by {
                    if k == 0 {
                        assert(split_sub(s, sep)[0] == s.take(i));
                        assert(s.take(i) =~= s.subrange(0, i));
                    } else {
                        assert(split_sub(s, sep)[k] == split_sub(s.skip(i + sep.len()), sep)[k
                            - 1]);
                    }
                }
            },
            None => {},
        }
    }
}

/// Every line the splitter yields is ASCII when the text is.
pub proof fn lemma_lines_ascii(s: Seq<char>, cur: Seq<char>)
    requires
        ascii_only(s),
        ascii_only(cur),
    ensures
        forall|k: int|
            0 <= k < lines_acc(s, cur).len() ==> ascii_only(#[trigger] lines_acc(s, cur)[k]),
    decreases s.len(),
{
    if s.len() == 0 {
        if cur.len() != 0 {
            assert(lines_acc(s, cur) =~= seq![cur]);
        }
    } else {
        assert(ascii_only(s.drop_first())) by {
            assert forall|i: int|
                0 <= i < s.drop_first().len() implies (s.drop_first()[i] as u32) < 128 by {
                assert(s.drop_first()[i] == s[i + 1]);
            }
        }
        if s[0] == '\n' {
            assert(ascii_only(strip_cr(cur))) by {
                if cur.len() > 0 && cur[cur.len() - 1] == '\r' {
                    lemma_subrange_ascii(cur, 0, cur.len() - 1);
                    assert(cur.take(cur.len() - 1) =~= cur.subrange(0, cur.len() - 1));
                }
            }
            lemma_lines_ascii(s.drop_first(), Seq::<char>::empty());
            assert forall|k: int|
                0 <= k < lines_acc(s, cur).len() implies ascii_only(
                #[trigger] lines_acc(s, cur)[k]) by {
                if k == 0 {
                    assert(lines_acc(s, cur)[0] == strip_cr(cur));
                } else {
                    assert(lines_acc(s, cur)[k] == lines_acc(
                        s.drop_first(),
                        Seq::<char>::empty(),
                    )[k - 1]);
                }
            }
        } else {
            assert(ascii_only(cur.push(s[0]))) by {
                assert forall|i: int|
                    0 <= i < cur.push(s[0]).len() implies (cur.push(s[0])[i] as u32)
                        < 128 by {
                    if i < cur.len() {
                        assert(cur.push(s[0])[i] == cur[i]);
                    } else {
                        assert(cur.push(s[0])[i] == s[0]);
                    }
                }
            }
            lemma_lines_ascii(s.drop_first(), cur.push(s[0]));
            assert(lines_acc(s, cur) == lines_acc(s.drop_first(), cur.push(s[0])));
        }
    }
}

/// Every field the scanner collects is ASCII when every line is.
pub proof fn lemma_scanned_fields_ascii(lines: Seq<Seq<char>>, i: int)
    requires
        forall|k: int| 0 <= k < lines.len() ==> ascii_only(#[trigger] lines[k]),
    ensures
        forall|k: int|
            0 <= k < scan_fields(lines, i).0.len() ==> ascii_only(
                #[trigger] scan_fields(lines, i).0[k].name,
            ) && ascii_only(scan_fields(lines, i).0[k].wit_type),
    decreases lines.len() - i,
{
    if i < 0 || i >= lines.len() {
    } else if ("}"@).is_prefix_of(crate::strutil::trim_spec(lines[i])) {
    } else {
        lemma_scanned_fields_ascii(lines, i + 1);
        let l = crate::strutil::trim_spec(lines[i]);
        lemma_trim_ascii(lines[i]);
        let rest = scan_fields(lines, i + 1);
        if ("//"@).is_prefix_of(l) || l.len() == 0 {
        } else {
            let parts = split_sub(l, ":"@);
            lemma_split_ascii(l, ":"@);
            if parts.len() == 2 {
                lemma_trim_ascii(parts[0]);
                lemma_trim_ascii(parts[1]);
                lemma_strip_suffix_ascii(crate::strutil::trim_spec(parts[1]), ","@);
                assert forall|k: int|
                    0 <= k < scan_fields(lines, i).0.len() implies ascii_only(
                    #[trigger] scan_fields(lines, i).0[k].name) && ascii_only(
                    scan_fields(lines, i).0[k].wit_type) by {
                    if k > 0 {
                        assert(scan_fields(lines, i).0[k] == rest.0[k - 1]);
                    }
                }
            }
        }
    }
}

/// The signatures scanned from newline-free ASCII lines satisfy the
/// inert law's hypotheses: operation names and fields are newline-free
/// ASCII, all cut out of single lines.
pub proof fn lemma_parse_sigs_clean(lines: Seq<Seq<char>>, i: int)
    requires
        forall|k: int| 0 <= k < lines.len() ==> no_nl(#[trigger] lines[k]),
        forall|k: int| 0 <= k < lines.len() ==> ascii_only(#[trigger] lines[k]),
    ensures
        forall|k: int|
            #![trigger crate::parser::parse_from(lines, i).0[k]]
            0 <= k < crate::parser::parse_from(lines, i).0.len() ==> no_nl(
                crate::parser::parse_from(lines, i).0[k].function_name,
            ) && ascii_only(crate::parser::parse_from(lines, i).0[k].function_name) && (
            forall|j: int|
                0 <= j < crate::parser::parse_from(lines, i).0[k].fields.len()
                    ==> clean_field(
                    #[trigger] crate::parser::parse_from(lines, i).0[k].fields[j],
                )),
    decreases lines.len() - i,
{
    if i < 0 || i >= lines.len() {
    } else {
        let l = crate::strutil::trim_spec(lines[i]);
        if ("record "@).is_prefix_of(l) && !crate::strutil::contains_sub(l, "-signature-"@) {
            lemma_parse_sigs_clean(lines, i + 1);
            assert(crate::parser::parse_from(lines, i).0 == crate::parser::parse_from(
                lines,
                i + 1,
            ).0);
        } else if ("variant "@).is_prefix_of(l) {
            lemma_parse_sigs_clean(lines, i + 1);
            assert(crate::parser::parse_from(lines, i).0 == crate::parser::parse_from(
                lines,
                i + 1,
            ).0);
        } else if ("record "@).is_prefix_of(l) {
            let record_name = crate::parser::decl_name(l, "record "@);
            let parts = split_sub(record_name, "-signature-"@);
            if parts.len() != 2 {
                lemma_parse_sigs_clean(lines, i + 1);
                assert(crate::parser::parse_from(lines, i).0 == crate::parser::parse_from(
                    lines,
                    i + 1,
                ).0);
            } else {
                lemma_trim_no_nl(lines[i]);
                lemma_trim_ascii(lines[i]);
                lemma_strip_prefix_no_nl(l, "record "@);
                lemma_strip_prefix_ascii(l, "record "@);
                let stripped = strip_prefix_all_spec(l, "record "@);
                lemma_strip_suffix_no_nl(stripped, " {"@);
                lemma_strip_suffix_ascii(stripped, " {"@);
                lemma_trim_no_nl(strip_suffix_all_spec(stripped, " {"@));
                lemma_trim_ascii(strip_suffix_all_spec(stripped, " {"@));
                lemma_split_no_nl(record_name, "-signature-"@);
                lemma_split_ascii(record_name, "-signature-"@);
                let fr = scan_fields(lines, i + 1);
                crate::parser::lemma_scan_fields_bounds(lines, i + 1);
                let next = if fr.1 + 1 <= lines.len() {
                    fr.1 + 1
                } else {
                    lines.len() as int
                };
                lemma_parse_sigs_clean(lines, next);
                lemma_scanned_fields_no_nl(lines, i + 1);
                lemma_scanned_fields_ascii(lines, i + 1);
                let cur = crate::parser::parse_from(lines, i).0;
                let rest = crate::parser::parse_from(lines, next).0;
                assert forall|k: int|
                    #![trigger cur[k]]
                    0 <= k < cur.len() implies no_nl(cur[k].function_name) && ascii_only(
                    cur[k].function_name) && (forall|j: int|
                    0 <= j < cur[k].fields.len() ==> clean_field(
                        #[trigger] cur[k].fields[j],
                    )) by {
                    if k == 0 {
                        assert(cur[0].function_name == parts[0]);
                        assert(cur[0].fields == fr.0);
                    } else {
                        assert(cur[k] == rest[k - 1]);
                    }
                }
            }
        } else {
            lemma_parse_sigs_clean(lines, i + 1);
            assert(crate::parser::parse_from(lines, i).0 == crate::parser::parse_from(
                lines,
                i + 1,
            ).0);
        }
    }
}

/// Law: for ASCII interface source text, every parsed signature whose
/// call kind is the special transport kind yields inert output — the
/// whole emitted text is commented out, line by line.
pub proof fn lemma_parsed_http_stub_inert(content: Seq<char>, k: int)
    requires
        ascii_only(content),
        0 <= k < crate::parser::parse_of(content).0.len(),
        crate::parser::parse_of(content).0[k].attr_type == "http"@,
    ensures
        commented_out(stub_text_of(crate::parser::parse_of(content).0[k])),
{
    let lines = lines_of(content);
    assert(forall|j: int| 0 <= j < lines.len() ==> no_nl(#[trigger] lines[j])) by {
        lemma_lines_no_nl(content, Seq::<char>::empty());
    }
    assert(forall|j: int| 0 <= j < lines.len() ==> ascii_only(#[trigger] lines[j])) by {
        lemma_lines_ascii(content, Seq::<char>::empty());
    }
    lemma_parse_sigs_clean(lines, 0);
    lemma_http_stub_inert(crate::parser::parse_of(content).0[k]);
}

} // verus!
