//! The stub-emission engine: one host-language async dispatch function
//! per signature record, or an inert commented-out template for the
//! special transport kind.

use vstd::prelude::*;

use crate::casing::pascal_of;
use crate::casing::snake_of;
use crate::casing::to_pascal_case;
use crate::casing::to_snake_case;
use crate::parser::SigFieldView;
use crate::parser::SigView;
use crate::parser::SignatureStruct;
use crate::strutil::join_sep;
use crate::strutil::join_strings;
use crate::strutil::str_eq;
use crate::typemap::default_of;
use crate::typemap::generate_default_value;
use crate::typemap::rust_type_of;
use crate::typemap::wit_type_to_rust;

verus! {

/// The fields that become ordinary parameters: everything but the
/// routing field `target` and the result field `returning`, in source
/// order.
pub open spec fn non_control_fields(fields: Seq<SigFieldView>) -> Seq<SigFieldView>
    decreases fields.len(),
{
    if fields.len() == 0 {
        Seq::<SigFieldView>::empty()
    } else {
        let rest = non_control_fields(fields.drop_last());
        let f = fields.last();
        if f.name == "target"@ || f.name == "returning"@ {
            rest
        } else {
            rest + seq![f]
        }
    }
}

/// The routing parameter's host type: empty when no field is named
/// `target`, a plain string slice when the last such field is a
/// string, the opaque address type otherwise.
pub open spec fn target_param_of(fields: Seq<SigFieldView>) -> Seq<char>
    decreases fields.len(),
{
    if fields.len() == 0 {
        Seq::<char>::empty()
    } else if fields.last().name == "target"@ {
        if fields.last().wit_type == "string"@ {
            "&str"@
        } else {
            "&Address"@
        }
    } else {
        target_param_of(fields.drop_last())
    }
}

/// The mapped return type: the last field named `returning`, or unit.
pub open spec fn return_type_of(fields: Seq<SigFieldView>) -> Seq<char>
    decreases fields.len(),
{
    if fields.len() == 0 {
        "()"@
    } else if fields.last().name == "returning"@ {
        rust_type_of(fields.last().wit_type)
    } else {
        return_type_of(fields.drop_last())
    }
}

/// One ordinary parameter declaration.
pub open spec fn param_decl(f: SigFieldView) -> Seq<char> {
    snake_of(f.name) + ": "@ + rust_type_of(f.wit_type)
}

/// One parameter declaration with the unused-marker prefix of the
/// inert templates; the mapped type keeps the leading space it is cut
/// out with, so two spaces follow the colon.
pub open spec fn underscore_decl(f: SigFieldView) -> Seq<char> {
    "_"@ + snake_of(f.name) + ":  "@ + rust_type_of(f.wit_type)
}

/// The ordinary parameter declarations, in source order.
pub open spec fn param_decls(fields: Seq<SigFieldView>) -> Seq<Seq<char>> {
    non_control_fields(fields).map_values(|f: SigFieldView| param_decl(f))
}

/// The ordinary parameter names, snake_cased, in source order.
pub open spec fn param_names(fields: Seq<SigFieldView>) -> Seq<Seq<char>> {
    non_control_fields(fields).map_values(|f: SigFieldView| snake_of(f.name))
}

/// The full parameter list: the routing parameter first when present,
/// then the ordinary parameters.
pub open spec fn all_params_of(fields: Seq<SigFieldView>) -> Seq<char> {
    let tp = target_param_of(fields);
    let ps = join_sep(param_decls(fields), ", "@);
    if tp.len() == 0 {
        ps
    } else if param_decls(fields).len() == 0 {
        "target: "@ + tp
    } else {
        "target: "@ + tp + ", "@ + ps
    }
}

/// The parameter list of an inert template: every name carries the
/// unused-marker prefix.
pub open spec fn http_params_of(fields: Seq<SigFieldView>) -> Seq<char> {
    let tp = target_param_of(fields);
    let ups = join_sep(non_control_fields(fields).map_values(|f: SigFieldView| underscore_decl(f)), ", "@);
    if tp.len() == 0 {
        ups
    } else if non_control_fields(fields).len() == 0 {
        "_target: "@ + tp
    } else {
        "_target: "@ + tp + ", "@ + ups
    }
}

/// The request payload: the operation's PascalCase name mapped to an
/// empty object for zero parameters, to the bare value for one, and
/// to a tuple of the values in declared order for more.
pub open spec fn payload_of(pascal: Seq<char>, names: Seq<Seq<char>>) -> Seq<char> {
    if names.len() == 0 {
        "json!({\""@ + pascal + "\" : {}})"@
    } else if names.len() == 1 {
        "json!({\""@ + pascal + "\": "@ + names[0] + "})"@
    } else {
        "json!({\""@ + pascal + "\": ("@ + join_sep(names, ", "@) + ")})"@
    }
}

/// The generated function's name: operation name in snake_case, the
/// call kind, and the dispatch suffix.
pub open spec fn stub_fn_name(sig: SigView) -> Seq<char> {
    snake_of(sig.function_name) + "_"@ + sig.attr_type + "_rpc"@
}

/// The inert, fully commented-out template emitted for the special
/// transport kind.
pub open spec fn http_stub_text(sig: SigView) -> Seq<char> {
    "/// Generated stub for `"@ + sig.function_name + "` "@ + sig.attr_type
        + " RPC call\n/// HTTP endpoint - uncomment to implement\n// pub async fn "@
        + stub_fn_name(sig) + "("@ + http_params_of(sig.fields) + ") -> SendResult<"@
        + return_type_of(sig.fields)
        + "> {\n//     // TODO: Implement HTTP endpoint\n//     SendResult::Success("@
        + default_of(return_type_of(sig.fields)) + ")\n// }"@
}

/// The live dispatch function emitted for ordinary call kinds.
pub open spec fn live_stub_text(sig: SigView) -> Seq<char> {
    "/// Generated stub for `"@ + sig.function_name + "` "@ + sig.attr_type
        + " RPC call\npub async fn "@ + stub_fn_name(sig) + "("@ + all_params_of(sig.fields)
        + ") -> SendResult<"@ + return_type_of(sig.fields) + "> {\n    let request = "@
        + payload_of(pascal_of(sig.function_name), param_names(sig.fields)) + ";\n    send::<"@
        + return_type_of(sig.fields) + ">(&request, target, 30).await\n}"@
}

/// The text generated for one signature record.
pub open spec fn stub_text_of(sig: SigView) -> Seq<char> {
    if sig.attr_type == "http"@ {
        http_stub_text(sig)
    } else {
        live_stub_text(sig)
    }
}

/// Emits the host-language source text for one signature record: a
/// live dispatch function, or an inert commented-out template when the
/// call kind is the special transport kind.
pub fn generate_async_function(signature: &SignatureStruct) -> (r: String)
    ensures
        r@ == stub_text_of(signature@),
{
    let ghost fv = signature@.fields;
    let nf = signature.fields.len();
    let mut decls: Vec<String> = Vec::new();
    let mut names: Vec<String> = Vec::new();
    let mut udecls: Vec<String> = Vec::new();
    let mut return_type = String::from_str("()");
    let mut target_param = String::new();
    let mut k: usize = 0;
    proof {
        assert(fv.take(0) =~= Seq::<SigFieldView>::empty());
        assert(decls.deep_view() =~= param_decls(fv.take(0)));
        assert(names.deep_view() =~= param_names(fv.take(0)));
        assert(udecls.deep_view() =~= non_control_fields(fv.take(0)).map_values(
            |f: SigFieldView| underscore_decl(f),
        ));
    }
    while k < nf
        invariant
            fv == signature@.fields,
            nf == signature.fields.len(),
            fv.len() == nf,
            k <= nf,
            decls.deep_view() == param_decls(fv.take(k as int)),
            names.deep_view() == param_names(fv.take(k as int)),
            udecls.deep_view() == non_control_fields(fv.take(k as int)).map_values(
                |f: SigFieldView| underscore_decl(f),
            ),
            return_type@ == return_type_of(fv.take(k as int)),
            target_param@ == target_param_of(fv.take(k as int)),
        decreases nf - k,
    {
        let ghost decls0 = decls.deep_view();
        let ghost names0 = names.deep_view();
        let ghost udecls0 = udecls.deep_view();
        proof {
            reveal_strlit("target");
            reveal_strlit("returning");
            reveal_strlit("string");
            assert(fv.take(k as int + 1).drop_last() =~= fv.take(k as int));
            assert(fv.take(k as int + 1).last() == fv[k as int]);
            assert(fv[k as int] == signature.fields@[k as int]@);
        }
        let field = &signature.fields[k];
        if str_eq(field.name.as_str(), "target") {
            if str_eq(field.wit_type.as_str(), "string") {
                target_param = String::from_str("&str");
            } else {
                target_param = String::from_str("&Address");
            }
        } else if str_eq(field.name.as_str(), "returning") {
            return_type = wit_type_to_rust(field.wit_type.as_str());
        } else {
            let snake_name = to_snake_case(field.name.as_str());
            let rust_ty = wit_type_to_rust(field.wit_type.as_str());
            let mut decl = String::new();
            decl.append(snake_name.as_str());
            decl.append(": ");
            decl.append(rust_ty.as_str());
            let mut udecl = String::from_str("_");
            udecl.append(snake_name.as_str());
            udecl.append(":  ");
            udecl.append(rust_ty.as_str());
            proof {
                assert(decl@ =~= param_decl(fv[k as int]));
                assert(udecl@ =~= underscore_decl(fv[k as int]));
            }
            decls.push(decl);
            names.push(snake_name);
            udecls.push(udecl);
            proof {
                assert(decls.deep_view() =~= decls0 + seq![param_decl(fv[k as int])]);
                assert(names.deep_view() =~= names0 + seq![snake_of(fv[k as int].name)]);
                assert(udecls.deep_view() =~= udecls0 + seq![underscore_decl(fv[k as int])]);
                assert(non_control_fields(fv.take(k as int + 1)) =~= non_control_fields(
                    fv.take(k as int),
                ) + seq![fv[k as int]]);
                assert(param_decls(fv.take(k as int + 1)) =~= param_decls(fv.take(k as int))
                    + seq![param_decl(fv[k as int])]);
                assert(param_names(fv.take(k as int + 1)) =~= param_names(fv.take(k as int))
                    + seq![snake_of(fv[k as int].name)]);
                assert(non_control_fields(fv.take(k as int + 1)).map_values(
                    |f: SigFieldView| underscore_decl(f),
                ) =~= non_control_fields(fv.take(k as int)).map_values(
                    |f: SigFieldView| underscore_decl(f),
                ) + seq![underscore_decl(fv[k as int])]);
            }
        }
        k += 1;
    }
    proof {
        assert(fv.take(nf as int) =~= fv);
    }
    let snake_function_name = to_snake_case(signature.function_name.as_str());
    let pascal_function_name = to_pascal_case(signature.function_name.as_str());
    let mut full_function_name = String::new();
    full_function_name.append(snake_function_name.as_str());
    full_function_name.append("_");
    full_function_name.append(signature.attr_type.as_str());
    full_function_name.append("_rpc");
    proof {
        assert(full_function_name@ =~= stub_fn_name(signature@));
    }
    let tp_empty = target_param.as_str().unicode_len() == 0;
    if str_eq(signature.attr_type.as_str(), "http") {
        let default_value = generate_default_value(return_type.as_str());
        let joined_u = join_strings(&udecls, ", ");
        let mut all_params_u = String::new();
        if tp_empty {
            all_params_u.append(joined_u.as_str());
        } else if udecls.len() == 0 {
            all_params_u.append("_target: ");
            all_params_u.append(target_param.as_str());
        } else {
            all_params_u.append("_target: ");
            all_params_u.append(target_param.as_str());
            all_params_u.append(", ");
        }
        if !tp_empty && udecls.len() > 0 {
            all_params_u.append(joined_u.as_str());
        }
        proof {
            assert(non_control_fields(fv).len() == non_control_fields(fv).map_values(
                |f: SigFieldView| underscore_decl(f),
            ).len());
            assert(all_params_u@ =~= http_params_of(fv));
        }
        let mut out = String::from_str("/// Generated stub for `");
        out.append(signature.function_name.as_str());
        out.append("` ");
        out.append(signature.attr_type.as_str());
        out.append(" RPC call\n/// HTTP endpoint - uncomment to implement\n// pub async fn ");
        out.append(full_function_name.as_str());
        out.append("(");
        out.append(all_params_u.as_str());
        out.append(") -> SendResult<");
        out.append(return_type.as_str());
        out.append("> {\n//     // TODO: Implement HTTP endpoint\n//     SendResult::Success(");
        out.append(default_value.as_str());
        out.append(")\n// }");
        proof {
            assert(out@ =~= http_stub_text(signature@));
        }
        out
    } else {
        let json_params: String;
        if names.len() == 0 {
            let mut jp = String::from_str("json!({\"");
            jp.append(pascal_function_name.as_str());
            jp.append("\" : {}})");
            json_params = jp;
        } else if names.len() == 1 {
            let mut jp = String::from_str("json!({\"");
            jp.append(pascal_function_name.as_str());
            jp.append("\": ");
            jp.append(names[0].as_str());
            jp.append("})");
            json_params = jp;
        } else {
            let mut jp = String::from_str("json!({\"");
            jp.append(pascal_function_name.as_str());
            jp.append("\": (");
            let joined_names = join_strings(&names, ", ");
            jp.append(joined_names.as_str());
            jp.append(")})");
            json_params = jp;
        }
        proof {
            assert(names.deep_view().len() == names@.len());
            assert(json_params@ =~= payload_of(
                pascal_of(signature@.function_name),
                param_names(fv),
            ));
        }
        let joined_d = join_strings(&decls, ", ");
        let mut all_params = String::new();
        if tp_empty {
            all_params.append(joined_d.as_str());
        } else if decls.len() == 0 {
            all_params.append("target: ");
            all_params.append(target_param.as_str());
        } else {
            all_params.append("target: ");
            all_params.append(target_param.as_str());
            all_params.append(", ");
        }
        if !tp_empty && decls.len() > 0 {
            all_params.append(joined_d.as_str());
        }
        proof {
            assert(param_decls(fv).len() == non_control_fields(fv).len());
            assert(all_params@ =~= all_params_of(fv));
        }
        let mut out = String::from_str("/// Generated stub for `");
        out.append(signature.function_name.as_str());
        out.append("` ");
        out.append(signature.attr_type.as_str());
        out.append(" RPC call\npub async fn ");
        out.append(full_function_name.as_str());
        out.append("(");
        out.append(all_params.as_str());
        out.append(") -> SendResult<");
        out.append(return_type.as_str());
        out.append("> {\n    let request = ");
        out.append(json_params.as_str());
        out.append(";\n    send::<");
        out.append(return_type.as_str());
        out.append(">(&request, target, 30).await\n}");
        proof {
            assert(out@ =~= live_stub_text(signature@));
        }
        out
    }
}

} // verus!
