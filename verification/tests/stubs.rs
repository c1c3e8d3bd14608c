use caller_utils_gen::generate::GenError;
use caller_utils_gen::generate::create_caller_utils;
use caller_utils_gen::parser::SignatureField;
use caller_utils_gen::parser::SignatureStruct;
use caller_utils_gen::stubgen::generate_async_function;
use caller_utils_gen::world::SourceFile;

fn sig(name: &str, attr: &str, fields: &[(&str, &str)]) -> SignatureStruct {
    SignatureStruct {
        function_name: name.to_string(),
        attr_type: attr.to_string(),
        fields: fields
            .iter()
            .map(|(n, t)| SignatureField { name: n.to_string(), wit_type: t.to_string() })
            .collect(),
    }
}

#[test]
fn zero_parameter_payload_is_empty_object() {
    let s = sig("get-balance", "local", &[("target", "string"), ("returning", "u64")]);
    let text = generate_async_function(&s);
    let expected = "/// Generated stub for `get-balance` local RPC call\n\
                    pub async fn get_balance_local_rpc(target: &str) -> SendResult<u64> {\n    \
                    let request = json!({\"GetBalance\" : {}});\n    \
                    send::<u64>(&request, target, 30).await\n}";
    assert_eq!(text, expected);
}

#[test]
fn single_parameter_payload_is_bare_value() {
    let s = sig(
        "set-name",
        "local",
        &[("target", "string"), ("name", "string"), ("returning", "unit")],
    );
    let text = generate_async_function(&s);
    assert!(text.contains("json!({\"SetName\": name})"));
    assert!(text.contains("pub async fn set_name_local_rpc(target: &str, name: String) -> SendResult<()>"));
}

#[test]
fn multi_parameter_payload_is_tuple() {
    let s = sig(
        "transfer",
        "remote",
        &[("target", "string"), ("to", "string"), ("amount", "u64"), ("returning", "bool")],
    );
    let text = generate_async_function(&s);
    let expected = "/// Generated stub for `transfer` remote RPC call\n\
                    pub async fn transfer_remote_rpc(target: &str, to: String, amount: u64) -> SendResult<bool> {\n    \
                    let request = json!({\"Transfer\": (to, amount)});\n    \
                    send::<bool>(&request, target, 30).await\n}";
    assert_eq!(text, expected);
}

#[test]
fn address_target_uses_opaque_address_type() {
    let s = sig("ping", "remote", &[("target", "address"), ("returning", "unit")]);
    let text = generate_async_function(&s);
    assert!(text.contains("pub async fn ping_remote_rpc(target: &Address) -> SendResult<()>"));
}

#[test]
fn http_kind_yields_inert_template() {
    let s = sig(
        "send-pay",
        "http",
        &[("target", "string"), ("amount", "u64"), ("returning", "u64")],
    );
    let text = generate_async_function(&s);
    for line in text.lines() {
        assert!(line.starts_with("//"), "live line in template: {line}");
    }
    let expected = "/// Generated stub for `send-pay` http RPC call\n\
                    /// HTTP endpoint - uncomment to implement\n\
                    // pub async fn send_pay_http_rpc(_target: &str, _amount:  u64) -> SendResult<u64> {\n\
                    //     // TODO: Implement HTTP endpoint\n\
                    //     SendResult::Success(0)\n\
                    // }";
    assert_eq!(text, expected);
}

#[test]
fn http_kind_is_inert_whatever_the_fields() {
    let s = sig(
        "odd-one",
        "http",
        &[("left", "list<u8>"), ("right", "map<string, u64>")],
    );
    let text = generate_async_function(&s);
    for line in text.lines() {
        assert!(line.starts_with("//"), "live line in template: {line}");
    }
}

#[test]
fn pipeline_assembles_one_module_per_interface() {
    let files = vec![
        SourceFile {
            name: "app.wit".to_string(),
            content: "world foo {\n    import alpha;\n    import alpha;\n}\n".to_string(),
        },
        SourceFile {
            name: "types-app.wit".to_string(),
            content: "world types-foo {\n}\n".to_string(),
        },
        SourceFile {
            name: "alpha.wit".to_string(),
            content: "record order {\n    id: u64,\n}\n\nrecord get-balance-signature-local {\n    target: string,\n    returning: u64,\n}\n"
                .to_string(),
        },
    ];
    let out = create_caller_utils(&files, None, &Vec::new()).ok().unwrap();
    assert_eq!(out.world_name, "types-foo");
    assert!(!out.world_plain_fallback);
    assert!(out.cargo_toml.starts_with("[package]\nname = \"caller-utils\"\n"));
    assert!(out.cargo_toml.contains("wit-bindgen"));
    assert_eq!(out.interface_types.len(), 1);
    assert_eq!(out.interface_types[0].interface, "alpha");
    assert_eq!(out.interface_types[0].types, vec!["order".to_string()]);

    let header = "wit_bindgen::generate!({\n    path: \"target/wit\",\n    world: \"types-foo\",\n    generate_unused_types: true,\n    additional_derives: [serde::Deserialize, serde::Serialize, process_macros::SerdeJsonInto],\n});\n\n/// Generated caller utilities for RPC function stubs\n\npub use hyperware_app_common::SendResult;\npub use hyperware_app_common::send;\nuse hyperware_process_lib::Address;\nuse serde_json::json;\n\n";
    let use_block = "// Import types from each interface\npub use crate::hyperware::process::alpha::*;\n\n";
    let module = "/// Generated RPC stubs for the alpha interface\npub mod alpha {\n    use crate::*;\n\n    /// Generated stub for `get-balance` local RPC call\n    pub async fn get_balance_local_rpc(target: &str) -> SendResult<u64> {\n        let request = json!({\"GetBalance\" : {}});\n        send::<u64>(&request, target, 30).await\n    }\n    \n    \n}\n\n";
    let expected = format!("{header}{use_block}{module}");
    assert_eq!(out.lib_rs, expected);
}

#[test]
fn pipeline_without_world_fails() {
    let files = vec![SourceFile {
        name: "a.wit".to_string(),
        content: "interface a {\n}\n".to_string(),
    }];
    let r = create_caller_utils(&files, None, &Vec::new());
    assert!(matches!(r, Err(GenError::NoWorld)));
}

#[test]
fn pipeline_reports_bad_manifests() {
    let files = vec![SourceFile {
        name: "app.wit".to_string(),
        content: "world foo {\n}\n".to_string(),
    }];
    let bad = "not = = toml [".to_string();
    let r = create_caller_utils(&files, Some(&bad), &Vec::new());
    assert!(matches!(r, Err(GenError::Workspace(_))));
    let r2 = create_caller_utils(&files, None, &vec![bad.clone()]);
    assert!(matches!(r2, Err(GenError::Project(_))));
}

#[test]
fn pipeline_updates_manifests() {
    let files = vec![SourceFile {
        name: "app.wit".to_string(),
        content: "world foo {\n}\n".to_string(),
    }];
    let ws = "[workspace]\nmembers = [\"a\"]\n".to_string();
    let proj = "[package]\nname = \"p\"\n\n[dependencies]\nserde = \"1\"\n".to_string();
    let out = create_caller_utils(&files, Some(&ws), &vec![proj]).ok().unwrap();
    assert_eq!(out.world_name, "foo");
    assert!(out.world_plain_fallback);
    let ws2 = out.workspace_manifest.unwrap();
    assert!(ws2.contains("caller-utils"));
    assert_eq!(out.project_manifests.len(), 1);
    let p2 = out.project_manifests[0].as_ref().unwrap();
    assert!(p2.contains("caller-utils"));
    assert!(p2.contains("../caller-utils"));
}
