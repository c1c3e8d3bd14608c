//! The module assembler: builds the generated crate's manifest text
//! and its single source file — binding directive, global imports,
//! per-interface re-exports, and one sub-module of stubs per interface
//! file that yielded signatures.

use vstd::prelude::*;

use crate::casing::snake_of;
use crate::casing::to_snake_case;
use crate::parser::SigView;
use crate::parser::parse_of;
use crate::parser::parse_wit_source;
use crate::parser::sig_views;
use crate::strutil::contains_str;
use crate::strutil::ends_with_str;
use crate::strutil::push_char;
use crate::strutil::str_eq;
use crate::stubgen::generate_async_function;
use crate::stubgen::stub_text_of;
use crate::world::FileView;
use crate::world::SourceFile;
use crate::world::file_views;
use crate::world::is_world_file;

verus! {

/// One assembled sub-module: its snake_case name and its concatenated
/// stub functions.
pub struct GeneratedModule {
    pub name: String,
    pub content: String,
}

impl View for GeneratedModule {
    type V = (Seq<char>, Seq<char>);

    open spec fn view(&self) -> (Seq<char>, Seq<char>) {
        (self.name@, self.content@)
    }
}

/// The type names recorded for one interface file, kept for
/// bookkeeping.
pub struct InterfaceTypes {
    pub interface: String,
    pub types: Vec<String>,
}

impl View for InterfaceTypes {
    type V = (Seq<char>, Seq<Seq<char>>);

    open spec fn view(&self) -> (Seq<char>, Seq<Seq<char>>) {
        (self.interface@, self.types.deep_view())
    }
}

/// The file name without its extension suffix.
pub open spec fn stem_of(name: Seq<char>) -> Seq<char> {
    if (".wit"@).is_suffix_of(name) {
        name.take(name.len() - 4)
    } else {
        name
    }
}

/// Drops the interface-source extension from a file name.
pub fn file_stem(name: &str) -> (r: String)
    ensures
        r@ == stem_of(name@),
{
    if ends_with_str(name, ".wit") {
        proof {
            reveal_strlit(".wit");
        }
        let l = name.unicode_len();
        String::from_str(name.substring_char(0, l - 4))
    } else {
        String::from_str(name)
    }
}

/// `s` with the indent of a nested module inserted after every line
/// feed.
pub open spec fn indent_nl(s: Seq<char>) -> Seq<char>
    decreases s.len(),
{
    if s.len() == 0 {
        s
    } else if s[0] == '\n' {
        "\n    "@ + indent_nl(s.drop_first())
    } else {
        seq![s[0]] + indent_nl(s.drop_first())
    }
}

/// Inserts one level of module indent after every line feed.
fn indent_content(s: &str) -> (r: String)
    ensures
        r@ == indent_nl(s@),
{
    let sl = s.unicode_len();
    let mut out = String::new();
    let mut i: usize = 0;
    proof {
        assert(s@.skip(0) =~= s@);
    }
    while i < sl
        invariant
            sl == s@.len(),
            i <= sl,
            indent_nl(s@) == out@ + indent_nl(s@.skip(i as int)),
        decreases sl - i,
    {
        let c = s.get_char(i);
        proof {
            assert(s@.skip(i as int)[0] == s@[i as int]);
            assert(s@.skip(i as int).drop_first() =~= s@.skip(i as int + 1));
        }
        if c == '\n' {
            out.append("\n    ");
        } else {
            push_char(&mut out, c);
        }
        i += 1;
        proof {
            assert(indent_nl(s@) =~= out@ + indent_nl(s@.skip(i as int)));
        }
    }
    proof {
        assert(s@.skip(sl as int) =~= Seq::<char>::empty());
    }
    out
}

/// The distinct snake_case module names of the imported interfaces,
/// first occurrence winning.
pub open spec fn dedup_snake(imports: Seq<Seq<char>>) -> Seq<Seq<char>>
    decreases imports.len(),
{
    if imports.len() == 0 {
        Seq::<Seq<char>>::empty()
    } else {
        let prev = dedup_snake(imports.drop_last());
        let sn = snake_of(imports.last());
        if prev.contains(sn) {
            prev
        } else {
            prev + seq![sn]
        }
    }
}

/// The wildcard re-export statements, one per distinct interface.
pub open spec fn stmts_concat(names: Seq<Seq<char>>) -> Seq<char>
    decreases names.len(),
{
    if names.len() == 0 {
        Seq::<char>::empty()
    } else {
        stmts_concat(names.drop_last()) + "pub use crate::hyperware::process::"@ + names.last()
            + "::*;\n"@
    }
}

/// The re-export block: a heading comment and one statement per
/// distinct interface, or nothing when there are no imports.
pub open spec fn use_block_of(imports: Seq<Seq<char>>) -> Seq<char> {
    let ds = dedup_snake(imports);
    if ds.len() == 0 {
        Seq::<char>::empty()
    } else {
        "// Import types from each interface\n"@ + stmts_concat(ds) + "\n"@
    }
}

/// The fixed head of the generated file: the binding-generation
/// directive for the resolved world and the global imports.
pub open spec fn header_text(world: Seq<char>) -> Seq<char> {
    "wit_bindgen::generate!({\n    path: \"target/wit\",\n    world: \""@ + world
        + "\",\n    generate_unused_types: true,\n    additional_derives: [serde::Deserialize, serde::Serialize, process_macros::SerdeJsonInto],\n});\n\n/// Generated caller utilities for RPC function stubs\n\npub use hyperware_app_common::SendResult;\npub use hyperware_app_common::send;\nuse hyperware_process_lib::Address;\nuse serde_json::json;\n\n"@
}

/// One named sub-module wrapping an interface's generated functions.
pub open spec fn module_text(name: Seq<char>, content: Seq<char>) -> Seq<char> {
    "/// Generated RPC stubs for the "@ + name + " interface\npub mod "@ + name
        + " {\n    use crate::*;\n\n    "@ + indent_nl(content) + "\n}\n\n"@
}

/// All sub-modules, in order.
pub open spec fn modules_concat(mods: Seq<(Seq<char>, Seq<char>)>) -> Seq<char>
    decreases mods.len(),
{
    if mods.len() == 0 {
        Seq::<char>::empty()
    } else {
        modules_concat(mods.drop_last()) + module_text(mods.last().0, mods.last().1)
    }
}

/// The whole generated source file.
pub open spec fn lib_rs_text(
    world: Seq<char>,
    imports: Seq<Seq<char>>,
    mods: Seq<(Seq<char>, Seq<char>)>,
) -> Seq<char> {
    header_text(world) + use_block_of(imports) + modules_concat(mods)
}

/// Whether the sequence holds a string equal to `s`.
fn vec_contains_str(v: &Vec<String>, s: &str) -> (r: bool)
    ensures
        r == v.deep_view().contains(s@),
{
    let n = v.len();
    let mut i: usize = 0;
    while i < n
        invariant
            n == v.len(),
            i <= n,
            forall|j: int| 0 <= j < i ==> v.deep_view()[j] != s@,
        decreases n - i,
    {
        if str_eq(v[i].as_str(), s) {
            proof {
                assert(v.deep_view()[i as int] == s@);
            }
            return true;
        }
        i += 1;
    }
    false
}

/// Builds the re-export statements for the imported interfaces,
/// duplicates collapsed by snake_case module name.
pub fn interface_use_block(imports: &Vec<String>) -> (r: String)
    ensures
        r@ == use_block_of(imports.deep_view()),
{
    let n = imports.len();
    let mut seen: Vec<String> = Vec::new();
    let mut k: usize = 0;
    proof {
        assert(imports.deep_view().take(0) =~= Seq::<Seq<char>>::empty());
        assert(seen.deep_view() =~= dedup_snake(imports.deep_view().take(0)));
    }
    while k < n
        invariant
            n == imports.len(),
            imports.deep_view().len() == n,
            k <= n,
            seen.deep_view() == dedup_snake(imports.deep_view().take(k as int)),
        decreases n - k,
    {
        let ghost seen0 = seen.deep_view();
        proof {
            assert(imports.deep_view().take(k as int + 1).drop_last() =~= imports.deep_view()
                .take(k as int));
            assert(imports.deep_view().take(k as int + 1).last() == imports.deep_view()[k as int]);
            assert(imports.deep_view()[k as int] == imports@[k as int]@);
        }
        let sn = to_snake_case(imports[k].as_str());
        if !vec_contains_str(&seen, sn.as_str()) {
            seen.push(sn);
            proof {
                assert(seen.deep_view() =~= seen0 + seq![
                    snake_of(imports.deep_view()[k as int]),
                ]);
            }
        }
        k += 1;
    }
    proof {
        assert(imports.deep_view().take(n as int) =~= imports.deep_view());
    }
    let m = seen.len();
    if m == 0 {
        let out = String::new();
        proof {
            assert(out@ =~= use_block_of(imports.deep_view()));
        }
        return out;
    }
    let mut out = String::from_str("// Import types from each interface\n");
    let mut j: usize = 0;
    proof {
        assert(seen.deep_view().take(0) =~= Seq::<Seq<char>>::empty());
        assert(out@ =~= "// Import types from each interface\n"@ + stmts_concat(
            seen.deep_view().take(0),
        ));
    }
    while j < m
        invariant
            m == seen.len(),
            seen.deep_view().len() == m,
            j <= m,
            out@ == "// Import types from each interface\n"@ + stmts_concat(
                seen.deep_view().take(j as int),
            ),
        decreases m - j,
    {
        proof {
            assert(seen.deep_view().take(j as int + 1).drop_last() =~= seen.deep_view().take(
                j as int,
            ));
            assert(seen.deep_view().take(j as int + 1).last() == seen.deep_view()[j as int]);
            assert(seen.deep_view()[j as int] == seen@[j as int]@);
        }
        out.append("pub use crate::hyperware::process::");
        out.append(seen[j].as_str());
        out.append("::*;\n");
        j += 1;
        proof {
            assert(out@ =~= "// Import types from each interface\n"@ + stmts_concat(
                seen.deep_view().take(j as int),
            ));
        }
    }
    proof {
        assert(seen.deep_view().take(m as int) =~= seen.deep_view());
    }
    out.append("\n");
    proof {
        assert(out@ =~= use_block_of(imports.deep_view()));
    }
    out
}

/// The concatenated stub functions of one interface file's
/// signatures, each followed by a blank line.
pub open spec fn mod_content_of(sigs: Seq<SigView>) -> Seq<char>
    decreases sigs.len(),
{
    if sigs.len() == 0 {
        Seq::<char>::empty()
    } else {
        mod_content_of(sigs.drop_last()) + stub_text_of(sigs.last()) + "\n\n"@
    }
}

/// The sub-modules the files yield, in file order: one per non-world
/// file with at least one signature.
pub open spec fn module_entries(files: Seq<FileView>) -> Seq<(Seq<char>, Seq<char>)>
    decreases files.len(),
{
    if files.len() == 0 {
        Seq::<(Seq<char>, Seq<char>)>::empty()
    } else {
        let prev = module_entries(files.drop_last());
        let f = files.last();
        if is_world_file(f.content) {
            prev
        } else {
            let sigs = parse_of(f.content).0;
            if sigs.len() == 0 {
                prev
            } else {
                prev + seq![(snake_of(stem_of(f.name)), mod_content_of(sigs))]
            }
        }
    }
}

/// The type names recorded per non-world file, in file order.
pub open spec fn type_entries(files: Seq<FileView>) -> Seq<(Seq<char>, Seq<Seq<char>>)>
    decreases files.len(),
{
    if files.len() == 0 {
        Seq::<(Seq<char>, Seq<Seq<char>>)>::empty()
    } else {
        let prev = type_entries(files.drop_last());
        let f = files.last();
        if is_world_file(f.content) {
            prev
        } else {
            prev + seq![(stem_of(f.name), parse_of(f.content).1)]
        }
    }
}

/// Parses every non-world interface file and builds its sub-module of
/// stubs, recording the plain type names on the way.
pub fn build_modules(files: &Vec<SourceFile>) -> (r: (Vec<GeneratedModule>, Vec<InterfaceTypes>))
    ensures
        r.0@.map_values(|m: GeneratedModule| m@) == module_entries(file_views(files@)),
        r.1@.map_values(|t: InterfaceTypes| t@) == type_entries(file_views(files@)),
{
    let ghost fvs = file_views(files@);
    let n = files.len();
    let mut mods: Vec<GeneratedModule> = Vec::new();
    let mut itypes: Vec<InterfaceTypes> = Vec::new();
    let mut k: usize = 0;
    proof {
        assert(fvs.take(0) =~= Seq::<FileView>::empty());
        assert(mods@.map_values(|m: GeneratedModule| m@) =~= module_entries(fvs.take(0)));
        assert(itypes@.map_values(|t: InterfaceTypes| t@) =~= type_entries(fvs.take(0)));
    }
    while k < n
        invariant
            fvs == file_views(files@),
            n == files.len(),
            fvs.len() == n,
            k <= n,
            mods@.map_values(|m: GeneratedModule| m@) == module_entries(fvs.take(k as int)),
            itypes@.map_values(|t: InterfaceTypes| t@) == type_entries(fvs.take(k as int)),
        decreases n - k,
    {
        let ghost mods0 = mods@.map_values(|m: GeneratedModule| m@);
        let ghost itypes0 = itypes@.map_values(|t: InterfaceTypes| t@);
        proof {
            assert(fvs.take(k as int + 1).drop_last() =~= fvs.take(k as int));
            assert(fvs.take(k as int + 1).last() == fvs[k as int]);
            assert(fvs[k as int] == files@[k as int]@);
        }
        if !contains_str(files[k].content.as_str(), "world ") {
            let parsed = parse_wit_source(files[k].content.as_str());
            let sigs = parsed.0;
            let types = parsed.1;
            let stem = file_stem(files[k].name.as_str());
            itypes.push(InterfaceTypes { interface: stem, types });
            proof {
                assert(itypes@.map_values(|t: InterfaceTypes| t@) =~= itypes0 + seq![
                    (stem_of(fvs[k as int].name), parse_of(fvs[k as int].content).1),
                ]);
            }
            if sigs.len() > 0 {
                let ghost sv = sig_views(sigs@);
                let mut content = String::new();
                let ns = sigs.len();
                let mut j: usize = 0;
                proof {
                    assert(sv.take(0) =~= Seq::<SigView>::empty());
                    assert(content@ =~= mod_content_of(sv.take(0)));
                }
                while j < ns
                    invariant
                        sv == sig_views(sigs@),
                        ns == sigs.len(),
                        sv.len() == ns,
                        j <= ns,
                        content@ == mod_content_of(sv.take(j as int)),
                    decreases ns - j,
                {
                    proof {
                        assert(sv.take(j as int + 1).drop_last() =~= sv.take(j as int));
                        assert(sv.take(j as int + 1).last() == sv[j as int]);
                        assert(sv[j as int] == sigs@[j as int]@);
                    }
                    let stub = generate_async_function(&sigs[j]);
                    content.append(stub.as_str());
                    content.append("\n\n");
                    j += 1;
                    proof {
                        assert(content@ =~= mod_content_of(sv.take(j as int)));
                    }
                }
                proof {
                    assert(sv.take(ns as int) =~= sv);
                }
                let stem2 = file_stem(files[k].name.as_str());
                let snake_name = to_snake_case(stem2.as_str());
                mods.push(GeneratedModule { name: snake_name, content });
                proof {
                    assert(mods@.map_values(|m: GeneratedModule| m@) =~= mods0 + seq![
                        (
                            snake_of(stem_of(fvs[k as int].name)),
                            mod_content_of(parse_of(fvs[k as int].content).0),
                        ),
                    ]);
                }
            } else {
                proof {
                    assert(mods@.map_values(|m: GeneratedModule| m@) =~= module_entries(
                        fvs.take(k as int + 1),
                    ));
                }
            }
        } else {
            proof {
                assert(mods@.map_values(|m: GeneratedModule| m@) =~= module_entries(
                    fvs.take(k as int + 1),
                ));
                assert(itypes@.map_values(|t: InterfaceTypes| t@) =~= type_entries(
                    fvs.take(k as int + 1),
                ));
            }
        }
        k += 1;
    }
    proof {
        assert(fvs.take(n as int) =~= fvs);
    }
    (mods, itypes)
}

/// Assembles the generated source file from the resolved world name,
/// the world imports and the built sub-modules.
pub fn assemble_lib_rs(world_name: &str, imports: &Vec<String>, modules: &Vec<GeneratedModule>) -> (r:
    String)
    ensures
        r@ == lib_rs_text(
            world_name@,
            imports.deep_view(),
            modules@.map_values(|m: GeneratedModule| m@),
        ),
{
    let ghost mv = modules@.map_values(|m: GeneratedModule| m@);
    let mut out = String::from_str(
        "wit_bindgen::generate!({\n    path: \"target/wit\",\n    world: \"",
    );
    out.append(world_name);
    out.append(
        "\",\n    generate_unused_types: true,\n    additional_derives: [serde::Deserialize, serde::Serialize, process_macros::SerdeJsonInto],\n});\n\n/// Generated caller utilities for RPC function stubs\n\npub use hyperware_app_common::SendResult;\npub use hyperware_app_common::send;\nuse hyperware_process_lib::Address;\nuse serde_json::json;\n\n",
    );
    let use_block = interface_use_block(imports);
    out.append(use_block.as_str());
    proof {
        assert(out@ =~= header_text(world_name@) + use_block_of(imports.deep_view())
            + modules_concat(mv.take(0)));
    }
    let n = modules.len();
    let mut k: usize = 0;
    while k < n
        invariant
            mv == modules@.map_values(|m: GeneratedModule| m@),
            n == modules.len(),
            mv.len() == n,
            k <= n,
            out@ == header_text(world_name@) + use_block_of(imports.deep_view())
                + modules_concat(mv.take(k as int)),
        decreases n - k,
    {
        proof {
            assert(mv.take(k as int + 1).drop_last() =~= mv.take(k as int));
            assert(mv.take(k as int + 1).last() == mv[k as int]);
            assert(mv[k as int] == modules@[k as int]@);
        }
        out.append("/// Generated RPC stubs for the ");
        out.append(modules[k].name.as_str());
        out.append(" interface\npub mod ");
        out.append(modules[k].name.as_str());
        out.append(" {\n    use crate::*;\n\n    ");
        let indented = indent_content(modules[k].content.as_str());
        out.append(indented.as_str());
        out.append("\n}\n\n");
        k += 1;
        proof {
            assert(out@ =~= header_text(world_name@) + use_block_of(imports.deep_view())
                + modules_concat(mv.take(k as int)));
        }
    }
    proof {
        assert(mv.take(n as int) =~= mv);
    }
    out
}

/// The fixed manifest text of the generated crate.
pub open spec fn cargo_toml_text() -> Seq<char> {
    "[package]\nname = \"caller-utils\"\nversion = \"0.1.0\"\nedition = \"2021\"\npublish = false\n\n[dependencies]\nanyhow = \"1.0\"\nhyperware_process_lib = { version = \"1.0.4\", features = [\"logging\"] }\nprocess_macros = \"0.1.0\"\nfutures-util = \"0.3\"\nserde = { version = \"1.0\", features = [\"derive\"] }\nserde_json = \"1.0\"\nhyperware_app_common = { git = \"https://github.com/hyperware-ai/hyperprocess-macro\" }\nonce_cell = \"1.20.2\"\nfutures = \"0.3\"\nuuid = { version = \"1.0\" }\nwit-bindgen = \"0.41.0\"\n\n[lib]\ncrate-type = [\"cdylib\", \"lib\"]\n"@
}

/// Produces the fixed manifest text of the generated crate.
pub fn caller_utils_cargo_toml() -> (r: String)
    ensures
        r@ == cargo_toml_text(),
{
    String::from_str(
        "[package]\nname = \"caller-utils\"\nversion = \"0.1.0\"\nedition = \"2021\"\npublish = false\n\n[dependencies]\nanyhow = \"1.0\"\nhyperware_process_lib = { version = \"1.0.4\", features = [\"logging\"] }\nprocess_macros = \"0.1.0\"\nfutures-util = \"0.3\"\nserde = { version = \"1.0\", features = [\"derive\"] }\nserde_json = \"1.0\"\nhyperware_app_common = { git = \"https://github.com/hyperware-ai/hyperprocess-macro\" }\nonce_cell = \"1.20.2\"\nfutures = \"0.3\"\nuuid = { version = \"1.0\" }\nwit-bindgen = \"0.41.0\"\n\n[lib]\ncrate-type = [\"cdylib\", \"lib\"]\n",
    )
}

} // verus!
