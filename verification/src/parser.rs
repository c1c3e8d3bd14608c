//! The signature parser: a single forward, line-based scan over one
//! interface source file, extracting plain type declarations and
//! signature records with their fields.

use vstd::prelude::*;

use crate::strutil::contains_str;
use crate::strutil::contains_sub;
use crate::strutil::find_str;
use crate::strutil::find_sub;
use crate::strutil::lemma_find_from_bounds;
use crate::strutil::lines_of;
use crate::strutil::split_lines;
use crate::strutil::starts_with_str;
use crate::strutil::strip_prefix_all_spec;
use crate::strutil::strip_suffix_all;
use crate::strutil::strip_suffix_all_spec;
use crate::strutil::strip_prefix_all;
use crate::strutil::trim_spec;
use crate::strutil::trim_ws;

verus! {

/// One field of a signature record: its kebab-case name and its
/// interface-language type expression.
pub struct SignatureField {
    pub name: String,
    pub wit_type: String,
}

/// The mathematical shape of a signature field.
pub struct SigFieldView {
    pub name: Seq<char>,
    pub wit_type: Seq<char>,
}

impl View for SignatureField {
    type V = SigFieldView;

    open spec fn view(&self) -> SigFieldView {
        SigFieldView { name: self.name@, wit_type: self.wit_type@ }
    }
}

/// One parsed signature record: the operation name and call kind taken
/// from the record's name, and the fields in source order.
pub struct SignatureStruct {
    pub function_name: String,
    pub attr_type: String,
    pub fields: Vec<SignatureField>,
}

/// The mathematical shape of a signature record.
pub struct SigView {
    pub function_name: Seq<char>,
    pub attr_type: Seq<char>,
    pub fields: Seq<SigFieldView>,
}

impl View for SignatureStruct {
    type V = SigView;

    open spec fn view(&self) -> SigView {
        SigView {
            function_name: self.function_name@,
            attr_type: self.attr_type@,
            fields: self.fields@.map_values(|f: SignatureField| f@),
        }
    }
}

/// The views of a sequence of signature records.
pub open spec fn sig_views(s: Seq<SignatureStruct>) -> Seq<SigView> {
    s.map_values(|x: SignatureStruct| x@)
}

/// `s` split at every occurrence of `sep`, as std's `split` does it.
pub open spec fn split_sub(s: Seq<char>, sep: Seq<char>) -> Seq<Seq<char>>
    decreases s.len(),
    via split_sub_dec
{
    if sep.len() == 0 {
        seq![s]
    } else {
        match find_sub(s, sep) {
            Some(i) => seq![s.take(i)] + split_sub(s.skip(i + sep.len()), sep),
            None => seq![s],
        }
    }
}

#[via_fn]
proof fn split_sub_dec(s: Seq<char>, sep: Seq<char>) {
    if sep.len() > 0 {
        lemma_find_from_bounds(s, sep, 0);
    }
}

/// Splits `s` at every occurrence of `sep`.
pub fn split_str(s: &str, sep: &str) -> (r: Vec<String>)
    requires
        sep@.len() > 0,
    ensures
        r.deep_view() == split_sub(s@, sep@),
{
    let mut out: Vec<String> = Vec::new();
    let mut t = s;
    let sl = sep.unicode_len();
    loop
        invariant
            sl == sep@.len(),
            sl > 0,
            split_sub(s@, sep@) == out.deep_view() + split_sub(t@, sep@),
        decreases t@.len(),
    {
        let ghost out0 = out.deep_view();
        match find_str(t, sep) {
            Some(i) => {
                proof {
                    lemma_find_from_bounds(t@, sep@, 0);
                }
                let piece = String::from_str(t.substring_char(0, i));
                out.push(piece);
                let tl = t.unicode_len();
                let t2 = t.substring_char(i + sl, tl);
                proof {
                    assert(piece@ =~= t@.take(i as int));
                    assert(t2@ =~= t@.skip(i + sl));
                    assert(out.deep_view() =~= out0 + seq![t@.take(i as int)]);
                    assert(split_sub(s@, sep@) =~= out.deep_view() + split_sub(t2@, sep@));
                }
                t = t2;
            },
            None => {
                let piece = String::from_str(t);
                out.push(piece);
                proof {
                    assert(out.deep_view() =~= out0 + seq![t@]);
                    assert(out.deep_view() =~= split_sub(s@, sep@));
                }
                return out;
            },
        }
    }
}

/// The declaration name on a `record` or `variant` line: the keyword
/// prefix and a trailing block opener stripped, the rest trimmed.
pub open spec fn decl_name(l: Seq<char>, keyword: Seq<char>) -> Seq<char> {
    trim_spec(strip_suffix_all_spec(strip_prefix_all_spec(l, keyword), " {"@))
}

/// The fields scanned from `lines[i]` on, up to the first line whose
/// trimmed text opens with the block-closing token; yields the fields
/// and the index of that closing line (or the line count).
pub open spec fn scan_fields(lines: Seq<Seq<char>>, i: int) -> (Seq<SigFieldView>, int)
    decreases lines.len() - i,
{
    if i < 0 || i >= lines.len() {
        (Seq::<SigFieldView>::empty(), lines.len() as int)
    } else if ("}"@).is_prefix_of(trim_spec(lines[i])) {
        (Seq::<SigFieldView>::empty(), i)
    } else {
        let rest = scan_fields(lines, i + 1);
        let l = trim_spec(lines[i]);
        if ("//"@).is_prefix_of(l) || l.len() == 0 {
            rest
        } else {
            let parts = split_sub(l, ":"@);
            if parts.len() == 2 {
                (
                    seq![
                        SigFieldView {
                            name: trim_spec(parts[0]),
                            wit_type: strip_suffix_all_spec(trim_spec(parts[1]), ","@),
                        },
                    ] + rest.0,
                    rest.1,
                )
            } else {
                rest
            }
        }
    }
}

/// The closing index that `scan_fields` reports never runs backwards
/// or past the end.
pub proof fn lemma_scan_fields_bounds(lines: Seq<Seq<char>>, i: int)
    requires
        0 <= i <= lines.len(),
    ensures
        i <= scan_fields(lines, i).1 <= lines.len(),
    decreases lines.len() - i,
{
    if i < lines.len() && !(("}"@).is_prefix_of(trim_spec(lines[i]))) {
        lemma_scan_fields_bounds(lines, i + 1);
    }
}

/// The signatures and plain type names scanned from `lines[i]` on:
/// plain `record` and `variant` lines contribute a type name,
/// signature record lines whose name splits into exactly two parts on
/// the marker contribute a signature with the fields of their block,
/// and every other line is passed over.
pub open spec fn parse_from(lines: Seq<Seq<char>>, i: int) -> (Seq<SigView>, Seq<Seq<char>>)
    decreases lines.len() - i,
    via parse_from_dec
{
    if i < 0 || i >= lines.len() {
        (Seq::<SigView>::empty(), Seq::<Seq<char>>::empty())
    } else {
        let l = trim_spec(lines[i]);
        if ("record "@).is_prefix_of(l) && !contains_sub(l, "-signature-"@) {
            let rest = parse_from(lines, i + 1);
            (rest.0, seq![decl_name(l, "record "@)] + rest.1)
        } else if ("variant "@).is_prefix_of(l) {
            let rest = parse_from(lines, i + 1);
            (rest.0, seq![decl_name(l, "variant "@)] + rest.1)
        } else if ("record "@).is_prefix_of(l) {
            let record_name = decl_name(l, "record "@);
            let parts = split_sub(record_name, "-signature-"@);
            if parts.len() != 2 {
                parse_from(lines, i + 1)
            } else {
                let fr = scan_fields(lines, i + 1);
                let next = if fr.1 + 1 <= lines.len() {
                    fr.1 + 1
                } else {
                    lines.len() as int
                };
                let rest = parse_from(lines, next);
                (
                    seq![
                        SigView { function_name: parts[0], attr_type: parts[1], fields: fr.0 },
                    ] + rest.0,
                    rest.1,
                )
            }
        } else {
            parse_from(lines, i + 1)
        }
    }
}

#[via_fn]
proof fn parse_from_dec(lines: Seq<Seq<char>>, i: int) {
    if 0 <= i < lines.len() {
        lemma_scan_fields_bounds(lines, i + 1);
    }
}

/// The signatures and type names of one interface source text.
pub open spec fn parse_of(content: Seq<char>) -> (Seq<SigView>, Seq<Seq<char>>) {
    parse_from(lines_of(content), 0)
}

/// The field views of a vector of parsed fields.
pub open spec fn field_views(s: Seq<SignatureField>) -> Seq<SigFieldView> {
    s.map_values(|f: SignatureField| f@)
}

/// Parses one interface source text into its signature records and
/// its plain type-declaration names.
pub fn parse_wit_source(content: &str) -> (r: (Vec<SignatureStruct>, Vec<String>))
    ensures
        sig_views(r.0@) == parse_of(content@).0,
        r.1.deep_view() == parse_of(content@).1,
{
    let lines = split_lines(content);
    let ghost lv = lines.deep_view();
    let n = lines.len();
    let mut sigs: Vec<SignatureStruct> = Vec::new();
    let mut types: Vec<String> = Vec::new();
    let mut i: usize = 0;
    proof {
        assert(sig_views(sigs@) + parse_from(lv, 0).0 =~= parse_from(lv, 0).0);
        assert(types.deep_view() + parse_from(lv, 0).1 =~= parse_from(lv, 0).1);
    }
    while i < n
        invariant
            lv == lines.deep_view(),
            n == lines.len(),
            i <= n + 1,
            parse_from(lv, 0).0 == sig_views(sigs@) + parse_from(lv, i as int).0,
            parse_from(lv, 0).1 == types.deep_view() + parse_from(lv, i as int).1,
        decreases n - i,
    {
        let ghost sigs0 = sig_views(sigs@);
        let ghost types0 = types.deep_view();
        let l = trim_ws(lines[i].as_str());
        proof {
            assert(lv[i as int] == lines@[i as int]@);
            assert(l@ == trim_spec(lv[i as int]));
        }
        if starts_with_str(l, "record ") && !contains_str(l, "-signature-") {
            let name = String::from_str(
                trim_ws(strip_suffix_all(strip_prefix_all(l, "record "), " {")),
            );
            types.push(name);
            i += 1;
            proof {
                assert(types.deep_view() =~= types0 + seq![
                    decl_name(trim_spec(lv[i as int - 1]), "record "@),
                ]);
                assert(parse_from(lv, 0).0 =~= sig_views(sigs@) + parse_from(lv, i as int).0);
                assert(parse_from(lv, 0).1 =~= types.deep_view() + parse_from(lv, i as int).1);
            }
        } else if starts_with_str(l, "variant ") {
            let name = String::from_str(
                trim_ws(strip_suffix_all(strip_prefix_all(l, "variant "), " {")),
            );
            types.push(name);
            i += 1;
            proof {
                assert(types.deep_view() =~= types0 + seq![
                    decl_name(trim_spec(lv[i as int - 1]), "variant "@),
                ]);
                assert(parse_from(lv, 0).0 =~= sig_views(sigs@) + parse_from(lv, i as int).0);
                assert(parse_from(lv, 0).1 =~= types.deep_view() + parse_from(lv, i as int).1);
            }
        } else if starts_with_str(l, "record ") {
            let record_name = String::from_str(
                trim_ws(strip_suffix_all(strip_prefix_all(l, "record "), " {")),
            );
            proof {
                reveal_strlit("-signature-");
            }
            let parts = split_str(record_name.as_str(), "-signature-");
            if parts.len() != 2 {
                i += 1;
                proof {
                    assert(parse_from(lv, 0).0 =~= sig_views(sigs@) + parse_from(lv, i as int).0);
                    assert(parse_from(lv, 0).1 =~= types.deep_view() + parse_from(
                        lv,
                        i as int,
                    ).1);
                }
            } else {
                let function_name = parts[0].clone();
                let attr_type = parts[1].clone();
                let mut fields: Vec<SignatureField> = Vec::new();
                let mut j = i + 1;
                proof {
                    assert(field_views(fields@) + scan_fields(lv, j as int).0 =~= scan_fields(
                        lv,
                        j as int,
                    ).0);
                }
                while j < n && !starts_with_str(trim_ws(lines[j].as_str()), "}")
                    invariant
                        lv == lines.deep_view(),
                        n == lines.len(),
                        i as int + 1 <= j as int <= n,
                        scan_fields(lv, i as int + 1).0 == field_views(fields@) + scan_fields(
                            lv,
                            j as int,
                        ).0,
                        scan_fields(lv, i as int + 1).1 == scan_fields(lv, j as int).1,
                    decreases n - j,
                {
                    let ghost fields0 = field_views(fields@);
                    let fl = trim_ws(lines[j].as_str());
                    proof {
                        assert(lv[j as int] == lines@[j as int]@);
                        assert(fl@ == trim_spec(lv[j as int]));
                    }
                    if starts_with_str(fl, "//") || fl.unicode_len() == 0 {
                    } else {
                        proof {
                            reveal_strlit(":");
                        }
                        let fparts = split_str(fl, ":");
                        if fparts.len() == 2 {
                            let fname = String::from_str(trim_ws(fparts[0].as_str()));
                            let fty = String::from_str(
                                strip_suffix_all(trim_ws(fparts[1].as_str()), ","),
                            );
                            fields.push(SignatureField { name: fname, wit_type: fty });
                            proof {
                                assert(field_views(fields@) =~= fields0 + seq![
                                    SigFieldView {
                                        name: trim_spec(split_sub(trim_spec(lv[j as int]), ":"@)[0]),
                                        wit_type: strip_suffix_all_spec(
                                            trim_spec(split_sub(trim_spec(lv[j as int]), ":"@)[1]),
                                            ","@,
                                        ),
                                    },
                                ]);
                            }
                        }
                    }
                    j += 1;
                    proof {
                        assert(scan_fields(lv, i as int + 1).0 =~= field_views(fields@)
                            + scan_fields(lv, j as int).0);
                    }
                }
                proof {
                    assert(scan_fields(lv, j as int).0 =~= Seq::<SigFieldView>::empty());
                    assert(scan_fields(lv, i as int + 1).0 =~= field_views(fields@));
                    assert(scan_fields(lv, i as int + 1).1 == j as int);
                }
                sigs.push(SignatureStruct { function_name, attr_type, fields });
                let ghost iold = i as int;
                if j < n {
                    i = j + 1;
                } else {
                    i = n;
                }
                proof {
                    let sv = SigView {
                        function_name: split_sub(decl_name(trim_spec(lv[iold]), "record "@),
                            "-signature-"@)[0],
                        attr_type: split_sub(decl_name(trim_spec(lv[iold]), "record "@),
                            "-signature-"@)[1],
                        fields: scan_fields(lv, iold + 1).0,
                    };
                    assert(sig_views(sigs@) =~= sigs0 + seq![sv]);
                    if j < n {
                        assert(parse_from(lv, 0).0 =~= sig_views(sigs@) + parse_from(
                            lv,
                            i as int,
                        ).0);
                        assert(parse_from(lv, 0).1 =~= types.deep_view() + parse_from(
                            lv,
                            i as int,
                        ).1);
                    } else {
                        assert(parse_from(lv, i as int) == parse_from(lv, n as int));
                        assert(parse_from(lv, 0).0 =~= sig_views(sigs@) + parse_from(
                            lv,
                            i as int,
                        ).0);
                        assert(parse_from(lv, 0).1 =~= types.deep_view() + parse_from(
                            lv,
                            i as int,
                        ).1);
                    }
                }
            }
        } else {
            i += 1;
            proof {
                assert(parse_from(lv, 0).0 =~= sig_views(sigs@) + parse_from(lv, i as int).0);
                assert(parse_from(lv, 0).1 =~= types.deep_view() + parse_from(lv, i as int).1);
            }
        }
    }
    proof {
        assert(parse_from(lv, i as int).0 =~= Seq::<SigView>::empty());
        assert(parse_from(lv, i as int).1 =~= Seq::<Seq<char>>::empty());
        assert(sig_views(sigs@) =~= parse_of(content@).0);
        assert(types.deep_view() =~= parse_of(content@).1);
    }
    (sigs, types)
}

} // verus!
