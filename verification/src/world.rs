//! The world/interface resolver: finds the world declaration among the
//! interface source files, prefers a `types-` prefixed world name, and
//! collects the world's import statements.

use vstd::prelude::*;

use crate::strutil::contains_str;
use crate::strutil::contains_sub;
use crate::strutil::lines_of;
use crate::strutil::second_token;
use crate::strutil::second_token_of;
use crate::strutil::split_lines;
use crate::strutil::starts_with_str;
use crate::strutil::str_eq;
use crate::strutil::strip_prefix_all;
use crate::strutil::strip_prefix_all_spec;
use crate::strutil::strip_suffix_all;
use crate::strutil::strip_suffix_all_spec;
use crate::strutil::trim_spec;
use crate::strutil::trim_ws;

verus! {

/// One interface source file handed to the generator: its file name
/// (with extension) and its full text.
pub struct SourceFile {
    pub name: String,
    pub content: String,
}

/// The mathematical shape of a source file.
pub struct FileView {
    pub name: Seq<char>,
    pub content: Seq<char>,
}

impl View for SourceFile {
    type V = FileView;

    open spec fn view(&self) -> FileView {
        FileView { name: self.name@, content: self.content@ }
    }
}

/// The views of a sequence of source files.
pub open spec fn file_views(s: Seq<SourceFile>) -> Seq<FileView> {
    s.map_values(|f: SourceFile| f@)
}

/// The resolved world: its name, whether the name is a plain one kept
/// only as a fallback, and the interfaces the world imports.
pub struct World {
    pub name: String,
    pub plain_fallback: bool,
    pub imports: Vec<String>,
}

/// Whether a file's text declares a world, as the scanners decide it:
/// the world keyword occurs somewhere in the text.
pub open spec fn is_world_file(c: Seq<char>) -> bool {
    contains_sub(c, "world "@)
}

/// The first line whose trimmed text opens with the world keyword,
/// already trimmed, if any.
pub open spec fn first_world_line(lines: Seq<Seq<char>>, i: int) -> Option<Seq<char>>
    decreases lines.len() - i,
{
    if i < 0 || i >= lines.len() {
        None
    } else if ("world "@).is_prefix_of(trim_spec(lines[i])) {
        Some(trim_spec(lines[i]))
    } else {
        first_world_line(lines, i + 1)
    }
}

/// The world name a file declares: the second token of its first
/// world line, a trailing block opener stripped; only files whose
/// text mentions the world keyword are considered.
pub open spec fn world_candidate_of(content: Seq<char>) -> Option<Seq<char>> {
    if contains_sub(content, "world "@) {
        match first_world_line(lines_of(content), 0) {
            Some(l) => match second_token_of(l) {
                Some(tok) => Some(strip_suffix_all_spec(tok, " {"@)),
                None => None,
            },
            None => None,
        }
    } else {
        None
    }
}

/// The last plain and the last `types-` prefixed world candidate over
/// the files, in file order.
pub open spec fn classify_worlds(files: Seq<FileView>) -> (Option<Seq<char>>, Option<Seq<char>>)
    decreases files.len(),
{
    if files.len() == 0 {
        (None::<Seq<char>>, None::<Seq<char>>)
    } else {
        let prev = classify_worlds(files.drop_last());
        match world_candidate_of(files.last().content) {
            Some(nm) => if ("types-"@).is_prefix_of(nm) {
                (prev.0, Some(nm))
            } else {
                (Some(nm), prev.1)
            },
            None => prev,
        }
    }
}

/// Whether some file carries exactly this name.
pub open spec fn exists_file(files: Seq<FileView>, name: Seq<char>) -> bool {
    exists|k: int| 0 <= k < files.len() && files[k].name == name
}

/// The resolved world name and whether it is a plain-name fallback: a
/// `types-` candidate wins; else a plain candidate is promoted to its
/// `types-` form when a file of that name exists; else the plain
/// candidate stands, marked as fallback; else there is no world.
pub open spec fn resolved_world_of(files: Seq<FileView>) -> Option<(Seq<char>, bool)> {
    let c = classify_worlds(files);
    match c.1 {
        Some(t) => Some((t, false)),
        None => match c.0 {
            Some(r) => if exists_file(files, "types-"@ + r + ".wit"@) {
                Some(("types-"@ + r, false))
            } else {
                Some((r, true))
            },
            None => None,
        },
    }
}

/// Extracts the world name one file declares, if any.
fn world_candidate(content: &str) -> (r: Option<String>)
    ensures
        match r {
            Some(nm) => world_candidate_of(content@) == Some(nm@),
            None => world_candidate_of(content@) is None,
        },
{
    if !contains_str(content, "world ") {
        return None;
    }
    let lines = split_lines(content);
    let ghost lv = lines.deep_view();
    let n = lines.len();
    let mut i: usize = 0;
    while i < n && !starts_with_str(trim_ws(lines[i].as_str()), "world ")
        invariant
            lv == lines.deep_view(),
            n == lines.len(),
            i <= n,
            first_world_line(lv, 0) == first_world_line(lv, i as int),
        decreases n - i,
    {
        i += 1;
    }
    if i < n {
        let l = trim_ws(lines[i].as_str());
        proof {
            assert(first_world_line(lv, i as int) == Some(trim_spec(lv[i as int])));
            assert(l@ == trim_spec(lv[i as int]));
        }
        match second_token(l) {
            Some(tok) => Some(String::from_str(strip_suffix_all(tok.as_str(), " {"))),
            None => None,
        }
    } else {
        None
    }
}

/// Resolves the world over all interface files, or reports that none
/// declares one; also collects the world imports.
pub fn resolve_world(files: &Vec<SourceFile>) -> (r: Option<World>)
    ensures
        match r {
            Some(w) => resolved_world_of(file_views(files@)) == Some((w.name@, w.plain_fallback))
                && w.imports.deep_view() == imports_of(file_views(files@)),
            None => resolved_world_of(file_views(files@)) is None,
        },
{
    let ghost fvs = file_views(files@);
    let n = files.len();
    let mut regular: Option<String> = None;
    let mut types_found: Option<String> = None;
    let mut k: usize = 0;
    proof {
        assert(fvs.take(0) =~= Seq::<FileView>::empty());
    }
    while k < n
        invariant
            fvs == file_views(files@),
            n == files.len(),
            fvs.len() == n,
            k <= n,
            classify_worlds(fvs.take(k as int)) == (
                match regular {
                    Some(ref s) => Some(s@),
                    None => None::<Seq<char>>,
                },
                match types_found {
                    Some(ref s) => Some(s@),
                    None => None::<Seq<char>>,
                },
            ),
        decreases n - k,
    {
        proof {
            assert(fvs.take(k as int + 1).drop_last() =~= fvs.take(k as int));
            assert(fvs.take(k as int + 1).last() == fvs[k as int]);
            assert(fvs[k as int] == files@[k as int]@);
        }
        match world_candidate(files[k].content.as_str()) {
            Some(nm) => {
                if starts_with_str(nm.as_str(), "types-") {
                    types_found = Some(nm);
                } else {
                    regular = Some(nm);
                }
            },
            None => {},
        }
        k += 1;
    }
    proof {
        assert(fvs.take(n as int) =~= fvs);
    }
    let imports = find_world_imports(files);
    match types_found {
        Some(t) => Some(World { name: t, plain_fallback: false, imports }),
        None => match regular {
            Some(rn) => {
                let mut target = String::from_str("types-");
                target.append(rn.as_str());
                target.append(".wit");
                let mut k2: usize = 0;
                let mut found = false;
                while k2 < n
                    invariant
                        fvs == file_views(files@),
                        n == files.len(),
                        fvs.len() == n,
                        k2 <= n,
                        found == exists|j: int|
                            0 <= j < k2 && fvs[j].name == target@,
                    decreases n - k2,
                {
                    proof {
                        assert(fvs[k2 as int] == files@[k2 as int]@);
                    }
                    if str_eq(files[k2].name.as_str(), target.as_str()) {
                        found = true;
                    }
                    k2 += 1;
                }
                if found {
                    let mut full = String::from_str("types-");
                    full.append(rn.as_str());
                    proof {
                        assert(full@ =~= "types-"@ + rn@);
                        assert(target@ =~= "types-"@ + rn@ + ".wit"@);
                    }
                    Some(World { name: full, plain_fallback: false, imports })
                } else {
                    proof {
                        assert(target@ =~= "types-"@ + rn@ + ".wit"@);
                        assert(!exists_file(fvs, "types-"@ + rn@ + ".wit"@));
                    }
                    Some(World { name: rn, plain_fallback: true, imports })
                }
            },
            None => None,
        },
    }
}

/// The import targets declared on the lines from `i` on: every line
/// whose trimmed text opens with the import keyword and closes with
/// the statement terminator, the keyword and terminator stripped and
/// the middle trimmed.
pub open spec fn import_lines(lines: Seq<Seq<char>>, i: int) -> Seq<Seq<char>>
    decreases lines.len() - i,
{
    if i < 0 || i >= lines.len() {
        Seq::<Seq<char>>::empty()
    } else {
        let l = trim_spec(lines[i]);
        let rest = import_lines(lines, i + 1);
        if ("import "@).is_prefix_of(l) && (";"@).is_suffix_of(l) {
            seq![trim_spec(strip_suffix_all_spec(strip_prefix_all_spec(l, "import "@), ";"@))]
                + rest
        } else {
            rest
        }
    }
}

/// The import targets of one file, counted only when the file
/// mentions the world keyword.
pub open spec fn imports_of_content(c: Seq<char>) -> Seq<Seq<char>> {
    if contains_sub(c, "world "@) {
        import_lines(lines_of(c), 0)
    } else {
        Seq::<Seq<char>>::empty()
    }
}

/// The import targets over all files, in file order.
pub open spec fn imports_of(files: Seq<FileView>) -> Seq<Seq<char>>
    decreases files.len(),
{
    if files.len() == 0 {
        Seq::<Seq<char>>::empty()
    } else {
        imports_of(files.drop_last()) + imports_of_content(files.last().content)
    }
}

/// Collects the import targets of one file's text.
fn imports_in_content(content: &str) -> (r: Vec<String>)
    ensures
        r.deep_view() == imports_of_content(content@),
{
    let mut out: Vec<String> = Vec::new();
    if !contains_str(content, "world ") {
        proof {
            assert(out.deep_view() =~= imports_of_content(content@));
        }
        return out;
    }
    let lines = split_lines(content);
    let ghost lv = lines.deep_view();
    let n = lines.len();
    let mut i: usize = 0;
    proof {
        assert(out.deep_view() + import_lines(lv, 0) =~= import_lines(lv, 0));
    }
    while i < n
        invariant
            lv == lines.deep_view(),
            n == lines.len(),
            i <= n,
            import_lines(lv, 0) == out.deep_view() + import_lines(lv, i as int),
        decreases n - i,
    {
        let ghost out0 = out.deep_view();
        let l = trim_ws(lines[i].as_str());
        proof {
            assert(lv[i as int] == lines@[i as int]@);
            assert(l@ == trim_spec(lv[i as int]));
        }
        if starts_with_str(l, "import ") && crate::strutil::ends_with_str(l, ";") {
            let target = String::from_str(
                trim_ws(strip_suffix_all(strip_prefix_all(l, "import "), ";")),
            );
            out.push(target);
            proof {
                assert(out.deep_view() =~= out0 + seq![
                    trim_spec(
                        strip_suffix_all_spec(
                            strip_prefix_all_spec(trim_spec(lv[i as int]), "import "@),
                            ";"@,
                        ),
                    ),
                ]);
            }
        }
        i += 1;
        proof {
            assert(import_lines(lv, 0) =~= out.deep_view() + import_lines(lv, i as int));
        }
    }
    proof {
        assert(out.deep_view() =~= imports_of_content(content@));
    }
    out
}


/// Collects the world import statements over all files.
pub fn find_world_imports(files: &Vec<SourceFile>) -> (r: Vec<String>)
    ensures
        r.deep_view() == imports_of(file_views(files@)),
{
    let ghost fvs = file_views(files@);
    let n = files.len();
    let mut out: Vec<String> = Vec::new();
    let mut k: usize = 0;
    proof {
        assert(imports_of(fvs.take(0)) =~= Seq::<Seq<char>>::empty());
        assert(out.deep_view() =~= imports_of(fvs.take(0)));
    }
    while k < n
        invariant
            fvs == file_views(files@),
            n == files.len(),
            fvs.len() == n,
            k <= n,
            out.deep_view() == imports_of(fvs.take(k as int)),
        decreases n - k,
    {
        let ghost out0 = out.deep_view();
        proof {
            assert(fvs.take(k as int + 1).drop_last() =~= fvs.take(k as int));
            assert(fvs.take(k as int + 1).last() == fvs[k as int]);
            assert(fvs[k as int] == files@[k as int]@);
        }
        let mut more = imports_in_content(files[k].content.as_str());
        let ghost morev = more.deep_view();
        out.append(&mut more);
        k += 1;
        proof {
            assert(out.deep_view() =~= out0 + morev);
            assert(out.deep_view() =~= imports_of(fvs.take(k as int)));
        }
    }
    proof {
        assert(fvs.take(n as int) =~= fvs);
    }
    out
}

} // verus!
