//! The computing part of endpoint generation: an endpoint's function name and
//! the URL that one call of it requests, both read off its URL template.

use vstd::prelude::*;
use vstd::string::*;
use crate::endpoints::HttpMethod;
use crate::path::{PathTemplateError, parse_template, template_pieces};
use crate::text::strings_view;

verus! {

pub open spec fn method_word(m: HttpMethod) -> Seq<char> {
    match m {
        HttpMethod::Get => "get"@,
        HttpMethod::Post => "post"@,
        HttpMethod::Put => "put"@,
        HttpMethod::Delete => "delete"@,
        HttpMethod::Head => "head"@,
    }
}

/// `_name` for each placeholder name from `k` on.
pub open spec fn suffixes(params: Seq<Seq<char>>, k: int) -> Seq<char>
    decreases params.len() - k,
{
    if k < 0 || k >= params.len() {
        seq![]
    } else {
        "_"@ + params[k] + suffixes(params, k + 1)
    }
}

/// The text of a template with `args` put in place of its placeholders, from
/// literal piece `k` on: the literal, the argument, and so on, ending with the
/// trailing literal.
pub open spec fn interleave(lits: Seq<Seq<char>>, args: Seq<Seq<char>>, k: int) -> Seq<char>
    decreases lits.len() - k,
{
    if k < 0 || k >= lits.len() {
        seq![]
    } else if k < args.len() {
        lits[k] + args[k] + interleave(lits, args, k + 1)
    } else {
        lits[k] + interleave(lits, args, k + 1)
    }
}

fn method_str(m: HttpMethod) -> (r: &'static str)
    ensures
        r@ == method_word(m),
{
    match m {
        HttpMethod::Get => "get",
        HttpMethod::Post => "post",
        HttpMethod::Put => "put",
        HttpMethod::Delete => "delete",
        HttpMethod::Head => "head",
    }
}

/// The name of the function generated for an endpoint: the method, then each
/// placeholder of the URL template, joined by `_` (`get_index_type_id`).
pub fn endpoint_name(method: HttpMethod, template: &str) -> (r: Result<String, PathTemplateError>)
    ensures
        match template_pieces(template@) {
            Some((l, p)) => r matches Ok(n) && n@ == method_word(method) + suffixes(p, 0),
            None => r matches Err(e) && e.template@ == template@,
        },
{
    match parse_template(template) {
        Ok((_, params)) => {
            let ghost p = strings_view(params@);
            let mut name = String::from_str(method_str(method));
            let mut k: usize = 0;
            while k < params.len()
                invariant
                    p == strings_view(params@),
                    k <= params@.len(),
                    name@ + suffixes(p, k as int) == method_word(method) + suffixes(p, 0),
                decreases params@.len() - k,
            {
                let ghost before = name@;
                name.append("_");
                name.append(params[k].as_str());
                assert(before + suffixes(p, k as int) =~= name@ + suffixes(p, k + 1));
                k = k + 1;
            }
            assert(name@ + suffixes(p, k as int) =~= name@);
            Ok(name)
        },
        Err(e) => Err(e),
    }
}

/// Why a template could not be filled.
#[derive(Debug)]
pub enum FillError {
    /// The template is malformed.
    Template(PathTemplateError),
    /// The template has `expected` placeholders but `given` arguments came.
    ArgCount { expected: usize, given: usize },
}

/// The URL of one call of an endpoint: `base`, then the template with each
/// placeholder replaced by the argument at the same position.
pub fn fill_template(base: &str, template: &str, args: &Vec<String>) -> (r: Result<
    String,
    FillError,
>)
    ensures
        match template_pieces(template@) {
            Some((l, p)) => if p.len() == args@.len() {
                r matches Ok(u) && u@ == base@ + interleave(l, strings_view(args@), 0)
            } else {
                r matches Err(FillError::ArgCount { expected, given }) && expected == p.len()
                    && given == args@.len()
            },
            None => r matches Err(FillError::Template(e)) && e.template@ == template@,
        },
{
    match parse_template(template) {
        Ok((lits, params)) => {
            if params.len() != args.len() {
                return Err(FillError::ArgCount { expected: params.len(), given: args.len() });
            }
            let ghost l = strings_view(lits@);
            let ghost a = strings_view(args@);
            let mut url = String::from_str(base);
            let mut k: usize = 0;
            while k < lits.len()
                invariant
                    l == strings_view(lits@),
                    a == strings_view(args@),
                    k <= lits@.len(),
                    url@ + interleave(l, a, k as int) == base@ + interleave(l, a, 0),
                decreases lits@.len() - k,
            {
                let ghost before = url@;
                url.append(lits[k].as_str());
                if k < args.len() {
                    url.append(args[k].as_str());
                }
                assert(before + interleave(l, a, k as int) =~= url@ + interleave(l, a, k + 1));
                k = k + 1;
            }
            assert(url@ + interleave(l, a, k as int) =~= url@);
            Ok(url)
        },
        Err(e) => Err(FillError::Template(e)),
    }
}

/// Path segments joined by `/`.
pub open spec fn slash_join(p: Seq<Seq<char>>) -> Seq<char>
    decreases p.len(),
{
    if p.len() == 0 {
        seq![]
    } else if p.len() == 1 {
        p[0]
    } else {
        slash_join(p.drop_last()) + "/"@ + p.last()
    }
}

fn join_segments(p: &Vec<String>, n: usize) -> (r: String)
    requires
        n <= p@.len(),
    ensures
        r@ == slash_join(strings_view(p@).subrange(0, n as int)),
{
    let ghost v = strings_view(p@);
    let mut s = String::new();
    if n == 0 {
        assert(v.subrange(0, 0) =~= Seq::<Seq<char>>::empty());
        return s;
    }
    s.append(p[0].as_str());
    assert(v.subrange(0, 1) =~= seq![v[0]]);
    let mut k: usize = 1;
    while k < n
        invariant
            v == strings_view(p@),
            1 <= k <= n,
            n <= p@.len(),
            s@ == slash_join(v.subrange(0, k as int)),
        decreases n - k,
    {
        s.append("/");
        s.append(p[k].as_str());
        assert(v.subrange(0, k + 1).drop_last() =~= v.subrange(0, k as int));
        k = k + 1;
    }
    s
}

/// Where the source of one endpoint goes.
pub struct ModuleFile {
    /// The directory of the file.
    pub dir_path: String,
    /// The file itself.
    pub file_path: String,
    /// The file is its directory's `mod.rs`.
    pub is_mod: bool,
    /// The line that declares the file in its directory's `mod.rs`, when it
    /// is not that file itself.
    pub mod_line: Option<String>,
}

/// Places an endpoint's source under `dest_dir` by its module path: a path of
/// one segment or none is a directory's `mod.rs`; a longer path ends in the
/// file's name.
pub fn module_file(dest_dir: &str, path: &Vec<String>) -> (r: ModuleFile)
    ensures
        ({
            let p = strings_view(path@);
            if p.len() <= 1 {
                &&& r.is_mod
                &&& r.dir_path@ == dest_dir@ + "/"@ + slash_join(p)
                &&& r.file_path@ == r.dir_path@ + "/mod.rs"@
                &&& r.mod_line is None
            } else {
                &&& !r.is_mod
                &&& r.dir_path@ == dest_dir@ + "/"@ + slash_join(p.drop_last())
                &&& r.file_path@ == r.dir_path@ + "/"@ + p.last() + ".rs"@
                &&& r.mod_line matches Some(l) && l@ == "pub mod "@ + p.last() + ";\n"@
            }
        }),
{
    let ghost p = strings_view(path@);
    let n = path.len();
    let is_mod = n <= 1;
    let dirs = if is_mod {
        n
    } else {
        n - 1
    };
    let joined = join_segments(path, dirs);
    proof {
        if is_mod {
            assert(p.subrange(0, n as int) =~= p);
        } else {
            assert(p.subrange(0, dirs as int) =~= p.drop_last());
        }
    }
    let mut dir_path = String::from_str(dest_dir);
    dir_path.append("/");
    dir_path.append(joined.as_str());
    let mut file_path = dir_path.clone();
    if is_mod {
        file_path.append("/mod.rs");
        ModuleFile { dir_path, file_path, is_mod, mod_line: None }
    } else {
        let file = path[n - 1].as_str();
        file_path.append("/");
        file_path.append(file);
        file_path.append(".rs");
        let mut line = String::from_str("pub mod ");
        line.append(file);
        line.append(";\n");
        ModuleFile { dir_path, file_path, is_mod, mod_line: Some(line) }
    }
}

} // verus!
