//! Parsing of URL templates such as `/{index}/_alias/{name}`.
//!
//! A template is a run of literal text and `{name}` placeholders. Literal text
//! holds no brace, a placeholder name holds at least one character and no brace.
//! Anything else is rejected with a [`PathTemplateError`].

use vstd::prelude::*;
use vstd::string::*;
use crate::text::strings_view;

verus! {

/// A URL template whose braces do not balance, or that holds an empty or
/// nested placeholder.
#[derive(Debug)]
pub struct PathTemplateError {
    pub template: String,
}

/// Reads `s` from position `i`. `in_param` says whether a placeholder is open;
/// the current piece started at `start`; `lits` and `params` are the pieces
/// read so far. The result is the literal pieces (one before each placeholder,
/// and the trailing one) and the placeholder names.
pub open spec fn scan(
    s: Seq<char>,
    i: int,
    in_param: bool,
    start: int,
    lits: Seq<Seq<char>>,
    params: Seq<Seq<char>>,
) -> Option<(Seq<Seq<char>>, Seq<Seq<char>>)>
    decreases s.len() - i,
{
    if i >= s.len() {
        if in_param {
            None
        } else {
            Some((lits.push(s.subrange(start, s.len() as int)), params))
        }
    } else if !in_param {
        if s[i] == '{' {
            scan(s, i + 1, true, i + 1, lits.push(s.subrange(start, i)), params)
        } else if s[i] == '}' {
            None
        } else {
            scan(s, i + 1, false, start, lits, params)
        }
    } else {
        if s[i] == '}' {
            if start == i {
                None
            } else {
                scan(s, i + 1, false, i + 1, lits, params.push(s.subrange(start, i)))
            }
        } else if s[i] == '{' {
            None
        } else {
            scan(s, i + 1, true, start, lits, params)
        }
    }
}

/// The pieces of a template: its literal segments (as many as placeholders, plus
/// the trailing one, which may be empty) and its placeholder names, or `None`
/// when the template is malformed.
pub open spec fn template_pieces(s: Seq<char>) -> Option<(Seq<Seq<char>>, Seq<Seq<char>>)> {
    scan(s, 0, false, 0, seq![], seq![])
}

/// The literal segments reported to callers: an empty trailing segment (a
/// template that ends on `}`) is left out, a non-empty one is kept.
pub open spec fn reported_literals(lits: Seq<Seq<char>>) -> Seq<Seq<char>> {
    if lits.len() > 0 && lits.last().len() == 0 {
        lits.drop_last()
    } else {
        lits
    }
}

fn piece(s: &str, from: usize, to: usize) -> (r: String)
    requires
        from <= to <= s@.len(),
    ensures
        r@ == s@.subrange(from as int, to as int),
{
    String::from_str(s.substring_char(from, to))
}

/// Splits a template into its literal pieces and placeholder names.
pub(crate) fn parse_template(url: &str) -> (r: Result<(Vec<String>, Vec<String>), PathTemplateError>)
    ensures
        match template_pieces(url@) {
            Some((l, p)) => r is Ok && strings_view(r->Ok_0.0@) == l && strings_view(r->Ok_0.1@)
                == p,
            None => r is Err && r->Err_0.template@ == url@,
        },
{
    let n = url.unicode_len();
    let mut lits: Vec<String> = Vec::new();
    let mut params: Vec<String> = Vec::new();
    let mut in_param = false;
    let mut start: usize = 0;
    let mut i: usize = 0;
    assert(strings_view(lits@) =~= seq![]);
    assert(strings_view(params@) =~= seq![]);
    while i < n
        invariant
            n == url@.len(),
            start <= i <= n,
            template_pieces(url@) == scan(
                url@,
                i as int,
                in_param,
                start as int,
                strings_view(lits@),
                strings_view(params@),
            ),
        decreases n - i,
    {
        let c = url.get_char(i);
        if !in_param {
            if c == '{' {
                let ghost old_lits = lits@;
                lits.push(piece(url, start, i));
                assert(strings_view(lits@) == strings_view(old_lits).push(
                    url@.subrange(start as int, i as int),
                ));
                in_param = true;
                start = i + 1;
            } else if c == '}' {
                return Err(PathTemplateError { template: String::from_str(url) });
            }
        } else {
            if c == '}' {
                if start == i {
                    return Err(PathTemplateError { template: String::from_str(url) });
                }
                let ghost old_params = params@;
                params.push(piece(url, start, i));
                assert(strings_view(params@) == strings_view(old_params).push(
                    url@.subrange(start as int, i as int),
                ));
                in_param = false;
                start = i + 1;
            } else if c == '{' {
                return Err(PathTemplateError { template: String::from_str(url) });
            }
        }
        i = i + 1;
    }
    if in_param {
        return Err(PathTemplateError { template: String::from_str(url) });
    }
    let ghost old_lits = lits@;
    lits.push(piece(url, start, n));
    assert(strings_view(lits@) == strings_view(old_lits).push(
        url@.subrange(start as int, n as int),
    ));
    Ok((lits, params))
}

/// Finds the placeholder names of a URL template, left to right.
pub fn parse_path_params(url: &str) -> (r: Result<Vec<String>, PathTemplateError>)
    ensures
        match template_pieces(url@) {
            Some((l, p)) => r is Ok && strings_view(r->Ok_0@) == p,
            None => r is Err && r->Err_0.template@ == url@,
        },
{
    match parse_template(url) {
        Ok((_, params)) => Ok(params),
        Err(e) => Err(e),
    }
}

/// Finds the literal segments of a URL template: the text before each
/// placeholder, then the text after the last one when there is any.
pub fn parse_path_parts(url: &str) -> (r: Result<Vec<String>, PathTemplateError>)
    ensures
        match template_pieces(url@) {
            Some((l, p)) => r is Ok && strings_view(r->Ok_0@) == reported_literals(l),
            None => r is Err && r->Err_0.template@ == url@,
        },
{
    match parse_template(url) {
        Ok((lits, _)) => {
            let mut lits = lits;
            let k = lits.len();
            if k > 0 && lits[k - 1].unicode_len() == 0 {
                let ghost before = lits@;
                lits.pop();
                assert(strings_view(lits@) == strings_view(before).drop_last());
            }
            Ok(lits)
        },
        Err(e) => Err(e),
    }
}

} // verus!
