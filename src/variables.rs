//! Formatting of variables for output.
use vstd::prelude::*;
use crate::models::{Config, ErrorKind, PrintArgs};
use crate::state::pairs_view;

verus! {

/// The format used when neither the command nor the configuration gives one.
pub const DEFAULT_FORMAT: &'static str = "{name} = \"{value}\"";

/// `s` with each occurrence of `pat` replaced by `rep`, occurrences taken
/// from left to right without overlap.
pub open spec fn replace_spec(s: Seq<char>, pat: Seq<char>, rep: Seq<char>) -> Seq<char>
    decreases s.len(),
{
    if s.len() == 0 {
        s
    } else if 0 < pat.len() <= s.len() && s.take(pat.len() as int) == pat {
        rep + replace_spec(s.skip(pat.len() as int), pat, rep)
    } else {
        seq![s[0]] + replace_spec(s.drop_first(), pat, rep)
    }
}

/// One variable written in `format`: `{name}` is replaced by its name, then
/// `{value}` by its value.
pub open spec fn entry_line(format: Seq<char>, name: Seq<char>, value: Seq<char>) -> Seq<char> {
    replace_spec(replace_spec(format, "{name}"@, name), "{value}"@, value)
}

/// Every variable on a line of its own, in order.
pub open spec fn lines_of(format: Seq<char>, vars: Seq<(Seq<char>, Seq<char>)>) -> Seq<char>
    decreases vars.len(),
{
    if vars.len() == 0 {
        Seq::empty()
    } else {
        lines_of(format, vars.drop_last()) + entry_line(format, vars.last().0, vars.last().1)
            + seq!['\n']
    }
}

/// Whether `pat` occurs in `s` at index `i`.
fn occurs_at(s: &str, n: usize, i: usize, pat: &str, m: usize) -> (r: bool)
    requires
        n == s@.len(),
        m == pat@.len(),
        i <= n,
    ensures
        r == (m <= n - i && s@.skip(i as int).take(m as int) == pat@),
{
    if m > n - i {
        return false;
    }
    let mut j: usize = 0;
    while j < m
        invariant
            n == s@.len(),
            m == pat@.len(),
            i <= n,
            m <= n - i,
            j <= m,
            forall|k: int| 0 <= k < j ==> s@[i + k] == pat@[k],
        decreases m - j,
    {
        if s.get_char(i + j) != pat.get_char(j) {
            assert(s@.skip(i as int).take(m as int)[j as int] != pat@[j as int]);
            return false;
        }
        j = j + 1;
    }
    assert(s@.skip(i as int).take(m as int) =~= pat@);
    true
}

/// `s` with each occurrence of `pat` replaced by `rep`.
pub fn replace_all(s: &str, pat: &str, rep: &str) -> (r: String)
    ensures
        r@ == replace_spec(s@, pat@, rep@),
{
    let n = s.unicode_len();
    let m = pat.unicode_len();
    let mut out = String::new();
    let mut i: usize = 0;
    assert(s@.skip(0) =~= s@);
    assert(out@ + replace_spec(s@, pat@, rep@) =~= replace_spec(s@, pat@, rep@));
    while i < n
        invariant
            n == s@.len(),
            m == pat@.len(),
            i <= n,
            replace_spec(s@, pat@, rep@) == out@ + replace_spec(s@.skip(i as int), pat@, rep@),
        decreases n - i,
    {
        let ghost rest = s@.skip(i as int);
        if m > 0 && occurs_at(s, n, i, pat, m) {
            assert(rest.skip(m as int) =~= s@.skip(i + m));
            out.append(rep);
            i = i + m;
        } else {
            assert(rest.drop_first() =~= s@.skip(i + 1));
            assert(rest[0] == s@[i as int]);
            out.append(s.substring_char(i, i + 1));
            assert(s@.subrange(i as int, i + 1) =~= seq![rest[0]]);
            i = i + 1;
        }
    }
    assert(s@.skip(n as int).len() == 0);
    assert(out@ + s@.skip(n as int) =~= out@);
    out
}

/// One variable written in `format`.
pub fn format_entry(format: &str, name: &str, value: &str) -> (r: String)
    ensures
        r@ == entry_line(format@, name@, value@),
{
    let named = replace_all(format, "{name}", name);
    replace_all(named.as_str(), "{value}", value)
}

/// All variables written in `format`, one line each, in their order.
pub fn print_env(format: &str, vars: &Vec<(String, String)>) -> (r: String)
    ensures
        r@ == lines_of(format@, pairs_view(vars@)),
{
    let mut out = String::new();
    let mut i: usize = 0;
    while i < vars.len()
        invariant
            i <= vars@.len(),
            out@ == lines_of(format@, pairs_view(vars@).take(i as int)),
        decreases vars@.len() - i,
    {
        let line = format_entry(format, vars[i].0.as_str(), vars[i].1.as_str());
        out.append(line.as_str());
        out.append("\n");
        proof {
            reveal_strlit("\n");
            assert(pairs_view(vars@).take(i + 1).drop_last() =~= pairs_view(vars@).take(i as int));
        }
        i = i + 1;
    }
    assert(pairs_view(vars@).take(vars@.len() as int) =~= pairs_view(vars@));
    out
}

/// The format for the print command: the command's own, else the
/// configuration's, else the default.
pub fn print_format(opt: &PrintArgs, config: &Option<Config>) -> (r: String)
    ensures
        r@ == match opt.format {
            Some(f) => f@,
            None => match config {
                Some(c) => match c.print_format {
                    Some(f) => f@,
                    None => DEFAULT_FORMAT@,
                },
                None => DEFAULT_FORMAT@,
            },
        },
{
    match &opt.format {
        Some(f) => f.clone(),
        None => match config {
            Some(c) => match &c.print_format {
                Some(f) => f.clone(),
                None => String::from_str(DEFAULT_FORMAT),
            },
            None => String::from_str(DEFAULT_FORMAT),
        },
    }
}

/// The value after the add command: the current value, if any, then `extra`.
pub fn appended_value(current: Option<String>, extra: &str) -> (r: String)
    ensures
        r@ == match current {
            Some(c) => c@ + extra@,
            None => extra@,
        },
{
    let mut r = match current {
        Some(c) => c,
        None => String::new(),
    };
    r.append(extra);
    r
}

/// What `dotenv_parser::parse_dotenv` reads from a dotenv source: its pairs
/// in the order of the parser's map, or the text of its error.
pub uninterp spec fn dotenv_parse(source: Seq<char>) -> Result<Seq<(Seq<char>, Seq<char>)>, Seq<char>>;

/// Relies on `dotenv_parser::parse_dotenv`: the result depends on the source
/// alone; its map's pairs are handed on in the map's order, its error as text.
#[verifier::external_body]
fn parse_dotenv_source(source: &str) -> (r: Result<Vec<(String, String)>, String>)
    ensures
        match r {
            Ok(v) => dotenv_parse(source@) == Result::<Seq<(Seq<char>, Seq<char>)>, Seq<char>>::Ok(
                pairs_view(v@),
            ),
            Err(e) => dotenv_parse(source@) == Result::<Seq<(Seq<char>, Seq<char>)>, Seq<char>>::Err(
                e@,
            ),
        },
{
    match dotenv_parser::parse_dotenv(source) {
        Ok(map) => Ok(map.into_iter().collect()),
        Err(err) => Err(err.to_string()),
    }
}

/// The variables of a dotenv file's content, in the parser's order; a
/// source that does not parse gives a parsing error with the parser's text.
pub fn parse_env_file(content: &str) -> (r: Result<Vec<(String, String)>, ErrorKind>)
    ensures
        match dotenv_parse(content@) {
            Ok(pairs) => r matches Ok(v) && pairs_view(v@) == pairs,
            Err(text) => r matches Err(ErrorKind::ParsingError(m)) && m@ == text,
        },
{
    match parse_dotenv_source(content) {
        Ok(v) => Ok(v),
        Err(text) => Err(ErrorKind::ParsingError(text)),
    }
}

} // verus!
