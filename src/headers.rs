//! Reading the request options of the command line: the header list
//! `name:value,name:value` and the request that the options describe.
use crate::cli::{CliToolError, CmdArgs, CmdHttpMethod};
use vstd::prelude::*;
use vstd::string::StrSliceExecFns;

verus! {

/// Fields of `s` between the separators seen among its first `n` characters:
/// the fields closed so far and the one still open.
pub open spec fn split_state(s: Seq<char>, sep: char, n: nat) -> (Seq<Seq<char>>, Seq<char>)
    decreases n,
{
    if n == 0 || n > s.len() {
        (Seq::empty(), Seq::empty())
    } else {
        let (done, cur) = split_state(s, sep, (n - 1) as nat);
        if s[n - 1] == sep {
            (done.push(cur), Seq::empty())
        } else {
            (done, cur.push(s[n - 1]))
        }
    }
}

/// The fields of `s` between occurrences of `sep`; there is always at least one.
pub open spec fn split_fields(s: Seq<char>, sep: char) -> Seq<Seq<char>> {
    let (done, cur) = split_state(s, sep, s.len());
    done.push(cur)
}

/// Characters that surround a header name or value and are not part of it.
pub open spec fn is_blank(c: char) -> bool {
    c == ' ' || c == '\t' || c == '\n' || c == '\r' || c == '\x0C'
}

/// The first index at or after `i` that holds no blank, or the length.
pub open spec fn first_kept(s: Seq<char>, i: int) -> int
    decreases s.len() - i,
{
    if i < 0 || i >= s.len() {
        s.len() as int
    } else if !is_blank(s[i]) {
        i
    } else {
        first_kept(s, i + 1)
    }
}

/// One past the last index before `j` that holds no blank, or 0.
pub open spec fn end_kept(s: Seq<char>, j: int) -> int
    decreases j,
{
    if j <= 0 || j > s.len() {
        0
    } else if !is_blank(s[j - 1]) {
        j
    } else {
        end_kept(s, j - 1)
    }
}

/// `s` without its leading and trailing blanks.
pub open spec fn trim_blanks(s: Seq<char>) -> Seq<char> {
    let a = first_kept(s, 0);
    let b = end_kept(s, s.len() as int);
    if a < b {
        s.subrange(a, b)
    } else {
        Seq::empty()
    }
}

/// The header that one `name:value` entry gives: its first two `:`-fields,
/// trimmed; an entry without `:` gives none.
pub open spec fn header_of(entry: Seq<char>) -> Seq<(Seq<char>, Seq<char>)> {
    let f = split_fields(entry, ':');
    if f.len() >= 2 {
        seq![(trim_blanks(f[0]), trim_blanks(f[1]))]
    } else {
        Seq::empty()
    }
}

/// The headers of a list of entries, in order.
pub open spec fn headers_of(entries: Seq<Seq<char>>) -> Seq<(Seq<char>, Seq<char>)>
    decreases entries.len(),
{
    if entries.len() == 0 {
        Seq::empty()
    } else {
        headers_of(entries.drop_last()) + header_of(entries.last())
    }
}

/// The headers that a `,`-separated header list gives.
pub open spec fn parsed_headers(raw: Seq<char>) -> Seq<(Seq<char>, Seq<char>)> {
    headers_of(split_fields(raw, ','))
}

pub open spec fn strings_view(v: Seq<String>) -> Seq<Seq<char>> {
    v.map_values(|x: String| x@)
}

pub open spec fn pairs_view(v: Seq<(String, String)>) -> Seq<(Seq<char>, Seq<char>)> {
    v.map_values(|p: (String, String)| (p.0@, p.1@))
}

/// The fields of `s` between occurrences of `sep`.
pub fn split_on(s: &str, sep: char) -> (r: Vec<String>)
    ensures
        strings_view(r@) == split_fields(s@, sep),
{
    let n = s.unicode_len();
    let mut fields: Vec<String> = Vec::new();
    let mut start: usize = 0;
    let mut i: usize = 0;
    while i < n
        invariant
            n == s@.len(),
            start <= i <= n,
            split_state(s@, sep, i as nat) == (strings_view(fields@), s@.subrange(
                start as int,
                i as int,
            )),
        decreases n - i,
    {
        let c = s.get_char(i);
        if c == sep {
            let field = s.substring_char(start, i).to_owned();
            proof {
                assert(strings_view(fields@.push(field)) =~= strings_view(fields@).push(field@));
            }
            fields.push(field);
            start = i + 1;
        }
        i = i + 1;
        assert(s@.subrange(start as int, i as int) =~= if c == sep {
            Seq::empty()
        } else {
            s@.subrange(start as int, i - 1).push(c)
        });
    }
    let last = s.substring_char(start, n).to_owned();
    proof {
        assert(strings_view(fields@.push(last)) =~= strings_view(fields@).push(last@));
    }
    fields.push(last);
    fields
}

/// `s` without its leading and trailing blanks.
pub fn trim(s: &str) -> (r: String)
    ensures
        r@ == trim_blanks(s@),
{
    let n = s.unicode_len();
    let mut a: usize = 0;
    while a < n && is_blank_char(s.get_char(a))
        invariant
            n == s@.len(),
            a <= n,
            first_kept(s@, 0) == first_kept(s@, a as int),
        decreases n - a,
    {
        a = a + 1;
    }
    let mut b: usize = n;
    while b > 0 && is_blank_char(s.get_char(b - 1))
        invariant
            n == s@.len(),
            b <= n,
            end_kept(s@, n as int) == end_kept(s@, b as int),
        decreases b,
    {
        b = b - 1;
    }
    if a < b {
        s.substring_char(a, b).to_owned()
    } else {
        String::new()
    }
}

fn is_blank_char(c: char) -> (r: bool)
    ensures
        r == is_blank(c),
{
    c == ' ' || c == '\t' || c == '\n' || c == '\r' || c == '\x0C'
}

/// The headers of a `name:value,name:value` list, in order; entries without
/// `:` are left out, and names and values lose their surrounding blanks.
pub fn parse_headers(raw: &str) -> (r: Vec<(String, String)>)
    ensures
        pairs_view(r@) == parsed_headers(raw@),
{
    let entries = split_on(raw, ',');
    let mut out: Vec<(String, String)> = Vec::new();
    let mut i: usize = 0;
    while i < entries.len()
        invariant
            i <= entries@.len(),
            strings_view(entries@) == split_fields(raw@, ','),
            pairs_view(out@) == headers_of(strings_view(entries@).take(i as int)),
        decreases entries.len() - i,
    {
        let fields = split_on(entries[i].as_str(), ':');
        let ghost before = out@;
        if fields.len() >= 2 {
            let name = trim(fields[0].as_str());
            let value = trim(fields[1].as_str());
            out.push((name, value));
        }
        proof {
            let es = strings_view(entries@);
            assert(es.take(i + 1).drop_last() =~= es.take(i as int));
            assert(es.take(i + 1).last() == entries@[i as int]@);
            assert(pairs_view(out@) =~= pairs_view(before) + header_of(entries@[i as int]@));
        }
        i = i + 1;
    }
    proof {
        assert(strings_view(entries@).take(i as int) =~= strings_view(entries@));
    }
    out
}

/// A request as the command line describes it.
pub struct RequestSpec {
    pub url: String,
    pub method: CmdHttpMethod,
    pub headers: Vec<(String, String)>,
    pub body: String,
}

/// The request that the options describe: a URL is required; the method is GET
/// unless given; the headers are read from the header list; the body is empty
/// unless given.
pub fn request_from_args(args: CmdArgs) -> (r: Result<RequestSpec, CliToolError>)
    ensures
        args.url is None <==> r is Err,
        r matches Err(e) ==> e == CliToolError::MissingUrl,
        r matches Ok(spec) ==> {
            &&& spec.url@ == args.url->Some_0@
            &&& spec.method == (match args.method {
                Some(m) => m,
                None => CmdHttpMethod::Get,
            })
            &&& pairs_view(spec.headers@) == (match args.headers {
                Some(h) => parsed_headers(h@),
                None => Seq::empty(),
            })
            &&& spec.body@ == (match args.body {
                Some(b) => b@,
                None => Seq::<char>::empty(),
            })
        },
{
    let url = match args.url {
        Some(url) => url,
        None => return Err(CliToolError::MissingUrl),
    };
    let method = match args.method {
        Some(m) => m,
        None => CmdHttpMethod::Get,
    };
    let headers = match args.headers {
        Some(h) => parse_headers(h.as_str()),
        None => Vec::new(),
    };
    let body = match args.body {
        Some(b) => b,
        None => String::new(),
    };
    Ok(RequestSpec { url, method, headers, body })
}

} // verus!
