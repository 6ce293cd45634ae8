//! Header assembly: raw `Name: Value` tokens, the cookie and the bearer token
//! become the request's ordered header list.
use vstd::prelude::*;
use vstd::string::*;
use crate::text::{trim, trimmed_range};

verus! {

/// One request header, name and value.
pub struct Header {
    pub name: String,
    pub value: String,
}

impl View for Header {
    type V = (Seq<char>, Seq<char>);

    open spec fn view(&self) -> (Seq<char>, Seq<char>) {
        (self.name@, self.value@)
    }
}

/// `i` is the position of the first colon in `s`.
pub open spec fn first_colon_at(s: Seq<char>, i: int) -> bool {
    &&& 0 <= i < s.len()
    &&& s[i] == ':'
    &&& forall|j: int| 0 <= j < i ==> s[j] != ':'
}

/// What a raw header token stands for: split at its first colon, both sides
/// trimmed, kept only when neither side is then empty. Later colons stay in
/// the value.
pub open spec fn header_of(raw: Seq<char>) -> Option<(Seq<char>, Seq<char>)> {
    if exists|i: int| first_colon_at(raw, i) {
        let i = choose|i: int| first_colon_at(raw, i);
        let name = trim(raw.subrange(0, i));
        let value = trim(raw.subrange(i + 1, raw.len() as int));
        if name.len() > 0 && value.len() > 0 {
            Some((name, value))
        } else {
            None
        }
    } else {
        None
    }
}

/// The headers that a sequence of raw tokens gives, in order; tokens that
/// stand for no header are left out.
pub open spec fn headers_of(raws: Seq<Seq<char>>) -> Seq<(Seq<char>, Seq<char>)>
    decreases raws.len(),
{
    if raws.len() == 0 {
        Seq::empty()
    } else {
        let rest = headers_of(raws.drop_last());
        match header_of(raws.last()) {
            Some(h) => rest.push(h),
            None => rest,
        }
    }
}

/// The `Cookie` header, if a cookie is given.
pub open spec fn cookie_headers(cookie: Option<Seq<char>>) -> Seq<(Seq<char>, Seq<char>)> {
    match cookie {
        Some(c) => seq![("Cookie"@, c)],
        None => Seq::empty(),
    }
}

/// The `Authorization: Bearer <token>` header, if a token is given.
pub open spec fn bearer_headers(token: Option<Seq<char>>) -> Seq<(Seq<char>, Seq<char>)> {
    match token {
        Some(t) => seq![("Authorization"@, "Bearer "@ + t)],
        None => Seq::empty(),
    }
}

/// The request's headers: the cookie, then each raw token that is a header,
/// then the bearer token. Nothing is merged or removed by name.
pub open spec fn request_headers(
    cookie: Option<Seq<char>>,
    raws: Seq<Seq<char>>,
    token: Option<Seq<char>>,
) -> Seq<(Seq<char>, Seq<char>)> {
    cookie_headers(cookie) + headers_of(raws) + bearer_headers(token)
}

/// The view of an optional string.
pub open spec fn opt_view(s: Option<String>) -> Option<Seq<char>> {
    match s {
        Some(t) => Some(t@),
        None => None,
    }
}

/// The views of a sequence of strings.
pub open spec fn seq_view(v: Seq<String>) -> Seq<Seq<char>> {
    v.map_values(|s: String| s@)
}

/// The views of a sequence of headers.
pub open spec fn headers_view(v: Seq<Header>) -> Seq<(Seq<char>, Seq<char>)> {
    v.map_values(|h: Header| h@)
}

/// Splits a raw `Name: Value` token at its first colon and trims both sides;
/// `None` where there is no colon or a side is left empty.
pub fn parse_header(raw: &str) -> (r: Option<Header>)
    ensures
        match r {
            Some(h) => header_of(raw@) == Some(h@),
            None => header_of(raw@) is None,
        },
{
    let n = raw.unicode_len();
    let mut i: usize = 0;
    while i < n && raw.get_char(i) != ':'
        invariant
            n == raw@.len(),
            i <= n,
            forall|j: int| 0 <= j < i ==> raw@[j] != ':',
        decreases n - i,
    {
        i = i + 1;
    }
    if i == n {
        assert(!exists|k: int| first_colon_at(raw@, k));
        return None;
    }
    assert(first_colon_at(raw@, i as int));
    proof {
        let k = choose|k: int| first_colon_at(raw@, k);
        assert(k == i as int);
    }
    let name = trimmed_range(raw, 0, i);
    let value = trimmed_range(raw, i + 1, n);
    if name.unicode_len() > 0 && value.unicode_len() > 0 {
        Some(Header { name, value })
    } else {
        None
    }
}

/// Assembles the request's headers: the cookie, the raw tokens that are
/// headers in their order, and the bearer token, which is added whatever the
/// raw tokens hold.
pub fn build_headers(cookie: &Option<String>, raws: &Vec<String>, token: &Option<String>) -> (r:
    Vec<Header>)
    ensures
        headers_view(r@) == request_headers(opt_view(*cookie), seq_view(raws@), opt_view(*token)),
{
    let mut out: Vec<Header> = Vec::new();
    match cookie {
        Some(c) => {
            out.push(Header { name: String::from_str("Cookie"), value: c.clone() });
        },
        None => {},
    }
    let ghost start = headers_view(out@);
    assert(start =~= cookie_headers(opt_view(*cookie)));
    let mut k: usize = 0;
    while k < raws.len()
        invariant
            k <= raws@.len(),
            start == cookie_headers(opt_view(*cookie)),
            headers_view(out@) == start + headers_of(seq_view(raws@.subrange(0, k as int))),
        decreases raws@.len() - k,
    {
        let ghost before = out@;
        let parsed = parse_header(raws[k].as_str());
        proof {
            let pre = seq_view(raws@.subrange(0, k as int));
            let post = seq_view(raws@.subrange(0, k + 1));
            assert(post.drop_last() =~= pre);
            assert(post.last() == raws@[k as int]@);
        }
        match parsed {
            Some(h) => {
                out.push(h);
                assert(headers_view(out@) =~= headers_view(before).push(h@));
            },
            None => {},
        }
        k = k + 1;
    }
    assert(raws@.subrange(0, raws@.len() as int) =~= raws@);
    match token {
        Some(t) => {
            let ghost before = out@;
            let mut v = String::from_str("Bearer ");
            v.append(t.as_str());
            out.push(Header { name: String::from_str("Authorization"), value: v });
            assert(headers_view(out@) =~= headers_view(before).push(("Authorization"@, "Bearer "@ + t@)));
        },
        None => {},
    }
    assert(headers_view(out@) =~= request_headers(opt_view(*cookie), seq_view(raws@), opt_view(*token)));
    out
}

} // verus!
