//! Media URLs: the public `/media/{id}/` route of a stored asset, and the rewrite of
//! `/static/{name}` references in page markup to those routes.

use vstd::prelude::*;
use crate::text::{chars_to_string, replace_all, replace_chars, str_chars};

verus! {

broadcast use vstd::string::group_string_axioms;

/// The character of a decimal digit `d` (`0 <= d < 10`).
pub open spec fn digit_char(d: int) -> char {
    if d == 0 { '0' }
    else if d == 1 { '1' }
    else if d == 2 { '2' }
    else if d == 3 { '3' }
    else if d == 4 { '4' }
    else if d == 5 { '5' }
    else if d == 6 { '6' }
    else if d == 7 { '7' }
    else if d == 8 { '8' }
    else { '9' }
}

/// Decimal digits of a natural number, most significant first, without leading zeros.
pub open spec fn nat_decimal(n: nat) -> Seq<char>
    decreases n,
{
    if n < 10 {
        seq![digit_char(n as int)]
    } else {
        nat_decimal(n / 10).push(digit_char((n % 10) as int))
    }
}

/// Decimal text of an integer, as `{}` formats it: a leading `-` for negative numbers.
pub open spec fn decimal(n: int) -> Seq<char> {
    if n < 0 {
        seq!['-'] + nat_decimal((-n) as nat)
    } else {
        nat_decimal(n as nat)
    }
}

/// `/media/{id}/`: the public route under which the website serves a stored asset.
pub open spec fn media_url(id: int) -> Seq<char> {
    seq!['/', 'm', 'e', 'd', 'i', 'a', '/'] + decimal(id) + seq!['/']
}

/// `/static/`: the prefix under which pages reference seeded static assets.
pub open spec fn static_prefix() -> Seq<char> {
    seq!['/', 's', 't', 'a', 't', 'i', 'c', '/']
}

/// `/static/{name}`: how markup refers to the static asset called `name`, and the path
/// of the alias route seeded for it.
pub open spec fn static_ref(name: Seq<char>) -> Seq<char> {
    static_prefix() + name
}

/// The character views of `(name, url)` pairs.
pub open spec fn pairs_view(urls: Seq<(String, String)>) -> Seq<(Seq<char>, Seq<char>)> {
    urls.map_values(|p: (String, String)| (p.0@, p.1@))
}

/// `html` after replacing, for each `(name, url)` pair in order, every occurrence of
/// `/static/{name}` by `url`.
pub open spec fn media_rewrite(html: Seq<char>, urls: Seq<(Seq<char>, Seq<char>)>) -> Seq<char>
    decreases urls.len(),
{
    if urls.len() == 0 {
        html
    } else {
        replace_all(
            media_rewrite(html, urls.drop_last()),
            static_ref(urls.last().0),
            urls.last().1,
        )
    }
}

fn digit(d: u64) -> (c: char)
    requires
        d < 10,
    ensures
        c == digit_char(d as int),
{
    if d == 0 { '0' }
    else if d == 1 { '1' }
    else if d == 2 { '2' }
    else if d == 3 { '3' }
    else if d == 4 { '4' }
    else if d == 5 { '5' }
    else if d == 6 { '6' }
    else if d == 7 { '7' }
    else if d == 8 { '8' }
    else { '9' }
}

fn push_nat_decimal(out: &mut Vec<char>, n: u64)
    ensures
        final(out)@ == old(out)@ + nat_decimal(n as nat),
    decreases n,
{
    if n >= 10 {
        push_nat_decimal(out, n / 10);
    }
    out.push(digit(n % 10));
}

fn push_str(out: &mut Vec<char>, s: &str)
    ensures
        final(out)@ == old(out)@ + s@,
{
    let chars = str_chars(s);
    let mut i: usize = 0;
    let ghost before = out@;
    while i < chars.len()
        invariant
            i <= chars.len(),
            chars@ == s@,
            out@ == before + chars@.take(i as int),
        decreases chars.len() - i,
    {
        out.push(chars[i]);
        assert(chars@.take(i + 1) == chars@.take(i as int).push(chars@[i as int]));
        i = i + 1;
    }
    assert(chars@.take(chars.len() as int) == chars@);
}

/// `/media/{id}/`, the public asset route of the vnode `id`.
pub fn public_asset_url(id: i64) -> (url: String)
    ensures
        url@ == media_url(id as int),
{
    let mut out: Vec<char> = Vec::new();
    proof {
        reveal_strlit("/media/");
    }
    push_str(&mut out, "/media/");
    if id < 0 {
        out.push('-');
        let magnitude: u64 = (0i128 - id as i128) as u64;
        push_nat_decimal(&mut out, magnitude);
    } else {
        push_nat_decimal(&mut out, id as u64);
    }
    out.push('/');
    assert(out@ =~= media_url(id as int));
    chars_to_string(&out)
}

/// `/static/{name}`, the path under which markup references the static asset `name`.
pub fn static_route_path(name: &str) -> (path: String)
    ensures
        path@ == static_ref(name@),
{
    let mut out: Vec<char> = Vec::new();
    proof {
        reveal_strlit("/static/");
    }
    push_str(&mut out, "/static/");
    push_str(&mut out, name);
    assert(out@ =~= static_ref(name@));
    chars_to_string(&out)
}

/// `html` with every `/static/{name}` reference replaced by its `url`, one pair after
/// the other, in the order of `urls`.
pub fn html_with_media_urls(html: &str, urls: &[(String, String)]) -> (out: String)
    ensures
        out@ == media_rewrite(html@, pairs_view(urls@)),
{
    let mut cur = str_chars(html);
    let ghost pairs = pairs_view(urls@);
    let mut i: usize = 0;
    assert(pairs.take(0) =~= Seq::<(Seq<char>, Seq<char>)>::empty());
    while i < urls.len()
        invariant
            i <= urls.len(),
            pairs == pairs_view(urls@),
            cur@ == media_rewrite(html@, pairs.take(i as int)),
        decreases urls.len() - i,
    {
        let (name, url) = &urls[i];
        let pat_string = static_route_path(name.as_str());
        let pat = str_chars(pat_string.as_str());
        let rep = str_chars(url.as_str());
        assert(pairs[i as int] == (name@, url@));
        assert(pairs.take(i + 1).drop_last() =~= pairs.take(i as int));
        cur = replace_chars(&cur, &pat, &rep);
        i = i + 1;
    }
    assert(pairs.take(urls.len() as int) =~= pairs);
    chars_to_string(&cur)
}

} // verus!
