//! URL-safe base64 without padding.

use vstd::prelude::*;

verus! {

/// The ASCII code of the URL-safe base64 symbol for a six-bit value:
/// `A-Z`, `a-z`, `0-9`, `-`, `_`.
pub open spec fn url_symbol(n: int) -> u8 {
    if n < 26 {
        (65 + n) as u8
    } else if n < 52 {
        (97 + (n - 26)) as u8
    } else if n < 62 {
        (48 + (n - 52)) as u8
    } else if n == 62 {
        45u8
    } else {
        95u8
    }
}

/// URL-safe base64 without padding, as ASCII bytes: each group of three
/// bytes becomes four symbols, a trailing group of one or two bytes becomes
/// two or three.
pub open spec fn base64_url(d: Seq<u8>) -> Seq<u8>
    decreases d.len(),
{
    if d.len() == 0 {
        Seq::empty()
    } else if d.len() == 1 {
        seq![url_symbol(d[0] as int / 4), url_symbol((d[0] as int % 4) * 16)]
    } else if d.len() == 2 {
        seq![
            url_symbol(d[0] as int / 4),
            url_symbol((d[0] as int % 4) * 16 + d[1] as int / 16),
            url_symbol((d[1] as int % 16) * 4),
        ]
    } else {
        seq![
            url_symbol(d[0] as int / 4),
            url_symbol((d[0] as int % 4) * 16 + d[1] as int / 16),
            url_symbol((d[1] as int % 16) * 4 + d[2] as int / 64),
            url_symbol(d[2] as int % 64),
        ] + base64_url(d.subrange(3, d.len() as int))
    }
}

fn symbol(n: u8) -> (r: u8)
    requires
        n < 64,
    ensures
        r == url_symbol(n as int),
{
    if n < 26 {
        65 + n
    } else if n < 52 {
        97 + (n - 26)
    } else if n < 62 {
        48 + (n - 52)
    } else if n == 62 {
        45
    } else {
        95
    }
}

/// Encodes bytes as URL-safe base64 without padding.
pub fn base64_url_encode(data: &[u8]) -> (r: Vec<u8>)
    ensures
        r@ == base64_url(data@),
{
    let n = data.len();
    let mut out: Vec<u8> = Vec::new();
    let mut i: usize = 0;
    assert(data@.subrange(0, n as int) =~= data@);
    assert(out@ + base64_url(data@) =~= base64_url(data@));
    while i < n
        invariant
            n == data@.len(),
            i <= n,
            out@ + base64_url(data@.subrange(i as int, n as int)) == base64_url(data@),
        decreases n - i,
    {
        let ghost rest = data@.subrange(i as int, n as int);
        let ghost prev = out@;
        let a = data[i];
        out.push(symbol(a / 4));
        if n - i == 1 {
            out.push(symbol((a % 4) * 16));
            assert(out@ =~= prev + base64_url(rest));
            i = n;
        } else if n - i == 2 {
            let b = data[i + 1];
            out.push(symbol((a % 4) * 16 + b / 16));
            out.push(symbol((b % 16) * 4));
            assert(out@ =~= prev + base64_url(rest));
            i = n;
        } else {
            let b = data[i + 1];
            let c = data[i + 2];
            out.push(symbol((a % 4) * 16 + b / 16));
            out.push(symbol((b % 16) * 4 + c / 64));
            out.push(symbol(c % 64));
            let ghost next = data@.subrange(i as int + 3, n as int);
            assert(rest.subrange(3, rest.len() as int) =~= next);
            assert(prev + base64_url(rest) =~= out@ + base64_url(next));
            i = i + 3;
        }
    }
    assert(data@.subrange(n as int, n as int) =~= Seq::<u8>::empty());
    assert(out@ + Seq::<u8>::empty() =~= out@);
    out
}

} // verus!
