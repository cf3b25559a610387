use vstd::prelude::*;
use image::ImageFormat;
use crate::format::{first_extension, format_extension};
use crate::path::{join_path, joined};

verus! {

pub open spec fn digit_chars() -> Seq<char> {
    seq!['0', '1', '2', '3', '4', '5', '6', '7', '8', '9']
}

/// The decimal digits of `n`, without leading zeros.
pub open spec fn decimal(n: nat) -> Seq<char>
    decreases n,
{
    if n < 10 {
        seq![digit_chars()[n as int]]
    } else {
        decimal(n / 10).push(digit_chars()[(n % 10) as int])
    }
}

pub open spec fn opt_view(s: Option<String>) -> Option<Seq<char>> {
    match s {
        Some(v) => Some(v@),
        None => None,
    }
}

/// The part of a cache file name that encodes the size bound.
pub open spec fn cache_key(lte: u32) -> Seq<char> {
    "thumb_lte"@ + decimal(lte as nat)
}

/// Where the thumbnail of `identity` bounded by `lte` in `format` is cached, if the
/// cache is enabled and the format has an extension.
pub open spec fn cache_path_of(
    cache_directory: Option<Seq<char>>,
    identity: Seq<char>,
    format: ImageFormat,
    lte: u32,
) -> Option<Seq<char>> {
    match (format_extension(format), cache_directory) {
        (Some(ext), Some(dir)) => Some(
            joined(dir, identity + seq!['_'] + cache_key(lte) + seq!['.'] + ext),
        ),
        _ => None,
    }
}

proof fn lemma_decimal_digits(n: nat)
    ensures
        decimal(n).len() >= 1,
        n >= 10 ==> decimal(n).len() >= 2,
        forall|i: int| 0 <= i < decimal(n).len() ==> #[trigger] decimal(n)[i] != '.',
    decreases n,
{
    if n >= 10 {
        lemma_decimal_digits(n / 10);
    }
}

proof fn lemma_digit_code(i: int)
    requires
        0 <= i < 10,
    ensures
        digit_chars()[i] as u32 == 48 + i,
{
    let d = digit_chars();
    assert(i == 0 || i == 1 || i == 2 || i == 3 || i == 4 || i == 5 || i == 6 || i == 7 || i == 8
        || i == 9);
    assert(d[0] == '0' && d[1] == '1' && d[2] == '2' && d[3] == '3' && d[4] == '4');
    assert(d[5] == '5' && d[6] == '6' && d[7] == '7' && d[8] == '8' && d[9] == '9');
}

proof fn lemma_decimal_injective(a: nat, b: nat)
    requires
        decimal(a) == decimal(b),
    ensures
        a == b,
    decreases a,
{
    lemma_decimal_digits(a);
    lemma_decimal_digits(b);
    if a >= 10 && b >= 10 {
        assert(decimal(a).drop_last() =~= decimal(a / 10));
        assert(decimal(b).drop_last() =~= decimal(b / 10));
        lemma_decimal_injective(a / 10, b / 10);
        let last = decimal(a).len() - 1;
        assert(decimal(a)[last] == digit_chars()[(a % 10) as int]);
        assert(decimal(b)[last] == digit_chars()[(b % 10) as int]);
        lemma_digit_code((a % 10) as int);
        lemma_digit_code((b % 10) as int);
    } else if a < 10 && b < 10 {
        assert(decimal(a)[0] == digit_chars()[a as int]);
        assert(decimal(b)[0] == digit_chars()[b as int]);
        lemma_digit_code(a as int);
        lemma_digit_code(b as int);
    }
}

/// Two different digit strings followed by the same dot-led suffix differ.
proof fn lemma_digits_then_dot_differ(x: Seq<char>, y: Seq<char>, tail: Seq<char>)
    requires
        x != y,
        forall|i: int| 0 <= i < x.len() ==> #[trigger] x[i] != '.',
        forall|i: int| 0 <= i < y.len() ==> #[trigger] y[i] != '.',
    ensures
        x + seq!['.'] + tail != y + seq!['.'] + tail,
{
    let sx = x + seq!['.'] + tail;
    let sy = y + seq!['.'] + tail;
    if sx == sy {
        if x.len() == y.len() {
            assert(x =~= sx.subrange(0, x.len() as int));
            assert(y =~= sy.subrange(0, y.len() as int));
        } else if x.len() < y.len() {
            assert(sx[x.len() as int] == '.');
            assert(sy[x.len() as int] == y[x.len() as int]);
        } else {
            assert(sy[y.len() as int] == '.');
            assert(sx[y.len() as int] == x[y.len() as int]);
        }
    }
}

/// Requests that differ only in their size bound never share a cache file.
pub proof fn lemma_bounds_do_not_collide(
    cache_directory: Option<Seq<char>>,
    identity: Seq<char>,
    format: ImageFormat,
    a: u32,
    b: u32,
)
    requires
        a != b,
        cache_path_of(cache_directory, identity, format, a) is Some,
    ensures
        cache_path_of(cache_directory, identity, format, a) != cache_path_of(
            cache_directory,
            identity,
            format,
            b,
        ),
{
    let dir = cache_directory->Some_0;
    let ext = format_extension(format)->Some_0;
    let da = decimal(a as nat);
    let db = decimal(b as nat);
    if da == db {
        lemma_decimal_injective(a as nat, b as nat);
    }
    lemma_decimal_digits(a as nat);
    lemma_decimal_digits(b as nat);
    lemma_digits_then_dot_differ(da, db, ext);
    let head = identity + seq!['_'] + "thumb_lte"@;
    let na = identity + seq!['_'] + cache_key(a) + seq!['.'] + ext;
    let nb = identity + seq!['_'] + cache_key(b) + seq!['.'] + ext;
    assert(na =~= head + (da + seq!['.'] + ext));
    assert(nb =~= head + (db + seq!['.'] + ext));
    if na == nb {
        assert(da + seq!['.'] + ext =~= na.subrange(head.len() as int, na.len() as int));
        assert(db + seq!['.'] + ext =~= nb.subrange(head.len() as int, nb.len() as int));
    }
    let pa = joined(dir, na);
    let pb = joined(dir, nb);
    if pa == pb {
        let k = pa.len() - na.len();
        assert(na =~= pa.subrange(k, pa.len() as int));
        assert(nb =~= pb.subrange(k, pb.len() as int));
    }
}

/// The decimal digits of `n`.
fn decimal_string(n: u32) -> (r: String)
    ensures
        r@ == decimal(n as nat),
{
    let digits = "0123456789";
    proof {
        reveal_strlit("0123456789");
        assert(digits@ =~= digit_chars());
    }
    let mut m: u32 = n;
    let mut r = String::new();
    while m >= 10
        invariant
            digits@ == digit_chars(),
            decimal(n as nat) == decimal(m as nat) + r@,
        decreases m,
    {
        let d = (m % 10) as usize;
        let ch = digits.substring_char(d, d + 1);
        let mut t = String::from_str(ch);
        t.append(r.as_str());
        assert(decimal(m as nat) == decimal((m / 10) as nat).push(digit_chars()[d as int]));
        assert(decimal(m as nat) + r@ =~= decimal((m / 10) as nat) + t@);
        r = t;
        m = m / 10;
    }
    let d = m as usize;
    let ch = digits.substring_char(d, d + 1);
    let mut t = String::from_str(ch);
    t.append(r.as_str());
    assert(decimal(m as nat) =~= ch@);
    t
}

/// The cache key for a size bound, `thumb_lte` followed by the bound in decimal, so
/// that different bounds never share a file.
pub fn get_cache_key(lte: u32) -> (r: String)
    ensures
        r@ == cache_key(lte),
{
    let mut r = String::from_str("thumb_lte");
    let digits = decimal_string(lte);
    r.append(digits.as_str());
    r
}

/// The cache path `cache_directory/{identity}_{key}.{extension}`, or `None` when the
/// cache is disabled or the format has no extension.
pub fn try_get_cache_path(
    cache_directory: &Option<String>,
    identity: &str,
    format: ImageFormat,
    lte: u32,
) -> (r: Option<String>)
    ensures
        r matches Some(p) ==> cache_path_of(opt_view(*cache_directory), identity@, format, lte)
            == Some(p@),
        r is None ==> cache_path_of(opt_view(*cache_directory), identity@, format, lte) is None,
{
    match (first_extension(format), cache_directory) {
        (Some(ext), Some(dir)) => {
            let mut name = String::from_str(identity);
            name.append("_");
            let key = get_cache_key(lte);
            name.append(key.as_str());
            name.append(".");
            name.append(ext.as_str());
            proof {
                reveal_strlit("_");
                reveal_strlit(".");
                assert(name@ =~= identity@ + seq!['_'] + cache_key(lte) + seq!['.'] + ext@);
            }
            Some(join_path(dir.as_str(), name.as_str()))
        },
        _ => None,
    }
}

} // verus!
