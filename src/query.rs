use vstd::prelude::*;
use vstd::utf8::encode_utf8;

verus! {

/// The registry's address-search endpoint.
pub const ENDPOINT: &'static str = "https://dawa.aws.dk/adresser";

const HEX_DIGITS: &'static str = "0123456789ABCDEF";

pub open spec fn hex_digits() -> Seq<char> {
    seq!['0', '1', '2', '3', '4', '5', '6', '7', '8', '9', 'A', 'B', 'C', 'D', 'E', 'F']
}

/// Characters that a query component carries as they are.
pub open spec fn is_unreserved(c: char) -> bool {
    ('A' <= c && c <= 'Z') || ('a' <= c && c <= 'z') || ('0' <= c && c <= '9') || c == '-'
        || c == '.' || c == '_' || c == '~'
}

/// `%XX` for one byte, with upper-case hexadecimal digits.
pub open spec fn percent_byte(b: u8) -> Seq<char> {
    seq!['%', hex_digits()[(b / 16) as int], hex_digits()[(b % 16) as int]]
}

pub open spec fn percent_bytes(bs: Seq<u8>) -> Seq<char>
    decreases bs.len(),
{
    if bs.len() == 0 {
        Seq::empty()
    } else {
        percent_bytes(bs.drop_last()) + percent_byte(bs.last())
    }
}

/// One character of a query component: itself when unreserved, else the
/// percent-encoded bytes of its UTF-8 encoding.
pub open spec fn encode_char(c: char) -> Seq<char> {
    if is_unreserved(c) {
        seq![c]
    } else {
        percent_bytes(encode_utf8(seq![c]))
    }
}

pub open spec fn encoded(s: Seq<char>) -> Seq<char>
    decreases s.len(),
{
    if s.len() == 0 {
        Seq::empty()
    } else {
        encoded(s.drop_last()) + encode_char(s.last())
    }
}

fn append_percent_byte(out: &mut String, b: u8)
    ensures
        final(out)@ == old(out)@ + percent_byte(b),
{
    proof {
        reveal_strlit("0123456789ABCDEF");
        assert(HEX_DIGITS@ =~= hex_digits());
    }
    let hi: usize = (b / 16) as usize;
    let lo: usize = (b % 16) as usize;
    out.append("%");
    out.append(HEX_DIGITS.substring_char(hi, hi + 1));
    out.append(HEX_DIGITS.substring_char(lo, lo + 1));
    proof {
        reveal_strlit("%");
    }
    assert(final(out)@ =~= old(out)@ + percent_byte(b));
}

/// Percent-encodes one query component.
pub fn encode_component(s: &str) -> (r: String)
    ensures
        r@ == encoded(s@),
{
    let n: usize = s.unicode_len();
    let mut out = String::new();
    for i in 0..n
        invariant
            n == s@.len(),
            out@ == encoded(s@.subrange(0, i as int)),
    {
        let piece = s.substring_char(i, i + 1);
        let c = s.get_char(i);
        assert(s@.subrange(0, i + 1).drop_last() =~= s@.subrange(0, i as int));
        if ('A' <= c && c <= 'Z') || ('a' <= c && c <= 'z') || ('0' <= c && c <= '9') || c == '-'
            || c == '.' || c == '_' || c == '~' {
            assert(piece@ =~= seq![c]);
            out.append(piece);
        } else {
            assert(piece@ =~= seq![c]);
            let bytes = piece.as_bytes();
            let m: usize = bytes.len();
            let ghost start = out@;
            for j in 0..m
                invariant
                    m == bytes@.len(),
                    out@ == start + percent_bytes(bytes@.subrange(0, j as int)),
            {
                assert(bytes@.subrange(0, j + 1).drop_last() =~= bytes@.subrange(0, j as int));
                append_percent_byte(&mut out, bytes[j]);
            }
            assert(bytes@.subrange(0, m as int) =~= bytes@);
        }
    }
    assert(s@.subrange(0, n as int) =~= s@);
    out
}

/// Characters that may stand in an encoded query component.
pub open spec fn is_url_safe(c: char) -> bool {
    is_unreserved(c) || c == '%'
}

proof fn lemma_percent_bytes_safe(bs: Seq<u8>)
    ensures
        forall|k: int| 0 <= k < percent_bytes(bs).len() ==> is_url_safe(#[trigger] percent_bytes(bs)[k]),
    decreases bs.len(),
{
    if bs.len() > 0 {
        lemma_percent_bytes_safe(bs.drop_last());
        let b = bs.last();
        assert(b / 16 < 16 && b % 16 < 16);
        let prev = percent_bytes(bs.drop_last());
        assert forall|k: int| 0 <= k < percent_bytes(bs).len() implies is_url_safe(
            #[trigger] percent_bytes(bs)[k],
        ) by {
            if k >= prev.len() {
                assert(percent_bytes(bs)[k] == percent_byte(b)[k - prev.len()]);
            }
        }
    }
}

/// An encoded component holds only unreserved ASCII characters and `%`: no
/// space and no character outside ASCII survives encoding.
pub proof fn lemma_encoded_is_url_safe(s: Seq<char>)
    ensures
        forall|k: int| 0 <= k < encoded(s).len() ==> is_url_safe(#[trigger] encoded(s)[k]),
    decreases s.len(),
{
    if s.len() > 0 {
        lemma_encoded_is_url_safe(s.drop_last());
        let c = s.last();
        lemma_percent_bytes_safe(encode_utf8(seq![c]));
        let prev = encoded(s.drop_last());
        assert forall|k: int| 0 <= k < encoded(s).len() implies is_url_safe(
            #[trigger] encoded(s)[k],
        ) by {
            if k >= prev.len() {
                assert(encoded(s)[k] == encode_char(c)[k - prev.len()]);
            }
        }
    }
}

pub open spec fn request_url_spec(street: Seq<char>, house: Seq<char>) -> Seq<char> {
    ENDPOINT@ + "?vejnavn="@ + encoded(street) + "&husnr="@ + encoded(house) + "&struktur=mini"@
}

/// The address-search request for a street name and a house number, both
/// percent-encoded, always asking for the flat record structure.
pub fn request_url(street: &str, house: &str) -> (r: String)
    ensures
        r@ == request_url_spec(street@, house@),
{
    let mut url = String::from_str(ENDPOINT);
    url.append("?vejnavn=");
    url.append(encode_component(street).as_str());
    url.append("&husnr=");
    url.append(encode_component(house).as_str());
    url.append("&struktur=mini");
    url
}

} // verus!
