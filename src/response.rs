use vstd::prelude::*;
use crate::address::{decode_record, record_spec, AddressView, DawaAddress};
use crate::error::{error_detail, DawaError, DecodeError};
use crate::json::{parse_rows, rows_of, Row};

verus! {

/// The status that marks a successful lookup.
pub const STATUS_OK: u16 = 200;

const DECIMAL_DIGITS: &'static str = "0123456789";

pub open spec fn views(v: Seq<DawaAddress>) -> Seq<AddressView> {
    v.map_values(|a: DawaAddress| a@)
}

/// All records in the order sent, or the error of the first that fails.
pub open spec fn records_spec(rows: Seq<Row>) -> Result<Seq<AddressView>, DecodeError>
    decreases rows.len(),
{
    if rows.len() == 0 {
        Ok(Seq::empty())
    } else {
        match records_spec(rows.drop_last()) {
            Err(e) => Err(e),
            Ok(prefix) => match record_spec(rows.last()@) {
                Err(e) => Err(e),
                Ok(a) => Ok(prefix.push(a)),
            },
        }
    }
}

proof fn lemma_records_error_prefix(rows: Seq<Row>, j: int)
    requires
        0 <= j <= rows.len(),
        records_spec(rows.subrange(0, j)) is Err,
    ensures
        records_spec(rows) == records_spec(rows.subrange(0, j)),
    decreases rows.len(),
{
    if j < rows.len() {
        assert(rows.drop_last().subrange(0, j) =~= rows.subrange(0, j));
        lemma_records_error_prefix(rows.drop_last(), j);
    } else {
        assert(rows.subrange(0, j) =~= rows);
    }
}

/// Reads every record object into an address, keeping their order; no
/// partial result where one fails.
pub fn decode_records(rows: &Vec<Row>) -> (r: Result<Vec<DawaAddress>, DecodeError>)
    ensures
        match r {
            Ok(v) => records_spec(rows@) == Ok::<Seq<AddressView>, DecodeError>(views(v@)),
            Err(e) => records_spec(rows@) == Err::<Seq<AddressView>, DecodeError>(e),
        },
{
    let n = rows.len();
    let mut out: Vec<DawaAddress> = Vec::new();
    assert(rows@.subrange(0, 0) =~= Seq::<Row>::empty());
    assert(views(out@) =~= Seq::<AddressView>::empty());
    for i in 0..n
        invariant
            n == rows@.len(),
            records_spec(rows@.subrange(0, i as int)) == Ok::<Seq<AddressView>, DecodeError>(
                views(out@),
            ),
    {
        assert(rows@.subrange(0, i + 1).drop_last() =~= rows@.subrange(0, i as int));
        match decode_record(&rows[i]) {
            Ok(a) => {
                let ghost before = out@;
                out.push(a);
                assert(views(out@) =~= views(before).push(a@));
            },
            Err(e) => {
                proof {
                    lemma_records_error_prefix(rows@, i + 1);
                }
                return Err(e);
            },
        }
    }
    assert(rows@.subrange(0, n as int) =~= rows@);
    Ok(out)
}

/// The records that a successful response's body holds.
pub open spec fn body_spec(body: Seq<char>) -> Result<Seq<AddressView>, DecodeError> {
    match rows_of(body) {
        None => Err(DecodeError::Malformed),
        Some(rows) => records_spec(rows@),
    }
}

/// Decodes the body of a successful response.
pub fn decode_body(body: &str) -> (r: Result<Vec<DawaAddress>, DecodeError>)
    ensures
        match r {
            Ok(v) => body_spec(body@) == Ok::<Seq<AddressView>, DecodeError>(views(v@)),
            Err(e) => body_spec(body@) == Err::<Seq<AddressView>, DecodeError>(e),
        },
{
    match parse_rows(body) {
        None => Err(DecodeError::Malformed),
        Some(rows) => decode_records(&rows),
    }
}

/// The registry's answer read as addresses: the body is decoded only on
/// status 200; any other status surfaces the body as it was sent.
pub open spec fn response_spec(status: u16, body: String) -> Result<Seq<AddressView>, DawaError> {
    if status != STATUS_OK {
        Err(DawaError::Registry(body))
    } else {
        match body_spec(body@) {
            Ok(v) => Ok(v),
            Err(e) => Err(DawaError::Decode(e)),
        }
    }
}

pub open spec fn response_view(r: Result<Vec<DawaAddress>, DawaError>) -> Result<Seq<AddressView>, DawaError> {
    match r {
        Ok(v) => Ok(views(v@)),
        Err(e) => Err(e),
    }
}

/// Classifies the registry's answer by its status and decodes it.
pub fn parse_response(status: u16, body: String) -> (r: Result<Vec<DawaAddress>, DawaError>)
    ensures
        response_view(r) == response_spec(status, body),
{
    if status != STATUS_OK {
        return Err(DawaError::Registry(body));
    }
    match decode_body(body.as_str()) {
        Ok(v) => Ok(v),
        Err(e) => Err(DawaError::Decode(e)),
    }
}

pub open spec fn digit_char(d: nat) -> char {
    seq!['0', '1', '2', '3', '4', '5', '6', '7', '8', '9'][d as int]
}

/// `n` in decimal, without leading zeros.
pub open spec fn decimal(n: nat) -> Seq<char>
    decreases n,
{
    if n < 10 {
        seq![digit_char(n)]
    } else {
        decimal(n / 10) + seq![digit_char(n % 10)]
    }
}

fn append_decimal(out: &mut String, n: usize)
    ensures
        final(out)@ == old(out)@ + decimal(n as nat),
    decreases n,
{
    proof {
        reveal_strlit("0123456789");
        assert(DECIMAL_DIGITS@ =~= seq!['0', '1', '2', '3', '4', '5', '6', '7', '8', '9']);
    }
    if n >= 10 {
        append_decimal(out, n / 10);
    }
    let d: usize = n % 10;
    out.append(DECIMAL_DIGITS.substring_char(d, d + 1));
    assert(final(out)@ =~= old(out)@ + decimal(n as nat));
}

/// One line per address: its display label.
pub open spec fn label_lines(v: Seq<AddressView>) -> Seq<char>
    decreases v.len(),
{
    if v.len() == 0 {
        Seq::empty()
    } else {
        label_lines(v.drop_last()) + v.last().betegnelse + seq!['\n']
    }
}

/// The count line, an empty line, and the label of each address in order.
pub open spec fn rendered(v: Seq<AddressView>) -> Seq<char> {
    "Found "@ + decimal(v.len()) + " address(es)\n\n"@ + label_lines(v)
}

/// The text printed for a successful lookup.
pub fn render_addresses(addresses: &Vec<DawaAddress>) -> (r: String)
    ensures
        r@ == rendered(views(addresses@)),
{
    let mut out = String::from_str("Found ");
    append_decimal(&mut out, addresses.len());
    out.append(" address(es)\n\n");
    let ghost head = out@;
    let n = addresses.len();
    for i in 0..n
        invariant
            n == addresses@.len(),
            out@ == head + label_lines(views(addresses@.subrange(0, i as int))),
    {
        assert(views(addresses@.subrange(0, i + 1)).drop_last() =~= views(
            addresses@.subrange(0, i as int),
        ));
        out.append(addresses[i].betegnelse.as_str());
        out.append("\n");
        proof {
            reveal_strlit("\n");
        }
        assert(out@ =~= head + label_lines(views(addresses@.subrange(0, i + 1))));
    }
    assert(addresses@.subrange(0, n as int) =~= addresses@);
    out
}

/// What an invocation prints for a response: the rendered addresses, or the
/// error line.
pub open spec fn output_spec(status: u16, body: String) -> Result<Seq<char>, Seq<char>> {
    match response_spec(status, body) {
        Ok(v) => Ok(rendered(v)),
        Err(e) => Err("Error: "@ + error_detail(e)),
    }
}

pub open spec fn output_view(r: Result<String, DawaError>) -> Result<Seq<char>, Seq<char>> {
    match r {
        Ok(s) => Ok(s@),
        Err(e) => Err("Error: "@ + error_detail(e)),
    }
}

/// Turns the registry's answer into what is printed.
pub fn respond(status: u16, body: String) -> (r: Result<String, DawaError>)
    ensures
        output_view(r) == output_spec(status, body),
{
    let addresses = parse_response(status, body)?;
    Ok(render_addresses(&addresses))
}

/// Handling one answer is a function of its status and its body: any two
/// runs on the same answer print the same text.
pub proof fn lemma_output_is_function_of_response(
    status: u16,
    body: String,
    first: Result<String, DawaError>,
    second: Result<String, DawaError>,
)
    requires
        output_view(first) == output_spec(status, body),
        output_view(second) == output_spec(status, body),
    ensures
        output_view(first) == output_view(second),
{
}

} // verus!
