use dawaclient::{
    decode_body, decode_record, decode_records, encode_component, find_field, parse_cli,
    parse_response, render_addresses, request_for, request_url, respond, DawaError, DecodeError,
    FieldValue, Row, ENDPOINT, STATUS_OK, USAGE,
};

const RECORD: &str = r#"{"id":"0a3f50a0-4660-32b8-e044-0003ba298018","status":1,"darstatus":3,"vejkode":"5804","vejnavn":"Rentemestervej","adresseringsvejnavn":"Rentemestervej","husnr":"8","etage":"st","dør":null,"supplerendebynavn":null,"postnr":"2400","postnrnavn":"København NV","stormodtagerpostnr":null,"stormodtagerpostnrnavn":null,"kommunekode":"0101","adgangsadresseid":"0a3f507a-e179-32b8-e044-0003ba298018","x":12.53547185,"y":55.70481955,"href":"https://dawa.aws.dk/adresser/0a3f50a0-4660-32b8-e044-0003ba298018","betegnelse":"Rentemestervej 8, st., 2400 København NV"}"#;

fn one_record_body() -> String {
    format!("[{}]", RECORD)
}

fn args(values: &[&str]) -> Vec<String> {
    values.iter().map(|v| v.to_string()).collect()
}

#[test]
fn usage_error_without_arguments() {
    assert_eq!(request_for(&args(&[])), Err(DawaError::Usage));
    assert!(parse_cli(&args(&[])).is_err());
}

#[test]
fn usage_error_with_one_argument() {
    assert_eq!(request_for(&args(&["Rentemestervej"])), Err(DawaError::Usage));
    assert!(parse_cli(&args(&["Rentemestervej"])).is_err());
}

#[test]
fn usage_message() {
    assert_eq!(USAGE, "Usage: dawaclient <street name> <house number>");
    assert_eq!(
        DawaError::Usage.message(),
        "Error: Usage: dawaclient <street name> <house number>"
    );
}

#[test]
fn two_arguments_are_street_and_house_number() {
    let cli = parse_cli(&args(&["Rentemestervej", "8A", "extra"])).unwrap();
    assert_eq!(cli.street_name, "Rentemestervej");
    assert_eq!(cli.house_number, "8A");
}

#[test]
fn url_construction() {
    let url = request_url("Rentemestervej", "8");
    assert_eq!(
        url,
        "https://dawa.aws.dk/adresser?vejnavn=Rentemestervej&husnr=8&struktur=mini"
    );
    assert!(url.contains("vejnavn=Rentemestervej&husnr=8&struktur=mini"));
    assert!(url.starts_with(ENDPOINT));
    assert_eq!(request_for(&args(&["Rentemestervej", "8"])), Ok(url));
}

#[test]
fn encoding_non_ascii_and_space() {
    let encoded = encode_component("æø å");
    assert_eq!(encoded, "%C3%A6%C3%B8%20%C3%A5");
    assert!(encoded.is_ascii());
    assert!(!encoded.contains(' '));
}

#[test]
fn encoding_reserved_characters() {
    assert_eq!(encode_component("a&b=c+d/e?"), "a%26b%3Dc%2Bd%2Fe%3F");
    assert_eq!(encode_component("AZaz09-._~"), "AZaz09-._~");
    assert_eq!(encode_component(""), "");
    assert_eq!(encode_component("€"), "%E2%82%AC");
}

#[test]
fn house_number_is_encoded_too() {
    assert_eq!(
        request_url("Gl. Kongevej", "8 A"),
        "https://dawa.aws.dk/adresser?vejnavn=Gl.%20Kongevej&husnr=8%20A&struktur=mini"
    );
}

#[test]
fn success_decode_output() {
    let out = respond(200, one_record_body()).unwrap();
    assert_eq!(
        out,
        "Found 1 address(es)\n\nRentemestervej 8, st., 2400 København NV\n"
    );
}

#[test]
fn success_decode_fields() {
    let addresses = parse_response(STATUS_OK, one_record_body()).unwrap();
    assert_eq!(addresses.len(), 1);
    let a = &addresses[0];
    assert_eq!(a.id, 0x0a3f50a0_4660_32b8_e044_0003ba298018);
    assert_eq!(a.adgangsadresseid, 0x0a3f507a_e179_32b8_e044_0003ba298018);
    assert_eq!(a.status, 1);
    assert_eq!(a.darstatus, 3);
    assert_eq!(a.vejkode, "5804");
    assert_eq!(a.husnr, "8");
    assert_eq!(a.etage, Some("st".to_string()));
    assert_eq!(a.doer, None);
    assert_eq!(a.stormodtagerpostnr, None);
    assert_eq!(a.postnrnavn, "København NV");
    assert_eq!(a.x, "12.53547185");
    assert_eq!(a.y, "55.70481955");
    assert_eq!(a.betegnelse, "Rentemestervej 8, st., 2400 København NV");
}

#[test]
fn empty_result() {
    assert_eq!(parse_response(200, "[]".to_string()), Ok(vec![]));
    assert_eq!(respond(200, "[]".to_string()), Ok("Found 0 address(es)\n\n".to_string()));
}

#[test]
fn non_200_surfaces_body() {
    let r = respond(404, "no match".to_string());
    assert_eq!(r, Err(DawaError::Registry("no match".to_string())));
    assert_eq!(r.unwrap_err().message(), "Error: no match");
}

#[test]
fn non_200_body_is_not_decoded() {
    let r = parse_response(500, one_record_body());
    assert_eq!(r, Err(DawaError::Registry(one_record_body())));
}

#[test]
fn malformed_json() {
    let r = respond(200, "not json".to_string());
    assert_eq!(r, Err(DawaError::Decode(DecodeError::Malformed)));
    assert_eq!(r.unwrap_err().message(), "Error: malformed JSON in response");
}

#[test]
fn body_that_is_not_an_array_of_objects() {
    assert_eq!(decode_body(RECORD), Err(DecodeError::Malformed));
    assert_eq!(decode_body("[1, 2]"), Err(DecodeError::Malformed));
    assert_eq!(decode_body(&format!("[{}] trailing", RECORD)), Err(DecodeError::Malformed));
}

#[test]
fn idempotent_decoding() {
    let first = respond(200, one_record_body());
    let second = respond(200, one_record_body());
    assert_eq!(first, second);
    assert!(first.is_ok());
}

#[test]
fn missing_required_field() {
    let body = one_record_body().replace(r#","betegnelse":"Rentemestervej 8, st., 2400 København NV""#, "");
    let r = parse_response(200, body);
    assert_eq!(r, Err(DawaError::Decode(DecodeError::MissingField("betegnelse"))));
    assert_eq!(r.unwrap_err().message(), "Error: missing field `betegnelse`");
}

#[test]
fn null_in_required_field() {
    let body = one_record_body().replace(r#""vejkode":"5804""#, r#""vejkode":null"#);
    assert_eq!(decode_body(&body), Err(DecodeError::InvalidField("vejkode")));
}

#[test]
fn wrong_type_in_status() {
    let text = one_record_body().replace(r#""status":1"#, r#""status":"1""#);
    assert_eq!(decode_body(&text), Err(DecodeError::InvalidField("status")));
    let large = one_record_body().replace(r#""status":1"#, r#""status":70000"#);
    assert_eq!(decode_body(&large), Err(DecodeError::InvalidField("status")));
    let negative = one_record_body().replace(r#""darstatus":3"#, r#""darstatus":-3"#);
    assert_eq!(decode_body(&negative), Err(DecodeError::InvalidField("darstatus")));
    let max = one_record_body().replace(r#""status":1"#, r#""status":65535"#);
    assert_eq!(decode_body(&max).unwrap()[0].status, 65535);
}

#[test]
fn invalid_uuid() {
    let body = one_record_body().replace(
        "0a3f507a-e179-32b8-e044-0003ba298018",
        "not-a-uuid",
    );
    let r = decode_body(&body);
    assert_eq!(r, Err(DecodeError::InvalidField("adgangsadresseid")));
    assert_eq!(
        r.unwrap_err().detail(),
        "invalid value for field `adgangsadresseid`"
    );
}

#[test]
fn optional_fields_may_be_absent_or_set() {
    let body = one_record_body()
        .replace(r#""dør":null,"#, "")
        .replace(r#""supplerendebynavn":null"#, r#""supplerendebynavn":"Brønshøj""#);
    let a = &decode_body(&body).unwrap()[0];
    assert_eq!(a.doer, None);
    assert_eq!(a.supplerendebynavn, Some("Brønshøj".to_string()));
    let door = one_record_body().replace(r#""dør":null"#, r#""dør":"tv""#);
    assert_eq!(decode_body(&door).unwrap()[0].doer, Some("tv".to_string()));
}

#[test]
fn nested_value_in_optional_field() {
    let body = one_record_body().replace(r#""etage":"st""#, r#""etage":["st"]"#);
    assert_eq!(decode_body(&body), Err(DecodeError::InvalidField("etage")));
}

#[test]
fn integer_coordinate() {
    let body = one_record_body().replace("12.53547185", "12");
    assert_eq!(decode_body(&body).unwrap()[0].x, "12");
}

#[test]
fn order_is_kept_and_count_in_decimal() {
    let labels: Vec<String> = (0..12).map(|i| format!("Vej {}", i)).collect();
    let records: Vec<String> = labels
        .iter()
        .map(|l| RECORD.replace("Rentemestervej 8, st., 2400 København NV", l))
        .collect();
    let body = format!("[{}]", records.join(","));
    let addresses = decode_body(&body).unwrap();
    let got: Vec<&str> = addresses.iter().map(|a| a.betegnelse.as_str()).collect();
    assert_eq!(got, labels.iter().map(|l| l.as_str()).collect::<Vec<_>>());
    let out = render_addresses(&addresses);
    let mut expected = "Found 12 address(es)\n\n".to_string();
    for l in &labels {
        expected.push_str(l);
        expected.push('\n');
    }
    assert_eq!(out, expected);
}

#[test]
fn one_bad_record_fails_the_whole_response() {
    let bad = RECORD.replace(r#""postnr":"2400","#, "");
    let body = format!("[{},{}]", RECORD, bad);
    assert_eq!(
        parse_response(200, body),
        Err(DawaError::Decode(DecodeError::MissingField("postnr")))
    );
}

#[test]
fn transport_error_message() {
    assert_eq!(
        DawaError::Transport("connection refused".to_string()).message(),
        "Error: connection refused"
    );
}

fn row(fields: Vec<(&str, FieldValue)>) -> Row {
    fields.into_iter().map(|(k, v)| (k.to_string(), v)).collect()
}

fn text(s: &str) -> FieldValue {
    FieldValue::Text(s.to_string())
}

fn number(unsigned: Option<u64>, text: &str) -> FieldValue {
    FieldValue::Number { unsigned, text: text.to_string() }
}

fn full_row() -> Row {
    row(vec![
        ("id", text("0a3f50a0-4660-32b8-e044-0003ba298018")),
        ("status", number(Some(1), "1")),
        ("darstatus", number(Some(3), "3")),
        ("vejkode", text("5804")),
        ("vejnavn", text("Rentemestervej")),
        ("adresseringsvejnavn", text("Rentemestervej")),
        ("husnr", text("8")),
        ("etage", FieldValue::Null),
        ("postnr", text("2400")),
        ("postnrnavn", text("København NV")),
        ("kommunekode", text("0101")),
        ("adgangsadresseid", text("0a3f507a-e179-32b8-e044-0003ba298018")),
        ("x", number(None, "12.5")),
        ("y", number(None, "55.7")),
        ("href", text("https://dawa.aws.dk/adresser/0a3f50a0-4660-32b8-e044-0003ba298018")),
        ("betegnelse", text("Rentemestervej 8, 2400 København NV")),
    ])
}

#[test]
fn decode_records_from_rows() {
    let rows = vec![full_row()];
    let addresses = decode_records(&rows).unwrap();
    assert_eq!(addresses[0].betegnelse, "Rentemestervej 8, 2400 København NV");
    assert_eq!(addresses[0].etage, None);
    assert_eq!(addresses[0].x, "12.5");
    assert_eq!(decode_records(&vec![]), Ok(vec![]));
}

#[test]
fn decode_record_reports_first_failing_field() {
    let mut r = full_row();
    r[1].1 = FieldValue::Bool(true);
    r.retain(|(k, _)| k != "betegnelse");
    assert_eq!(decode_record(&r), Err(DecodeError::InvalidField("status")));
    let mut nested = full_row();
    nested[3].1 = FieldValue::Nested;
    assert_eq!(decode_record(&nested), Err(DecodeError::InvalidField("vejkode")));
}

#[test]
fn find_field_takes_first_member() {
    let r = row(vec![("a", text("1")), ("b", text("2")), ("a", text("3"))]);
    assert_eq!(find_field(&r, "a"), Some(0));
    assert_eq!(find_field(&r, "b"), Some(1));
    assert_eq!(find_field(&r, "c"), None);
}
