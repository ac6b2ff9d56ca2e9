use vstd::prelude::*;
use crate::error::DecodeError;
use crate::json::{find_field, lookup, FieldValue, FieldView, Row};

verus! {

/// One address as the registry returns it in the flat record structure.
/// Members are named as on the wire, but for the door (`dør`).
#[derive(Debug, PartialEq, Eq)]
pub struct DawaAddress {
    /// Identifier of this address.
    pub id: u128,
    /// Lifecycle status code of the record.
    pub status: u16,
    /// Status code in the underlying address register.
    pub darstatus: u16,
    /// Road code.
    pub vejkode: String,
    /// Road name.
    pub vejnavn: String,
    /// Road name as used for addressing.
    pub adresseringsvejnavn: String,
    /// House number; may hold letters ("8A").
    pub husnr: String,
    /// Floor, where the address has one.
    pub etage: Option<String>,
    /// Door, where the address has one.
    pub doer: Option<String>,
    /// Supplementary town name.
    pub supplerendebynavn: Option<String>,
    /// Postal code.
    pub postnr: String,
    /// Name of the postal district.
    pub postnrnavn: String,
    /// Postal code of a bulk recipient.
    pub stormodtagerpostnr: Option<String>,
    /// Postal district name of a bulk recipient.
    pub stormodtagerpostnrnavn: Option<String>,
    /// Municipality code.
    pub kommunekode: String,
    /// Identifier of the access address.
    pub adgangsadresseid: u128,
    /// East coordinate, as serde_json writes the number.
    pub x: String,
    /// North coordinate, as serde_json writes the number.
    pub y: String,
    /// Canonical URL of the record at the registry.
    pub href: String,
    /// The whole address on one line: the label that is displayed.
    pub betegnelse: String,
}

pub struct AddressView {
    pub id: u128,
    pub status: u16,
    pub darstatus: u16,
    pub vejkode: Seq<char>,
    pub vejnavn: Seq<char>,
    pub adresseringsvejnavn: Seq<char>,
    pub husnr: Seq<char>,
    pub etage: Option<Seq<char>>,
    pub doer: Option<Seq<char>>,
    pub supplerendebynavn: Option<Seq<char>>,
    pub postnr: Seq<char>,
    pub postnrnavn: Seq<char>,
    pub stormodtagerpostnr: Option<Seq<char>>,
    pub stormodtagerpostnrnavn: Option<Seq<char>>,
    pub kommunekode: Seq<char>,
    pub adgangsadresseid: u128,
    pub x: Seq<char>,
    pub y: Seq<char>,
    pub href: Seq<char>,
    pub betegnelse: Seq<char>,
}

pub open spec fn optional_view(o: Option<String>) -> Option<Seq<char>> {
    match o {
        Some(s) => Some(s@),
        None => None,
    }
}

impl View for DawaAddress {
    type V = AddressView;

    open spec fn view(&self) -> AddressView {
        AddressView {
            id: self.id,
            status: self.status,
            darstatus: self.darstatus,
            vejkode: self.vejkode@,
            vejnavn: self.vejnavn@,
            adresseringsvejnavn: self.adresseringsvejnavn@,
            husnr: self.husnr@,
            etage: optional_view(self.etage),
            doer: optional_view(self.doer),
            supplerendebynavn: optional_view(self.supplerendebynavn),
            postnr: self.postnr@,
            postnrnavn: self.postnrnavn@,
            stormodtagerpostnr: optional_view(self.stormodtagerpostnr),
            stormodtagerpostnrnavn: optional_view(self.stormodtagerpostnrnavn),
            kommunekode: self.kommunekode@,
            adgangsadresseid: self.adgangsadresseid,
            x: self.x@,
            y: self.y@,
            href: self.href@,
            betegnelse: self.betegnelse@,
        }
    }
}

/// What uuid reads as a UUID from a text, as a 128-bit number.
pub uninterp spec fn uuid_of(text: Seq<char>) -> Option<u128>;

/// Relies on uuid::Uuid::parse_str, and Uuid::as_u128 to carry the value:
/// the result depends on the text alone.
#[verifier::external_body]
fn parse_uuid(text: &str) -> (r: Option<u128>)
    ensures
        r == uuid_of(text@),
{
    uuid::Uuid::parse_str(text).ok().map(|u| u.as_u128())
}

pub open spec fn text_field(row: Seq<(String, FieldValue)>, key: &'static str) -> Result<Seq<char>, DecodeError> {
    match lookup(row, key@) {
        None => Err(DecodeError::MissingField(key)),
        Some(FieldView::Text(t)) => Ok(t),
        Some(_) => Err(DecodeError::InvalidField(key)),
    }
}

/// An optional member may be absent or null.
pub open spec fn optional_text_field(row: Seq<(String, FieldValue)>, key: &'static str) -> Result<Option<Seq<char>>, DecodeError> {
    match lookup(row, key@) {
        None => Ok(None),
        Some(FieldView::Null) => Ok(None),
        Some(FieldView::Text(t)) => Ok(Some(t)),
        Some(_) => Err(DecodeError::InvalidField(key)),
    }
}

/// A status code: a non-negative integer that fits in 16 bits.
pub open spec fn code_field(row: Seq<(String, FieldValue)>, key: &'static str) -> Result<u16, DecodeError> {
    match lookup(row, key@) {
        None => Err(DecodeError::MissingField(key)),
        Some(FieldView::Number { unsigned: Some(n), .. }) => if n <= u16::MAX {
            Ok(n as u16)
        } else {
            Err(DecodeError::InvalidField(key))
        },
        Some(_) => Err(DecodeError::InvalidField(key)),
    }
}

/// A coordinate: any number, kept as the text serde_json writes for it.
pub open spec fn coordinate_field(row: Seq<(String, FieldValue)>, key: &'static str) -> Result<Seq<char>, DecodeError> {
    match lookup(row, key@) {
        None => Err(DecodeError::MissingField(key)),
        Some(FieldView::Number { text, .. }) => Ok(text),
        Some(_) => Err(DecodeError::InvalidField(key)),
    }
}

pub open spec fn uuid_field(row: Seq<(String, FieldValue)>, key: &'static str) -> Result<u128, DecodeError> {
    match lookup(row, key@) {
        None => Err(DecodeError::MissingField(key)),
        Some(FieldView::Text(t)) => match uuid_of(t) {
            Some(u) => Ok(u),
            None => Err(DecodeError::InvalidField(key)),
        },
        Some(_) => Err(DecodeError::InvalidField(key)),
    }
}

fn read_text(row: &Row, key: &'static str) -> (r: Result<String, DecodeError>)
    ensures
        match r {
            Ok(s) => text_field(row@, key) == Ok::<Seq<char>, DecodeError>(s@),
            Err(e) => text_field(row@, key) == Err::<Seq<char>, DecodeError>(e),
        },
{
    match find_field(row, key) {
        None => Err(DecodeError::MissingField(key)),
        Some(i) => match &row[i].1 {
            FieldValue::Text(t) => Ok(t.clone()),
            _ => Err(DecodeError::InvalidField(key)),
        },
    }
}

fn read_optional_text(row: &Row, key: &'static str) -> (r: Result<Option<String>, DecodeError>)
    ensures
        match r {
            Ok(s) => optional_text_field(row@, key) == Ok::<Option<Seq<char>>, DecodeError>(optional_view(s)),
            Err(e) => optional_text_field(row@, key) == Err::<Option<Seq<char>>, DecodeError>(e),
        },
{
    match find_field(row, key) {
        None => Ok(None),
        Some(i) => match &row[i].1 {
            FieldValue::Null => Ok(None),
            FieldValue::Text(t) => Ok(Some(t.clone())),
            _ => Err(DecodeError::InvalidField(key)),
        },
    }
}

fn read_code(row: &Row, key: &'static str) -> (r: Result<u16, DecodeError>)
    ensures
        match r {
            Ok(c) => code_field(row@, key) == Ok::<u16, DecodeError>(c),
            Err(e) => code_field(row@, key) == Err::<u16, DecodeError>(e),
        },
{
    match find_field(row, key) {
        None => Err(DecodeError::MissingField(key)),
        Some(i) => match &row[i].1 {
            FieldValue::Number { unsigned: Some(n), .. } => if *n <= u16::MAX as u64 {
                Ok(*n as u16)
            } else {
                Err(DecodeError::InvalidField(key))
            },
            _ => Err(DecodeError::InvalidField(key)),
        },
    }
}

fn read_coordinate(row: &Row, key: &'static str) -> (r: Result<String, DecodeError>)
    ensures
        match r {
            Ok(s) => coordinate_field(row@, key) == Ok::<Seq<char>, DecodeError>(s@),
            Err(e) => coordinate_field(row@, key) == Err::<Seq<char>, DecodeError>(e),
        },
{
    match find_field(row, key) {
        None => Err(DecodeError::MissingField(key)),
        Some(i) => match &row[i].1 {
            FieldValue::Number { text, .. } => Ok(text.clone()),
            _ => Err(DecodeError::InvalidField(key)),
        },
    }
}

fn read_uuid(row: &Row, key: &'static str) -> (r: Result<u128, DecodeError>)
    ensures
        match r {
            Ok(u) => uuid_field(row@, key) == Ok::<u128, DecodeError>(u),
            Err(e) => uuid_field(row@, key) == Err::<u128, DecodeError>(e),
        },
{
    match find_field(row, key) {
        None => Err(DecodeError::MissingField(key)),
        Some(i) => match &row[i].1 {
            FieldValue::Text(t) => match parse_uuid(t.as_str()) {
                Some(u) => Ok(u),
                None => Err(DecodeError::InvalidField(key)),
            },
            _ => Err(DecodeError::InvalidField(key)),
        },
    }
}

/// One record: each member in the order of the address's fields, the first
/// that fails deciding the error.
pub open spec fn record_spec(row: Seq<(String, FieldValue)>) -> Result<AddressView, DecodeError> {
    let id = uuid_field(row, "id");
    let status = code_field(row, "status");
    let darstatus = code_field(row, "darstatus");
    let vejkode = text_field(row, "vejkode");
    let vejnavn = text_field(row, "vejnavn");
    let adresseringsvejnavn = text_field(row, "adresseringsvejnavn");
    let husnr = text_field(row, "husnr");
    let etage = optional_text_field(row, "etage");
    let doer = optional_text_field(row, "dør");
    let supplerendebynavn = optional_text_field(row, "supplerendebynavn");
    let postnr = text_field(row, "postnr");
    let postnrnavn = text_field(row, "postnrnavn");
    let stormodtagerpostnr = optional_text_field(row, "stormodtagerpostnr");
    let stormodtagerpostnrnavn = optional_text_field(row, "stormodtagerpostnrnavn");
    let kommunekode = text_field(row, "kommunekode");
    let adgangsadresseid = uuid_field(row, "adgangsadresseid");
    let x = coordinate_field(row, "x");
    let y = coordinate_field(row, "y");
    let href = text_field(row, "href");
    let betegnelse = text_field(row, "betegnelse");
    if id is Err {
        Err(id->Err_0)
    } else if status is Err {
        Err(status->Err_0)
    } else if darstatus is Err {
        Err(darstatus->Err_0)
    } else if vejkode is Err {
        Err(vejkode->Err_0)
    } else if vejnavn is Err {
        Err(vejnavn->Err_0)
    } else if adresseringsvejnavn is Err {
        Err(adresseringsvejnavn->Err_0)
    } else if husnr is Err {
        Err(husnr->Err_0)
    } else if etage is Err {
        Err(etage->Err_0)
    } else if doer is Err {
        Err(doer->Err_0)
    } else if supplerendebynavn is Err {
        Err(supplerendebynavn->Err_0)
    } else if postnr is Err {
        Err(postnr->Err_0)
    } else if postnrnavn is Err {
        Err(postnrnavn->Err_0)
    } else if stormodtagerpostnr is Err {
        Err(stormodtagerpostnr->Err_0)
    } else if stormodtagerpostnrnavn is Err {
        Err(stormodtagerpostnrnavn->Err_0)
    } else if kommunekode is Err {
        Err(kommunekode->Err_0)
    } else if adgangsadresseid is Err {
        Err(adgangsadresseid->Err_0)
    } else if x is Err {
        Err(x->Err_0)
    } else if y is Err {
        Err(y->Err_0)
    } else if href is Err {
        Err(href->Err_0)
    } else if betegnelse is Err {
        Err(betegnelse->Err_0)
    } else {
        Ok(AddressView {
            id: id->Ok_0,
            status: status->Ok_0,
            darstatus: darstatus->Ok_0,
            vejkode: vejkode->Ok_0,
            vejnavn: vejnavn->Ok_0,
            adresseringsvejnavn: adresseringsvejnavn->Ok_0,
            husnr: husnr->Ok_0,
            etage: etage->Ok_0,
            doer: doer->Ok_0,
            supplerendebynavn: supplerendebynavn->Ok_0,
            postnr: postnr->Ok_0,
            postnrnavn: postnrnavn->Ok_0,
            stormodtagerpostnr: stormodtagerpostnr->Ok_0,
            stormodtagerpostnrnavn: stormodtagerpostnrnavn->Ok_0,
            kommunekode: kommunekode->Ok_0,
            adgangsadresseid: adgangsadresseid->Ok_0,
            x: x->Ok_0,
            y: y->Ok_0,
            href: href->Ok_0,
            betegnelse: betegnelse->Ok_0,
        })
    }
}

/// Reads one record object into an address.
pub fn decode_record(row: &Row) -> (r: Result<DawaAddress, DecodeError>)
    ensures
        match r {
            Ok(a) => record_spec(row@) == Ok::<AddressView, DecodeError>(a@),
            Err(e) => record_spec(row@) == Err::<AddressView, DecodeError>(e),
        },
{
    let id = read_uuid(row, "id")?;
    let status = read_code(row, "status")?;
    let darstatus = read_code(row, "darstatus")?;
    let vejkode = read_text(row, "vejkode")?;
    let vejnavn = read_text(row, "vejnavn")?;
    let adresseringsvejnavn = read_text(row, "adresseringsvejnavn")?;
    let husnr = read_text(row, "husnr")?;
    let etage = read_optional_text(row, "etage")?;
    let doer = read_optional_text(row, "dør")?;
    let supplerendebynavn = read_optional_text(row, "supplerendebynavn")?;
    let postnr = read_text(row, "postnr")?;
    let postnrnavn = read_text(row, "postnrnavn")?;
    let stormodtagerpostnr = read_optional_text(row, "stormodtagerpostnr")?;
    let stormodtagerpostnrnavn = read_optional_text(row, "stormodtagerpostnrnavn")?;
    let kommunekode = read_text(row, "kommunekode")?;
    let adgangsadresseid = read_uuid(row, "adgangsadresseid")?;
    let x = read_coordinate(row, "x")?;
    let y = read_coordinate(row, "y")?;
    let href = read_text(row, "href")?;
    let betegnelse = read_text(row, "betegnelse")?;
    Ok(DawaAddress {
        id,
        status,
        darstatus,
        vejkode,
        vejnavn,
        adresseringsvejnavn,
        husnr,
        etage,
        doer,
        supplerendebynavn,
        postnr,
        postnrnavn,
        stormodtagerpostnr,
        stormodtagerpostnrnavn,
        kommunekode,
        adgangsadresseid,
        x,
        y,
        href,
        betegnelse,
    })
}

} // verus!
