use vstd::prelude::*;

verus! {

/// The fixed usage line reported when an argument is missing.
pub const USAGE: &'static str = "Usage: dawaclient <street name> <house number>";

/// Why a successful response could not be read as address records.
#[derive(Debug, Clone, Copy, PartialEq, Eq)]
pub enum DecodeError {
    /// The body is not a JSON array of objects.
    Malformed,
    /// A record lacks a member that every address has.
    MissingField(&'static str),
    /// A record holds a member of the wrong type, or an identifier that is
    /// no UUID.
    InvalidField(&'static str),
}

/// Every way in which one lookup can fail.
#[derive(Debug, PartialEq, Eq)]
pub enum DawaError {
    /// A required argument is missing.
    Usage,
    /// The registry could not be reached.
    Transport(String),
    /// The registry answered with a status other than 200; its body, as sent.
    Registry(String),
    /// The registry answered 200 with a body that is no list of addresses.
    Decode(DecodeError),
}

pub open spec fn decode_detail(e: DecodeError) -> Seq<char> {
    match e {
        DecodeError::Malformed => "malformed JSON in response"@,
        DecodeError::MissingField(name) => "missing field `"@ + name@ + "`"@,
        DecodeError::InvalidField(name) => "invalid value for field `"@ + name@ + "`"@,
    }
}

pub open spec fn error_detail(e: DawaError) -> Seq<char> {
    match e {
        DawaError::Usage => USAGE@,
        DawaError::Transport(m) => m@,
        DawaError::Registry(body) => body@,
        DawaError::Decode(d) => decode_detail(d),
    }
}

impl DecodeError {
    pub fn detail(&self) -> (r: String)
        ensures
            r@ == decode_detail(*self),
    {
        match self {
            DecodeError::Malformed => String::from_str("malformed JSON in response"),
            DecodeError::MissingField(name) => {
                let mut r = String::from_str("missing field `");
                r.append(name);
                r.append("`");
                r
            },
            DecodeError::InvalidField(name) => {
                let mut r = String::from_str("invalid value for field `");
                r.append(name);
                r.append("`");
                r
            },
        }
    }
}

impl DawaError {
    /// The one line reported for this error: `Error: ` and its detail.
    pub fn message(&self) -> (r: String)
        ensures
            r@ == "Error: "@ + error_detail(*self),
    {
        let mut r = String::from_str("Error: ");
        match self {
            DawaError::Usage => r.append(USAGE),
            DawaError::Transport(m) => r.append(m.as_str()),
            DawaError::Registry(body) => r.append(body.as_str()),
            DawaError::Decode(d) => r.append(d.detail().as_str()),
        }
        r
    }
}

} // verus!
