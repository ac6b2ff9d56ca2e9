//! Client library for the Danish address registry: builds the address-search
//! request, classifies the registry's answer, decodes address records and
//! renders them for the terminal.

pub mod address;
pub mod cli;
pub mod error;
pub mod json;
pub mod query;
pub mod response;

pub use address::{decode_record, DawaAddress};
pub use cli::{parse_cli, request_for, CliArgs};
pub use error::{DawaError, DecodeError, USAGE};
pub use json::{find_field, FieldValue, Row};
pub use query::{encode_component, request_url, ENDPOINT};
pub use response::{
    decode_body, decode_records, parse_response, render_addresses, respond, STATUS_OK,
};
