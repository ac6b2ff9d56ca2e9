use vstd::prelude::*;
use crate::error::DawaError;
use crate::query::{request_url, request_url_spec};

verus! {

/// The two positional arguments: street name and house number.
#[derive(Debug)]
pub struct CliArgs {
    pub street_name: String,
    pub house_number: String,
}

/// Reads the street name and the house number, in that order, from the
/// arguments that follow the program name.  Arguments after the second are
/// ignored.
pub fn parse_cli(args: &Vec<String>) -> (r: Result<CliArgs, DawaError>)
    ensures
        args@.len() < 2 ==> r == Err::<CliArgs, DawaError>(DawaError::Usage),
        args@.len() >= 2 ==> (r matches Ok(c) && c.street_name@ == args@[0]@
            && c.house_number@ == args@[1]@),
{
    if args.len() < 2 {
        return Err(DawaError::Usage);
    }
    Ok(CliArgs { street_name: args[0].clone(), house_number: args[1].clone() })
}

/// The one request that an invocation makes, or the usage error, which
/// leaves nothing to send.
pub fn request_for(args: &Vec<String>) -> (r: Result<String, DawaError>)
    ensures
        args@.len() < 2 ==> r == Err::<String, DawaError>(DawaError::Usage),
        args@.len() >= 2 ==> (r matches Ok(url) && url@ == request_url_spec(args@[0]@, args@[1]@)),
{
    let cli = parse_cli(args)?;
    Ok(request_url(cli.street_name.as_str(), cli.house_number.as_str()))
}

} // verus!
