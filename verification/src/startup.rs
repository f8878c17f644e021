//! The start-up arguments: which role to take and, for the client, where
//! to dial.

use crate::turn::Role;
use vstd::prelude::*;
use vstd::string::StringExecFns;

verus! {

/// What a session is made from.
#[derive(Debug, PartialEq, Eq)]
pub struct Config {
    pub role: Role,
    /// The peer's address, as `host:port`. The client has one; the host
    /// listens on `listen_address()` and has none.
    pub address: Option<String>,
}

/// Why the arguments give no configuration.
#[derive(Debug, PartialEq, Eq)]
pub enum StartupError {
    /// There is no argument at all.
    MissingSelector,
    /// The client was selected and no address follows.
    MissingAddress,
    /// The first argument selects neither role; it is kept as it was
    /// given.
    UnknownSelector(String),
}

/// The argument that selects the host.
pub open spec fn host_selector() -> Seq<char> {
    "--host"@
}

/// The argument that selects the client.
pub open spec fn client_selector() -> Seq<char> {
    "--client"@
}

/// The address on which the host listens.
pub open spec fn listen_address_spec() -> Seq<char> {
    "127.0.0.1:8080"@
}

/// The role that the arguments select and the address that they give, if
/// they give a configuration. The arguments are those after the
/// program's own name; what follows the ones that are read is ignored.
pub open spec fn selected(args: Seq<Seq<char>>) -> Option<(Role, Option<Seq<char>>)> {
    if args.len() >= 1 && args[0] == host_selector() {
        Some((Role::Host, None))
    } else if args.len() >= 2 && args[0] == client_selector() {
        Some((Role::Client, Some(args[1])))
    } else {
        None
    }
}

/// The arguments as sequences of characters.
pub open spec fn args_view(args: Vec<String>) -> Seq<Seq<char>> {
    Seq::new(args@.len(), |i: int| args@[i]@)
}

/// Gives the address on which the host listens.
pub fn listen_address() -> (addr: String)
    ensures
        addr@ == listen_address_spec(),
{
    String::from_str("127.0.0.1:8080")
}

/// Reads the arguments that follow the program's name. `--host` selects
/// the host. `--client` selects the client and must be followed by the
/// address to dial. No argument, no address after `--client`, and any
/// other first argument are errors, the last one with the argument in
/// it.
pub fn parse_args(args: &Vec<String>) -> (res: Result<Config, StartupError>)
    ensures
        res is Ok <==> selected(args_view(*args)) is Some,
        match res {
            Ok(config) => selected(args_view(*args)) == Some(
                (
                    config.role,
                    match config.address {
                        Some(a) => Some(a@),
                        None => None,
                    },
                ),
            ),
            Err(StartupError::MissingSelector) => args@.len() == 0,
            Err(StartupError::MissingAddress) => args@.len() == 1 && args@[0]@
                == client_selector(),
            Err(StartupError::UnknownSelector(bad)) => args@.len() >= 1 && bad@ == args@[0]@
                && bad@ != host_selector() && bad@ != client_selector(),
        },
{
    if args.len() == 0 {
        return Err(StartupError::MissingSelector);
    }
    let host = String::from_str("--host");
    let client = String::from_str("--client");
    if args[0] == host {
        Ok(Config { role: Role::Host, address: None })
    } else if args[0] == client {
        if args.len() < 2 {
            Err(StartupError::MissingAddress)
        } else {
            Ok(Config { role: Role::Client, address: Some(args[1].clone()) })
        }
    } else {
        Err(StartupError::UnknownSelector(args[0].clone()))
    }
}

impl StartupError {
    /// The diagnostic for this error, as characters.
    pub open spec fn text(self) -> Seq<char> {
        match self {
            StartupError::MissingSelector => "Expected arguments: --host or --client 'ip'"@,
            StartupError::MissingAddress => "Expected ip address after --client"@,
            StartupError::UnknownSelector(bad) => "Unknown command: "@ + bad@,
        }
    }

    /// Gives the diagnostic to show for this error. For a first argument
    /// that selects no role it names that argument.
    pub fn message(&self) -> (msg: String)
        ensures
            msg@ == self.text(),
    {
        match self {
            StartupError::MissingSelector => String::from_str(
                "Expected arguments: --host or --client 'ip'",
            ),
            StartupError::MissingAddress => String::from_str("Expected ip address after --client"),
            StartupError::UnknownSelector(bad) => String::from_str("Unknown command: ").concat(
                bad.as_str(),
            ),
        }
    }
}

} // verus!
