use vstd::prelude::*;
use vstd::string::StringExecFns;

verus! {

/// The transport that the server speaks.
#[derive(Clone, Copy, Debug, PartialEq, Eq, Structural)]
pub enum Protocol {
    Tcp,
    Udp,
}

/// Where to listen and with which transport.
pub struct Config {
    pub address: String,
    pub port: String,
    pub protocol: Protocol,
}

/// Why the arguments were rejected.
pub enum ArgError {
    /// A single argument was given: an address without a port.
    Usage,
    /// The protocol argument is neither `tcp` nor `udp`.
    InvalidProtocol { token: String },
}

pub open spec fn default_address() -> Seq<char> {
    "127.0.0.1"@
}

pub open spec fn default_port() -> Seq<char> {
    "12345"@
}

/// The protocol that a protocol argument names, if any.
pub open spec fn protocol_named(token: Seq<char>) -> Option<Protocol> {
    if token == "tcp"@ {
        Some(Protocol::Tcp)
    } else if token == "udp"@ {
        Some(Protocol::Udp)
    } else {
        None
    }
}

/// The address to bind: `address:port`.
pub open spec fn bind_target(address: Seq<char>, port: Seq<char>) -> Seq<char> {
    address + ":"@ + port
}

/// Reads the command-line arguments (the program's name left out):
/// `[address port [protocol]]`. No arguments select `127.0.0.1:12345` over TCP;
/// a missing protocol selects TCP; arguments after the protocol are ignored.
pub fn parse_args(args: &Vec<String>) -> (r: Result<Config, ArgError>)
    ensures
        args@.len() == 0 ==> (r matches Ok(c) && c.address@ == default_address() && c.port@
            == default_port() && c.protocol == Protocol::Tcp),
        args@.len() == 1 ==> r matches Err(ArgError::Usage),
        args@.len() == 2 ==> (r matches Ok(c) && c.address@ == args@[0]@ && c.port@
            == args@[1]@ && c.protocol == Protocol::Tcp),
        args@.len() >= 3 ==> match protocol_named(args@[2]@) {
            Some(p) => r matches Ok(c) && c.address@ == args@[0]@ && c.port@ == args@[1]@
                && c.protocol == p,
            None => r matches Err(ArgError::InvalidProtocol { token }) && token@ == args@[2]@,
        },
{
    proof {
        reveal_strlit("127.0.0.1");
        reveal_strlit("12345");
        reveal_strlit("tcp");
        reveal_strlit("udp");
    }
    if args.len() == 0 {
        return Ok(
            Config {
                address: String::from_str("127.0.0.1"),
                port: String::from_str("12345"),
                protocol: Protocol::Tcp,
            },
        );
    }
    if args.len() == 1 {
        return Err(ArgError::Usage);
    }
    let address = args[0].clone();
    let port = args[1].clone();
    if args.len() == 2 {
        return Ok(Config { address, port, protocol: Protocol::Tcp });
    }
    let token = &args[2];
    if *token == String::from_str("tcp") {
        Ok(Config { address, port, protocol: Protocol::Tcp })
    } else if *token == String::from_str("udp") {
        Ok(Config { address, port, protocol: Protocol::Udp })
    } else {
        Err(ArgError::InvalidProtocol { token: token.clone() })
    }
}

impl Config {
    /// The address to bind, `address:port`.
    pub fn bind_target(&self) -> (r: String)
        ensures
            r@ == bind_target(self.address@, self.port@),
    {
        proof {
            reveal_strlit(":");
        }
        let mut s = self.address.clone();
        s.append(":");
        s.append(self.port.as_str());
        s
    }
}

} // verus!
