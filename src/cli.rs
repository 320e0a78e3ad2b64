use vstd::prelude::*;

verus! {

/// The lowest port the server may listen on.
pub const MIN_PORT: u16 = 1024;

/// The value of a string of decimal digits.
pub open spec fn digits_value(s: Seq<char>) -> int
    decreases s.len(),
{
    if s.len() == 0 {
        0
    } else {
        digits_value(s.drop_last()) * 10 + (s.last() as int - '0' as int)
    }
}

/// What reading `s` as a `u16` gives: an optional `+` and then one or more
/// decimal digits whose value fits.
pub open spec fn decimal_u16(s: Seq<char>) -> Option<u16> {
    let d = if s.len() > 0 && s[0] == '+' {
        s.drop_first()
    } else {
        s
    };
    if d.len() > 0 && (forall|i: int| 0 <= i < d.len() ==> '0' <= #[trigger] d[i] <= '9')
        && digits_value(d) <= 65535 {
        Some(digits_value(d) as u16)
    } else {
        None
    }
}

/// Relies on `str::parse::<u16>`: an optional `+` followed by decimal
/// digits only, with no other characters and no overflow.
#[verifier::external_body]
fn parse_u16(s: &str) -> (r: Option<u16>)
    ensures
        r == decimal_u16(s@),
{
    s.parse::<u16>().ok()
}

/// Why a port argument is refused.
#[derive(Clone, Copy, Debug, PartialEq, Eq, Structural)]
pub enum PortError {
    /// The text is not a port number.
    NotANumber,
    /// The port is below the lowest one allowed.
    TooLow(u16),
}

/// Reads a port argument: a number from 1024 to 65535.
pub fn port_in_range(s: &str) -> (r: Result<u16, PortError>)
    ensures
        match decimal_u16(s@) {
            None => r == Err::<u16, PortError>(PortError::NotANumber),
            Some(p) => if p < MIN_PORT {
                r == Err::<u16, PortError>(PortError::TooLow(p))
            } else {
                r == Ok::<u16, PortError>(p)
            },
        },
{
    match parse_u16(s) {
        None => Err(PortError::NotANumber),
        Some(port) => if port < MIN_PORT {
            Err(PortError::TooLow(port))
        } else {
            Ok(port)
        },
    }
}

/// How much the server logs.
#[derive(Clone, Copy, Debug, PartialEq, Eq, Structural)]
pub enum CliLogLevel {
    Off,
    Error,
    Warn,
    Info,
    Debug,
    Trace,
}

/// The command line of the server.
#[derive(Clone, Debug)]
pub struct Cli {
    /// The directory to save uploaded files in.
    pub dir: String,
    /// The port to listen on.
    pub port: u16,
    /// Whether a missing upload directory is created.
    pub create_parent_dirs: bool,
    /// How much to log.
    pub log_level: Option<CliLogLevel>,
}

} // verus!
