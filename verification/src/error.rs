//! Errors of a measurement.
use vstd::prelude::*;
use vstd::string::StringExecFns;

verus! {

/// I/O errors of the standard library, carried through unopened.
#[verifier::external_type_specification]
#[verifier::external_body]
pub struct ExIoError(std::io::Error);

/// Errors of a measurement.
#[derive(Debug)]
pub enum TcpPerfError {
    /// An I/O error that occurred during network operations.
    IoError(std::io::Error),
    /// A network address that could not be parsed.
    AddressParseError(String),
    /// The connection closed before all announced data was transferred.
    ConnectionClosed,
}

/// The text of an I/O error as `std::io::Error`'s `Display` shows it. It is
/// the operating system's description for OS errors, so nothing is stated of
/// it.
#[verifier::external_body]
fn io_error_text(e: &std::io::Error) -> String {
    e.to_string()
}

/// The prefix of the message of an I/O error.
pub open spec fn io_error_prefix() -> Seq<char> {
    "I/O error: "@
}

/// The message of an I/O error whose own text is `text`: the prefix followed
/// by that text.
pub fn io_error_message(text: &str) -> (m: String)
    ensures
        m@ == io_error_prefix() + text@,
{
    let mut m = "I/O error: ".to_owned();
    m.append(text);
    m
}

impl TcpPerfError {
    /// The human-readable description of the error.
    pub fn message(&self) -> (m: String)
        ensures
            self matches TcpPerfError::IoError(_) ==> m@.subrange(0, io_error_prefix().len() as int)
                == io_error_prefix(),
            self matches TcpPerfError::AddressParseError(addr) ==> m@ == "Failed to parse address: "@
                + addr@,
            self matches TcpPerfError::ConnectionClosed ==> m@ == "Connection closed unexpectedly"@,
    {
        match self {
            TcpPerfError::IoError(e) => {
                let text = io_error_text(e);
                let m = io_error_message(text.as_str());
                assert((io_error_prefix() + text@).subrange(0, io_error_prefix().len() as int)
                    =~= io_error_prefix());
                m
            },
            TcpPerfError::AddressParseError(addr) => {
                let mut m = "Failed to parse address: ".to_owned();
                m.append(addr.as_str());
                m
            },
            TcpPerfError::ConnectionClosed => "Connection closed unexpectedly".to_owned(),
        }
    }
}

impl From<std::io::Error> for TcpPerfError {
    fn from(err: std::io::Error) -> (r: TcpPerfError) {
        TcpPerfError::IoError(err)
    }
}

impl vstd::std_specs::convert::FromSpecImpl<std::io::Error> for TcpPerfError {
    open spec fn obeys_from_spec() -> bool {
        true
    }

    open spec fn from_spec(err: std::io::Error) -> TcpPerfError {
        TcpPerfError::IoError(err)
    }
}

} // verus!
