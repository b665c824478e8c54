use vstd::prelude::*;
use vstd::string::*;

verus! {

#[verifier::external_type_specification]
#[verifier::external_body]
pub struct ExIoError(std::io::Error);

/// An error that occurred while talking to a Bluetooth device.
#[derive(Debug)]
pub enum BtError {
    /// No specific information is known.
    Unknown,
    /// An OS error code, with the failing operation and the code's meaning.
    Errno(u32, String),
    /// A failure that only has a description.
    Desc(String),
    /// A lower-level I/O failure, passed on unchanged.
    IoError(std::io::Error),
}

impl From<std::io::Error> for BtError {
    fn from(error: std::io::Error) -> (r: BtError) {
        BtError::IoError(error)
    }
}

impl vstd::std_specs::convert::FromSpecImpl<std::io::Error> for BtError {
    open spec fn obeys_from_spec() -> bool {
        true
    }

    open spec fn from_spec(error: std::io::Error) -> BtError {
        BtError::IoError(error)
    }
}

/// What the OS error code `code` means, in words.
pub uninterp spec fn errno_description(code: i32) -> Seq<char>;

/// Relies on nix's `Display` for `Error::Sys(Errno::from_i32(code))`: the
/// symbolic name and meaning of an error code, which depend on the code alone.
#[verifier::external_body]
fn errno_text(code: i32) -> (r: String)
    ensures
        r@ == errno_description(code),
{
    nix::Error::from_errno(nix::errno::from_i32(code)).to_string()
}

/// The text `message: description of code`.
pub open spec fn errno_message(message: Seq<char>, code: i32) -> Seq<char> {
    message + seq![':', ' '] + errno_description(code)
}

/// `e` reports the OS error `code` met while doing `message`.
pub open spec fn is_errno_error(e: BtError, message: Seq<char>, code: i32) -> bool {
    match e {
        BtError::Errno(c, m) => c == #[verifier::truncate] (code as u32) && m@ == errno_message(message, code),
        _ => false,
    }
}

/// `e` is a failure described by `message`.
pub open spec fn is_desc_error(e: BtError, message: Seq<char>) -> bool {
    match e {
        BtError::Desc(m) => m@ == message,
        _ => false,
    }
}

/// The error for OS error `errno`, met while doing what `message` says.
pub fn create_error_from_errno(message: &str, errno: i32) -> (r: BtError)
    ensures
        is_errno_error(r, message@, errno),
{
    let mut text = String::from_str(message);
    proof { reveal_strlit(": "); }
    text.append(": ");
    assert(text@ == message@ + seq![':', ' ']);
    let description = errno_text(errno);
    text.append(description.as_str());
    BtError::Errno(#[verifier::truncate] (errno as u32), text)
}

/// A failure described by `message` alone.
pub fn create_error_from_desc(message: &str) -> (r: BtError)
    ensures
        is_desc_error(r, message@),
{
    BtError::Desc(String::from_str(message))
}

} // verus!
