//! Where SQL passwords are kept: the Windows Credential Manager entry of each
//! connection, its name, and the UTF-16 text the Windows API takes.
use vstd::prelude::*;
use crate::connection::utf8_text;

verus! {

pub open spec fn target_prefix() -> Seq<char> {
    "SageDataBridge/connection/"@
}

/// The Credential Manager entry of a connection.
pub fn target_name(connection_id: &str) -> (r: String)
    ensures
        r@ == target_prefix() + connection_id@,
{
    let mut r = String::from_str("SageDataBridge/connection/");
    r.append(connection_id);
    r
}

/// The UTF-16 code units of a character.
pub open spec fn utf16_units(c: char) -> Seq<u16> {
    let u = c as u32 as int;
    if u < 0x10000 {
        seq![u as u16]
    } else {
        seq![(0xD800 + (u - 0x10000) / 1024) as u16, (0xDC00 + (u - 0x10000) % 1024) as u16]
    }
}

pub open spec fn utf16_of(s: Seq<char>) -> Seq<u16>
    decreases s.len(),
{
    if s.len() == 0 {
        seq![]
    } else {
        utf16_of(s.drop_last()) + utf16_units(s.last())
    }
}

/// `wide`: the UTF-16 form of a text, with a terminating zero, as the
/// Windows API takes it.
pub fn wide(value: &str) -> (r: Vec<u16>)
    ensures
        r@ == utf16_of(value@).push(0u16),
{
    let mut r: Vec<u16> = Vec::new();
    for c in it: value.chars()
        invariant
            it.seq() == value@,
            r@ == utf16_of(it.seq().take(it.index() as int)),
    {
        assert(it.seq().take(it.index() + 1).drop_last() =~= it.seq().take(it.index() as int));
        let u = c as u32;
        if u < 0x10000 {
            r.push(u as u16);
        } else {
            let v = u - 0x10000;
            r.push((0xD800 + v / 1024) as u16);
            r.push((0xDC00 + v % 1024) as u16);
        }
        assert(r@ =~= utf16_of(it.seq().take(it.index() as int)) + utf16_units(c));
    }
    assert(value@.take(value@.len() as int) =~= value@);
    r.push(0);
    r
}

/// The text of the last operating-system error, as `std::io::Error`
/// prints it. It depends on the state of the process, so nothing is
/// claimed of it.
#[verifier::external_body]
fn last_os_error_text() -> (r: String) {
    std::io::Error::last_os_error().to_string()
}

/// `last_error`: the message of a failed Credential Manager call.
pub fn last_error(action: &str) -> (r: String)
    ensures
        r@.len() >= ("Windows Credential Manager "@ + action@ + " failed: "@).len(),
        r@.take(("Windows Credential Manager "@ + action@ + " failed: "@).len() as int)
            == "Windows Credential Manager "@ + action@ + " failed: "@,
{
    let mut r = String::from_str("Windows Credential Manager ");
    r.append(action);
    r.append(" failed: ");
    let ghost head = r@;
    r.append(last_os_error_text().as_str());
    assert(r@.take(head.len() as int) =~= head);
    r
}

pub open spec fn unavailable() -> Seq<char> {
    "Windows Credential Manager is only available on Windows"@
}

/// `write`: where there is no Credential Manager, storing a password fails.
pub fn write(connection_id: &str, secret: &str) -> (r: Result<(), String>)
    ensures
        r matches Err(e) && e@ == unavailable(),
{
    Err(String::from_str("Windows Credential Manager is only available on Windows"))
}

/// `read`: where there is no Credential Manager, reading a password fails.
pub fn read(connection_id: &str) -> (r: Result<Option<String>, String>)
    ensures
        r matches Err(e) && e@ == unavailable(),
{
    Err(String::from_str("Windows Credential Manager is only available on Windows"))
}

/// `delete`: where there is no Credential Manager, removing a password fails.
pub fn delete(connection_id: &str) -> (r: Result<(), String>)
    ensures
        r matches Err(e) && e@ == unavailable(),
{
    Err(String::from_str("Windows Credential Manager is only available on Windows"))
}

// ---------------------------------------------------------------------------
// Credential Manager answers
// ---------------------------------------------------------------------------

/// The Windows error a missing credential gives.
pub const ERROR_NOT_FOUND: i32 = 1168;

/// The size of a password as the Credential Manager stores it: it must fit
/// in 32 bits.
pub fn credential_blob_size(len: usize) -> (r: Result<u32, String>)
    ensures
        len <= u32::MAX ==> r == Ok::<u32, String>(len as u32),
        len > u32::MAX ==> (r matches Err(e) && e@ == "Database password is too large"@),
{
    if len <= 4294967295usize {
        Ok(len as u32)
    } else {
        Err(String::from_str("Database password is too large"))
    }
}

/// A failed Credential Manager call: the Windows error code, when there is
/// one, and the error's text.
pub struct CallFailure {
    pub code: Option<i32>,
    pub text: String,
}

/// The answer of a read: a missing entry is no password; another failure is
/// an error; a stored value must be UTF-8.
pub fn read_outcome(call: Result<Vec<u8>, CallFailure>) -> (r: Result<Option<String>, String>)
    ensures
        match call {
            Err(f) => if f.code == Some(ERROR_NOT_FOUND) {
                r matches Ok(None)
            } else {
                r matches Err(e) && e@ == "Windows Credential Manager read failed: "@ + f.text@
            },
            Ok(bytes) => if vstd::utf8::valid_utf8(bytes@) {
                r matches Ok(Some(s)) && s@ == vstd::utf8::decode_utf8(bytes@)
            } else {
                r matches Err(e) && e@ == "Stored database credential is not valid UTF-8"@
            },
        },
{
    match call {
        Err(f) => {
            if f.code == Some(ERROR_NOT_FOUND) {
                Ok(None)
            } else {
                let mut e = String::from_str("Windows Credential Manager read failed: ");
                e.append(f.text.as_str());
                Err(e)
            }
        },
        Ok(bytes) => match utf8_text(bytes.as_slice()) {
            Some(s) => Ok(Some(s)),
            None => Err(String::from_str("Stored database credential is not valid UTF-8")),
        },
    }
}

/// The answer of a delete: removing an entry that is not there succeeds.
pub fn delete_outcome(call: Result<(), CallFailure>) -> (r: Result<(), String>)
    ensures
        match call {
            Ok(()) => r is Ok,
            Err(f) => if f.code == Some(ERROR_NOT_FOUND) {
                r is Ok
            } else {
                r matches Err(e) && e@ == "Windows Credential Manager delete failed: "@ + f.text@
            },
        },
{
    match call {
        Ok(()) => Ok(()),
        Err(f) => {
            if f.code == Some(ERROR_NOT_FOUND) {
                Ok(())
            } else {
                let mut e = String::from_str("Windows Credential Manager delete failed: ");
                e.append(f.text.as_str());
                Err(e)
            }
        },
    }
}

} // verus!
