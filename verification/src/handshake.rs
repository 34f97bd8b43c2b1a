//! Method negotiation and the username/password sub-negotiation.

use vstd::prelude::*;
use vstd::slice::slice_subrange;
use vstd::slice::slice_to_vec;
use vstd::utf8::decode_utf8;
use vstd::utf8::valid_utf8;
use crate::address::decode_text;
use crate::consts;
use crate::error::CredentialFault;
use crate::error::SocksError;
use crate::error::SocksErrorView;
use crate::wire::Progress;
use crate::wire::Status;

verus! {

/// The status of the bytes read so far of a method request,
/// `[VER, NMETHODS, METHODS...]`: complete with the offered methods, or
/// failed on a version other than 5.
pub open spec fn methods_status(buf: Seq<u8>) -> Status<Seq<u8>> {
    if buf.len() < 2 {
        Status::Need((2 - buf.len()) as nat)
    } else if buf[0] != 0x05 {
        Status::Fail(SocksErrorView::UnsupportedSocksVersion(buf[0]))
    } else if buf.len() < 2 + buf[1] {
        Status::Need((2 + buf[1] - buf.len()) as nat)
    } else {
        Status::Complete(buf.subrange(2, 2 + buf[1]))
    }
}

/// Reads a method request as far as the bytes go.
pub fn get_methods(buf: &[u8]) -> (progress: Progress<Vec<u8>>)
    ensures
        progress@ == methods_status(buf@),
{
    let len = buf.len();
    if len < 2 {
        return Progress::Need(2 - len);
    }
    let version = buf[0];
    if version != consts::SOCKS5_VERSION {
        return Progress::Fail(SocksError::UnsupportedSocksVersion(version));
    }
    let count: usize = buf[1] as usize;
    if len < 2 + count {
        return Progress::Need(2 + count - len);
    }
    Progress::Complete(slice_to_vec(slice_subrange(buf, 2, 2 + count)))
}

/// The one method that a server requires: username and password where an
/// authenticator is configured, no authentication where none is.
pub open spec fn required_method(has_auth: bool) -> u8 {
    if has_auth {
        0x02
    } else {
        0x00
    }
}

/// The method that the server answers a list of offered methods with: the
/// required one if it was offered, and 0xFF if it was not.
pub open spec fn chosen_method(has_auth: bool, offered: Seq<u8>) -> u8 {
    if offered.contains(required_method(has_auth)) {
        required_method(has_auth)
    } else {
        0xff
    }
}

/// The method selection message for a list of offered methods.
pub open spec fn method_reply(has_auth: bool, offered: Seq<u8>) -> Seq<u8> {
    seq![0x05u8, chosen_method(has_auth, offered)]
}

/// Decides whether the server accepts one of the offered methods.
pub fn can_accept_method(has_auth: bool, client_methods: &[u8]) -> (accepted: bool)
    ensures
        accepted == client_methods@.contains(required_method(has_auth)),
        accepted == (chosen_method(has_auth, client_methods@) != 0xff),
{
    let required = if has_auth {
        consts::SOCKS5_AUTH_METHOD_PASSWORD
    } else {
        consts::SOCKS5_AUTH_METHOD_NONE
    };
    let mut i: usize = 0;
    while i < client_methods.len()
        invariant
            i <= client_methods@.len(),
            required == required_method(has_auth),
            forall|j: int| 0 <= j < i ==> client_methods@[j] != required,
        decreases client_methods@.len() - i,
    {
        if client_methods[i] == required {
            return true;
        }
        i += 1;
    }
    false
}

/// Writes the method selection message for a list of offered methods.
pub fn select_method(has_auth: bool, client_methods: &[u8]) -> (reply: Vec<u8>)
    ensures
        reply@ == method_reply(has_auth, client_methods@),
{
    let method = if !can_accept_method(has_auth, client_methods) {
        consts::SOCKS5_AUTH_METHOD_NOT_ACCEPTABLE
    } else if has_auth {
        consts::SOCKS5_AUTH_METHOD_PASSWORD
    } else {
        consts::SOCKS5_AUTH_METHOD_NONE
    };
    let mut reply: Vec<u8> = Vec::new();
    reply.push(consts::SOCKS5_VERSION);
    reply.push(method);
    assert(reply@ =~= method_reply(has_auth, client_methods@));
    reply
}

/// The status of the bytes read so far of a username/password message,
/// `[VER, ULEN, UNAME..., PLEN, PASSWD...]`.
///
/// The version byte is not examined. A length of zero fails as soon as it
/// is read; the two texts are decoded once the password is complete, the
/// username first.
pub open spec fn credentials_status(buf: Seq<u8>) -> Status<(Seq<char>, Seq<char>)> {
    if buf.len() < 2 {
        Status::Need((2 - buf.len()) as nat)
    } else {
        let ulen = buf[1] as int;
        if ulen == 0 {
            Status::Fail(SocksErrorView::AuthenticationFailed(CredentialFault::EmptyUsername))
        } else if buf.len() < 2 + ulen {
            Status::Need((2 + ulen - buf.len()) as nat)
        } else if buf.len() < 3 + ulen {
            Status::Need(1)
        } else {
            let plen = buf[2 + ulen] as int;
            let username = buf.subrange(2, 2 + ulen);
            let password = buf.subrange(3 + ulen, 3 + ulen + plen);
            if plen == 0 {
                Status::Fail(SocksErrorView::AuthenticationFailed(CredentialFault::EmptyPassword))
            } else if buf.len() < 3 + ulen + plen {
                Status::Need((3 + ulen + plen - buf.len()) as nat)
            } else if !valid_utf8(username) {
                Status::Fail(
                    SocksErrorView::AuthenticationFailed(CredentialFault::UsernameEncoding),
                )
            } else if !valid_utf8(password) {
                Status::Fail(
                    SocksErrorView::AuthenticationFailed(CredentialFault::PasswordEncoding),
                )
            } else {
                Status::Complete((decode_utf8(username), decode_utf8(password)))
            }
        }
    }
}

/// Reads a username/password message as far as the bytes go.
pub fn read_credentials(buf: &[u8]) -> (progress: Progress<(String, String)>)
    ensures
        progress@ == credentials_status(buf@),
{
    let len = buf.len();
    if len < 2 {
        return Progress::Need(2 - len);
    }
    let ulen: usize = buf[1] as usize;
    if ulen < 1 {
        return Progress::Fail(SocksError::AuthenticationFailed(CredentialFault::EmptyUsername));
    }
    if len < 2 + ulen {
        return Progress::Need(2 + ulen - len);
    }
    if len < 3 + ulen {
        return Progress::Need(1);
    }
    let plen: usize = buf[2 + ulen] as usize;
    if plen < 1 {
        return Progress::Fail(SocksError::AuthenticationFailed(CredentialFault::EmptyPassword));
    }
    if len < 3 + ulen + plen {
        return Progress::Need(3 + ulen + plen - len);
    }
    let username = match decode_text(slice_subrange(buf, 2, 2 + ulen)) {
        Some(text) => text,
        None => {
            return Progress::Fail(
                SocksError::AuthenticationFailed(CredentialFault::UsernameEncoding),
            );
        },
    };
    let password = match decode_text(slice_subrange(buf, 3 + ulen, 3 + ulen + plen)) {
        Some(text) => text,
        None => {
            return Progress::Fail(
                SocksError::AuthenticationFailed(CredentialFault::PasswordEncoding),
            );
        },
    };
    Progress::Complete((username, password))
}

/// The answer to a username/password message: `[0x01, 0x00]` where the
/// authenticator accepted, `[0x01, 0xFF]` where it rejected.
pub open spec fn auth_reply(accepted: bool) -> Seq<u8> {
    seq![0x01u8, if accepted { 0x00u8 } else { 0xffu8 }]
}

/// Writes the answer to a username/password message.
pub fn auth_reply_bytes(accepted: bool) -> (reply: Vec<u8>)
    ensures
        reply@ == auth_reply(accepted),
{
    let mut reply: Vec<u8> = Vec::new();
    reply.push(consts::SOCKS5_AUTH_VERSION);
    reply.push(
        if accepted {
            consts::SOCKS5_REPLY_SUCCEEDED
        } else {
            consts::SOCKS5_AUTH_METHOD_NOT_ACCEPTABLE
        },
    );
    assert(reply@ =~= auth_reply(accepted));
    reply
}

} // verus!
