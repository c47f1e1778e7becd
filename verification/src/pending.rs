//! In-flight state of the remote OAuth2 flow: what it holds and when a
//! saved copy may be used. Reading and writing the file is the caller's.

use vstd::prelude::*;

use crate::error::Error;
use crate::text::{decimal, owned, push_str, u64_string};

verus! {

/// Maximum age, in seconds, of a pending state before it expires.
pub const PENDING_TTL_SECS: u64 = 900;

/// A snapshot of an in-flight OAuth2 PKCE authorization.
#[derive(Debug, Clone)]
pub struct PendingOAuth2State {
    pub code_verifier: String,
    pub state: String,
    pub client_id: String,
    pub redirect_uri: String,
    pub app_name: String,
    /// Unix seconds when the authorization was started.
    pub created_at: u64,
}

/// The state of a remote flow started at `created_at`.
pub fn new_pending_state(
    code_verifier: &str,
    state: &str,
    client_id: &str,
    redirect_uri: &str,
    app_name: &str,
    created_at: u64,
) -> (r: PendingOAuth2State)
    ensures
        r.code_verifier@ == code_verifier@,
        r.state@ == state@,
        r.client_id@ == client_id@,
        r.redirect_uri@ == redirect_uri@,
        r.app_name@ == app_name@,
        r.created_at == created_at,
{
    PendingOAuth2State {
        code_verifier: owned(code_verifier),
        state: owned(state),
        client_id: owned(client_id),
        redirect_uri: owned(redirect_uri),
        app_name: owned(app_name),
        created_at,
    }
}

/// A state created at `created_at` has expired at time `now` (a clock
/// behind the creation time counts as no time passed).
pub fn is_pending_expired(created_at: u64, now: u64) -> (r: bool)
    ensures
        r == (now > created_at && now - created_at > PENDING_TTL_SECS),
{
    now.saturating_sub(created_at) > PENDING_TTL_SECS
}

/// The error for an expired state.
pub fn expired_error() -> (r: Error)
    ensures
        r matches Error::Auth(m) && m@ == "PendingStateExpired: pending OAuth2 state is older than 15 minutes"@,
{
    Error::Auth(owned("PendingStateExpired: pending OAuth2 state is older than 15 minutes"))
}

/// The error for a missing state file.
pub fn not_found_error() -> (r: Error)
    ensures
        r matches Error::Auth(m) && m@ == "PendingStateNotFound: no pending OAuth2 state file found"@,
{
    Error::Auth(owned("PendingStateNotFound: no pending OAuth2 state file found"))
}

/// Four octal digits of a permission mode below `0o10000`.
pub open spec fn octal4(m: nat) -> Seq<char> {
    seq![
        ((m / 512) % 8 + 48) as char,
        ((m / 64) % 8 + 48) as char,
        ((m / 8) % 8 + 48) as char,
        (m % 8 + 48) as char,
    ]
}

/// One octal digit.
fn octal_digit(d: u32) -> (c: char)
    requires
        d < 8,
    ensures
        c == (d + 48) as char,
{
    match d {
        0 => '0',
        1 => '1',
        2 => '2',
        3 => '3',
        4 => '4',
        5 => '5',
        6 => '6',
        _ => '7',
    }
}

/// Checks a state file's permission bits and owner: it must be mode
/// `0600` (of the low nine bits) and owned by the current user.
pub fn check_pending_permissions(mode: u32, file_uid: u32, current_uid: u32) -> (r: Result<(), Error>)
    ensures
        mode % 512 != 384 ==> (r matches Err(Error::Auth(m)) && m@
            == "PendingStatePermissions: expected mode 0600, got "@ + octal4((mode % 512) as nat)),
        mode % 512 == 384 && file_uid != current_uid ==> (r matches Err(Error::Auth(m)) && m@
            == "PendingStatePermissions: file owned by uid "@ + decimal(file_uid as nat) + ", expected "@ + decimal(
            current_uid as nat,
        )),
        mode % 512 == 384 && file_uid == current_uid ==> r is Ok,
{
    let m = mode % 512;
    if m != 384 {
        let mut s = owned("PendingStatePermissions: expected mode 0600, got ");
        s.push(octal_digit((m / 512) % 8));
        s.push(octal_digit((m / 64) % 8));
        s.push(octal_digit((m / 8) % 8));
        s.push(octal_digit(m % 8));
        proof {
            assert(s@ =~= "PendingStatePermissions: expected mode 0600, got "@ + octal4(m as nat));
        }
        return Err(Error::Auth(s));
    }
    if file_uid != current_uid {
        let mut s = owned("PendingStatePermissions: file owned by uid ");
        push_str(&mut s, u64_string(file_uid as u64).as_str());
        push_str(&mut s, ", expected ");
        push_str(&mut s, u64_string(current_uid as u64).as_str());
        return Err(Error::Auth(s));
    }
    Ok(())
}

} // verus!
