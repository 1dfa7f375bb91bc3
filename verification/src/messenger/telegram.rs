//! Telegram backend configuration and the sign-in state machine.
//!
//! The MTProto client is not wired in yet: every step of the sign-in
//! flow records what the user asked for and then reports that the
//! backend is not implemented. The state machine is what the shell
//! drives from its login dialog.
use vstd::prelude::*;
use crate::error::{Error, Result};
use crate::text::chars_of;

verus! {

#[derive(Debug, Clone)]
pub struct TelegramConfig {
    pub api_id: i32,
    pub api_hash: String,
    /// Where the MTProto session file lives.
    pub session_path: String,
}

/// Message of every sign-in step while the client library is pending.
pub open spec fn not_implemented_msg() -> Seq<char> {
    "telegram backend not yet implemented — pending grammers-client integration"@
}

/// Message of a code submitted before one was requested.
pub open spec fn submit_before_request_msg() -> Seq<char> {
    "telegram: submit_code called before request_code"@
}

fn not_implemented() -> (e: Error)
    ensures
        e.msg() == not_implemented_msg(),
{
    let v = chars_of("telegram backend not yet implemented — pending grammers-client integration");
    Error::config(v.as_slice())
}

/// In-progress sign-in: the phone number a code was requested for.
#[derive(Debug, Default)]
pub struct LoginState {
    pub phone: Option<String>,
    pub code_requested: bool,
}

impl LoginState {
    pub fn new() -> (s: LoginState)
        ensures
            s.phone is None,
            !s.code_requested,
    {
        LoginState { phone: None, code_requested: false }
    }

    /// Step 1 of the login flow: remember the phone number and that a
    /// code was asked for. Fails while the client library is pending.
    pub fn request_code(&mut self, phone: &str) -> (r: Result<()>)
        ensures
            final(self).phone matches Some(p) && p@ == phone@,
            final(self).code_requested,
            r matches Err(e) && e.msg() == not_implemented_msg(),
    {
        self.phone = Some(phone.to_owned());
        self.code_requested = true;
        Err(not_implemented())
    }

    /// Step 2: hand the code (and an optional 2FA password) back. Refused
    /// before a code was requested; otherwise fails while the client
    /// library is pending.
    pub fn submit_code(&self, code: &str, password: Option<&str>) -> (r: Result<()>)
        ensures
            !self.code_requested ==> (r matches Err(e) && e.msg() == submit_before_request_msg()),
            self.code_requested ==> (r matches Err(e) && e.msg() == not_implemented_msg()),
    {
        if !self.code_requested {
            let v = chars_of("telegram: submit_code called before request_code");
            return Err(Error::config(v.as_slice()));
        }
        Err(not_implemented())
    }
}

} // verus!
