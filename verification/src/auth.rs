//! The session that a registration opens, and where it is kept.

use crate::domain::RegisterResponse;
use crate::UserInfo;
use vstd::prelude::*;

verus! {

/// The name of the file, within the user's directory, that holds the session.
pub const CURRENT_USER_FILE: &'static str = "current_user.json";

/// The session that a registration opens: its token and its agent, unchanged.
/// This is what is kept, whole, in place of any session kept before.
pub fn session_of(register_resp: &RegisterResponse) -> (user_info: UserInfo)
    ensures
        user_info.token == register_resp.token,
        user_info.agent == register_resp.agent,
{
    UserInfo { agent: register_resp.agent.clone(), token: register_resp.token.clone() }
}

} // verus!
