//! The login decision: which credential checks pass, in which order, and
//! what each failure answers.

use vstd::prelude::*;
use vstd::string::StringExecFns;

use crate::database::UserDBEntry;
use crate::user::User;
use crate::wire;

verus! {

/// Credentials as the login endpoint receives them.
#[derive(Debug)]
pub struct LoginRequest {
    pub handle: String,
    pub password: String,
}

/// Why a login was refused.
#[derive(Debug, Clone, PartialEq, Eq, Structural)]
pub enum LoginError {
    /// The handle field was empty.
    EmptyHandle,
    /// The password field was empty.
    EmptyPassword,
    /// No stored user matches the handle.
    UnknownUser,
    /// The password does not match the stored one.
    WrongPassword,
    /// The token for the authenticated user could not be created.
    TokenCreation,
}

/// The status code each refusal is answered with.
pub open spec fn login_error_status(e: LoginError) -> u16 {
    match e {
        LoginError::EmptyHandle => 400,
        LoginError::EmptyPassword => 400,
        LoginError::UnknownUser => 401,
        LoginError::WrongPassword => 401,
        LoginError::TokenCreation => 500,
    }
}

/// The human-readable text each refusal is answered with.
pub open spec fn login_error_message(e: LoginError) -> Seq<char> {
    match e {
        LoginError::EmptyHandle => "field \"handle\" cannot be empty"@,
        LoginError::EmptyPassword => "field \"password\" cannot be empty"@,
        LoginError::UnknownUser => "No user found matching that handle"@,
        LoginError::WrongPassword => "invalid password"@,
        LoginError::TokenCreation => "Internal Server Error. Please report to an admin (probably via email...)"@,
    }
}

impl LoginError {
    pub fn status(&self) -> (r: u16)
        ensures
            r == login_error_status(*self),
    {
        match self {
            LoginError::EmptyHandle => 400,
            LoginError::EmptyPassword => 400,
            LoginError::UnknownUser => 401,
            LoginError::WrongPassword => 401,
            LoginError::TokenCreation => 500,
        }
    }

    /// The JSON body answering this refusal.
    pub fn response_body(&self) -> (r: String)
        ensures
            r@ == "{\"error\":true,\"value\":"@ + wire::json_string(login_error_message(*self))
                + "}"@,
    {
        let mut out = String::new();
        out.append("{\"error\":true,\"value\":");
        match self {
            LoginError::EmptyHandle => wire::append_json_string(
                &mut out,
                "field \"handle\" cannot be empty",
            ),
            LoginError::EmptyPassword => wire::append_json_string(
                &mut out,
                "field \"password\" cannot be empty",
            ),
            LoginError::UnknownUser => wire::append_json_string(
                &mut out,
                "No user found matching that handle",
            ),
            LoginError::WrongPassword => wire::append_json_string(&mut out, "invalid password"),
            LoginError::TokenCreation => wire::append_json_string(
                &mut out,
                "Internal Server Error. Please report to an admin (probably via email...)",
            ),
        }
        out.append("}");
        proof {
            assert(out@ =~= "{\"error\":true,\"value\":"@ + wire::json_string(
                login_error_message(*self),
            ) + "}"@);
        }
        out
    }
}

/// The JSON body answering a successful login, carrying the fresh token.
pub fn login_ok_body(token: &str) -> (r: String)
    ensures
        r@ == "{\"error\":false,\"token\":"@ + wire::json_string(token@) + "}"@,
{
    let mut out = String::new();
    out.append("{\"error\":false,\"token\":");
    wire::append_json_string(&mut out, token);
    out.append("}");
    proof {
        assert(out@ =~= "{\"error\":false,\"token\":"@ + wire::json_string(token@) + "}"@);
    }
    out
}

/// Decides a login from the request and from what storage found for the
/// handle. The checks run in order: an empty handle, then an empty
/// password, are bad requests; a handle the store does not know, then a
/// password that does not match the stored one, are refused as
/// unauthorized; otherwise the stored user is the one logging in, and a
/// token may be issued.
pub fn login_decision(body: &LoginRequest, fetched: Option<UserDBEntry>) -> (r: Result<
    User,
    LoginError,
>)
    ensures
        body.handle@.len() == 0 ==> r == Result::<User, LoginError>::Err(LoginError::EmptyHandle),
        body.handle@.len() > 0 && body.password@.len() == 0 ==> r == Result::<
            User,
            LoginError,
        >::Err(LoginError::EmptyPassword),
        body.handle@.len() > 0 && body.password@.len() > 0 && fetched is None ==> r == Result::<
            User,
            LoginError,
        >::Err(LoginError::UnknownUser),
        body.handle@.len() > 0 && body.password@.len() > 0 ==> (match fetched {
            Option::Some(entry) => {
                if body.password@ != entry.password_hash@ {
                    r == Result::<User, LoginError>::Err(LoginError::WrongPassword)
                } else {
                    r == Result::<User, LoginError>::Ok(entry.inner_user)
                }
            },
            Option::None => true,
        }),
{
    if body.handle.as_str().is_empty() {
        return Err(LoginError::EmptyHandle);
    }
    if body.password.as_str().is_empty() {
        return Err(LoginError::EmptyPassword);
    }
    let entry = match fetched {
        Option::Some(e) => e,
        Option::None => {
            return Err(LoginError::UnknownUser);
        },
    };
    if !(body.password == entry.password_hash) {
        return Err(LoginError::WrongPassword);
    }
    Ok(entry.inner_user)
}

} // verus!
