//! The request/response front door: the health check and the ingress
//! gateway, the one publish path that does not go through a connection.

use vstd::prelude::*;
use vstd::string::StringExecFns;

use crate::bus;
use crate::socket_server::ChannelMessage;
use crate::user::User;
use crate::wire;

verus! {

/// An error answered by a request/response endpoint.
#[derive(Debug)]
pub enum ApiError {
    NotFound,
    BadRequest(String),
    /// The submission's token did not validate.
    Unauthorized,
    InternalServerError,
}

/// The status code each error is answered with.
pub open spec fn api_error_status(e: &ApiError) -> u16 {
    match e {
        ApiError::NotFound => 404,
        ApiError::BadRequest(_) => 400,
        ApiError::Unauthorized => 401,
        ApiError::InternalServerError => 500,
    }
}

/// The human-readable text each error is answered with.
pub open spec fn api_error_message(e: &ApiError) -> Seq<char> {
    match e {
        ApiError::NotFound => "404 Not found."@,
        ApiError::BadRequest(m) => m@,
        ApiError::Unauthorized => "invalid token"@,
        ApiError::InternalServerError => "Internal Server error, which is to say: not your fault. Contact an Admin."@,
    }
}

impl ApiError {
    /// The status code and the JSON body, `{"error": <message>}`, that
    /// answer this error.
    pub fn status_and_body(&self) -> (r: (u16, String))
        ensures
            r.0 == api_error_status(self),
            r.1@ == "{\"error\":"@ + wire::json_string(api_error_message(self)) + "}"@,
    {
        let status: u16 = match self {
            ApiError::NotFound => 404,
            ApiError::BadRequest(_) => 400,
            ApiError::Unauthorized => 401,
            ApiError::InternalServerError => 500,
        };
        let mut body = String::new();
        body.append("{\"error\":");
        match self {
            ApiError::NotFound => wire::append_json_string(&mut body, "404 Not found."),
            ApiError::BadRequest(m) => wire::append_json_string(&mut body, m.as_str()),
            ApiError::Unauthorized => wire::append_json_string(&mut body, "invalid token"),
            ApiError::InternalServerError => wire::append_json_string(
                &mut body,
                "Internal Server error, which is to say: not your fault. Contact an Admin.",
            ),
        }
        body.append("}");
        proof {
            assert(body@ =~= "{\"error\":"@ + wire::json_string(api_error_message(self)) + "}"@);
        }
        (status, body)
    }
}

/// The request/response endpoint of the relay.
pub struct Server {
    port: usize,
}

impl Server {
    /// Which port the endpoint will listen on.
    pub closed spec fn spec_port(&self) -> usize {
        self.port
    }

    pub fn new(port: usize) -> (r: Self)
        ensures
            r.spec_port() == port,
    {
        Server { port }
    }

    pub fn port(&self) -> (r: usize)
        ensures
            r == self.spec_port(),
    {
        self.port
    }

    /// The body answering the health check.
    pub fn health_check() -> (r: String)
        ensures
            r@ == "{\"message\":\"TRCd Server is running.\",\"status\":\"ok\"}"@,
    {
        "{\"message\":\"TRCd Server is running.\",\"status\":\"ok\"}".to_owned()
    }

    /// The ingress gateway: accepts an out-of-band submission together with
    /// the identity gate's verdict on its token, and injects the envelope
    /// onto the bus without going through any connection.
    ///
    /// Empty content is rejected before anything else; a submission whose
    /// token did not resolve to an identity is unauthorized; everything else
    /// publishes exactly one envelope — the channel, the body, the resolved
    /// identity as the sender — through the given handle, and succeeds even
    /// when no subscriber is listening. A rejected submission publishes
    /// nothing.
    pub fn new_message(
        tx: &mut bus::BusSender,
        auth: Option<User>,
        channel_name: String,
        body: String,
    ) -> (r: Result<(), ApiError>)
        ensures
            body@.len() == 0 ==> ((r matches Err(e) && e matches ApiError::BadRequest(m) && m@
                == "body length cannot be 0"@) && final(tx).log@ == old(tx).log@),
            body@.len() > 0 && auth is None ==> ((r matches Err(e) && e is Unauthorized)
                && final(tx).log@ == old(tx).log@),
            body@.len() > 0 ==> (auth matches Some(u) ==> (r is Ok && final(tx).log@
                == old(tx).log@.push(
                (ChannelMessage { channel: channel_name, content: body, sender: u }),
            ))),
    {
        if body.as_str().is_empty() {
            return Err(ApiError::BadRequest("body length cannot be 0".to_owned()));
        }
        let user = match auth {
            Option::Some(u) => u,
            Option::None => {
                return Err(ApiError::Unauthorized);
            },
        };
        let message = ChannelMessage { channel: channel_name, content: body, sender: user };
        let _ = bus::bus_send(tx, message);
        Ok(())
    }
}

} // verus!
