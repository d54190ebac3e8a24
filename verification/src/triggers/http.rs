use vstd::prelude::*;

use super::{send_event, Trigger, TriggerError};
use crate::context::Context;

verus! {

#[verifier::external_type_specification]
#[verifier::external_body]
pub struct ExServer(tiny_http::Server);

#[verifier::external_type_specification]
#[verifier::external_body]
pub struct ExRequest(tiny_http::Request);

/// A trigger that emits on every incoming HTTP request.
///
/// Every method and URL triggers; the reply is always `200` with a plain
/// `OK` body, so that a repository host's webhook can drive the loop.
pub struct HttpTrigger {
    pub http: String,
}

/// The error cases for the HTTP trigger.
#[derive(Debug)]
pub enum HttpError {
    /// The server could not be started on the given address.
    CantStartServer(String),
    /// An emission failed because the receiving end hung up.
    ReceiverHangup,
    /// Sending a response failed; the parameter holds the message.
    FailedResponse(String),
}

impl HttpError {
    /// Lifts the HTTP error into the trigger taxonomy.
    pub fn into_trigger(self) -> (r: TriggerError)
        ensures
            (self is CantStartServer) == (r is Misconfigured),
            (self is ReceiverHangup) == (r is ReceiverHangup),
            (self is FailedResponse) == (r is FailedTrigger),
    {
        match self {
            HttpError::CantStartServer(addr) => TriggerError::Misconfigured(addr),
            HttpError::ReceiverHangup => TriggerError::ReceiverHangup,
            HttpError::FailedResponse(message) => TriggerError::FailedTrigger(message),
        }
    }
}

/// Relies on tiny_http::Server::http: binds an HTTP/1.1 server on the
/// address; `None` when binding fails.
#[verifier::external_body]
fn server_http(addr: &str) -> Option<tiny_http::Server> {
    tiny_http::Server::http(addr).ok()
}

/// Relies on tiny_http::Server::recv: blocks for the next request; `None`
/// when accepting fails.
#[verifier::external_body]
fn server_recv(server: &tiny_http::Server) -> Option<tiny_http::Request> {
    server.recv().ok()
}

/// Relies on tiny_http::Request::method and its text form.
#[verifier::external_body]
fn request_method_str(request: &tiny_http::Request) -> String {
    request.method().to_string()
}

/// Relies on tiny_http::Request::url.
#[verifier::external_body]
fn request_url_str(request: &tiny_http::Request) -> String {
    request.url().to_string()
}

/// Relies on tiny_http::Request::respond with tiny_http::Response::from_string:
/// replies with status `200` and the given body.
#[verifier::external_body]
fn respond_ok(request: tiny_http::Request, body: &str) -> Result<(), String> {
    request.respond(tiny_http::Response::from_string(body)).map_err(|err| err.to_string())
}

/// The emission rule: a message the channel refused means the receiving
/// end is gone, which ends the trigger with the hang-up error.
pub fn classify_emission(sent: bool) -> (r: Result<(), HttpError>)
    ensures
        sent == (r is Ok),
        r matches Err(e) ==> e is ReceiverHangup,
{
    if sent {
        Ok(())
    } else {
        Err(HttpError::ReceiverHangup)
    }
}

/// The context of one HTTP emission: the trigger name, the request method
/// and the request URL.
pub fn http_context(method: &str, url: &str) -> (r: Context)
    ensures
        r.wf(),
        r@ == Map::<Seq<char>, Seq<char>>::empty().insert("TRIGGER_NAME"@, "HTTP"@).insert(
            "HTTP_METHOD"@,
            method@,
        ).insert("HTTP_URL"@, url@),
{
    proof {
        reveal_strlit("TRIGGER_NAME");
        reveal_strlit("HTTP_METHOD");
        reveal_strlit("HTTP_URL");
        assert("TRIGGER_NAME"@.len() == 12);
        assert("HTTP_METHOD"@.len() == 11);
        assert("HTTP_URL"@.len() == 8);
        assert("TRIGGER_NAME"@ != "HTTP_METHOD"@);
        assert("TRIGGER_NAME"@ != "HTTP_URL"@);
        assert("HTTP_METHOD"@ != "HTTP_URL"@);
    }
    let mut context = Context::new();
    context.insert("TRIGGER_NAME", "HTTP".to_owned());
    context.insert("HTTP_METHOD", method.to_owned());
    context.insert("HTTP_URL", url.to_owned());
    context
}

impl HttpTrigger {
    /// Creates an HTTP trigger for an address such as `0.0.0.0:1234`.
    pub fn new(http: String) -> (r: Self)
        ensures
            r.http == http,
    {
        Self { http }
    }

    /// Binds the server and emits one event per incoming request, replying
    /// `200 OK` to each; a bind failure is a misconfiguration.
    pub fn listen_inner(&self, tx: std::sync::mpsc::Sender<Option<Context>>) -> (r: Result<
        (),
        HttpError,
    >)
        ensures
            r matches Err(e) ==> e is CantStartServer || e is ReceiverHangup
                || e is FailedResponse,
            r matches Err(e) ==> (e matches HttpError::CantStartServer(a) ==> a@ == self.http@),
    {
        let server = match server_http(self.http.as_str()) {
            Some(server) => server,
            None => {
                return Err(HttpError::CantStartServer(self.http.clone()));
            },
        };
        // The decrease is a formality: the budget is far beyond any
        // reachable number of requests.
        let mut budget: u64 = u64::MAX;
        while budget > 0
            decreases budget,
        {
            budget = budget - 1;
            match server_recv(&server) {
                Some(request) => {
                    let method = request_method_str(&request);
                    let url = request_url_str(&request);
                    let context = http_context(method.as_str(), url.as_str());
                    match classify_emission(send_event(&tx, Some(context))) {
                        Ok(()) => {
                        },
                        Err(e) => {
                            return Err(e);
                        },
                    }
                    match respond_ok(request, "OK") {
                        Ok(()) => {
                        },
                        Err(message) => {
                            return Err(HttpError::FailedResponse(message));
                        },
                    }
                },
                None => {
                    return Ok(());
                },
            }
        }
        Ok(())
    }
}

impl Trigger for HttpTrigger {
    /// Serves HTTP requests, each one triggering a check.
    fn listen(&self, tx: std::sync::mpsc::Sender<Option<Context>>) -> Result<(), TriggerError> {
        match self.listen_inner(tx) {
            Ok(()) => Ok(()),
            Err(e) => Err(e.into_trigger()),
        }
    }
}

} // verus!
