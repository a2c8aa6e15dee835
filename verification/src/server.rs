//! What the HTTP front end decides: the answer to a caller, and the count
//! that the liveness endpoint reports.

use crate::nodemng::NodeError;
use crate::pipeline::{NodeResult, PipelineError};
use vstd::prelude::*;

verus! {

/// The status of an answer that carries a node's packaged credentials.
pub const STATUS_OK: u16 = 200;

/// The status of an answer that carries an error in words.
pub const STATUS_SERVER_ERROR: u16 = 500;

/// An answer to a caller: an HTTP status and a body.
#[derive(Debug)]
pub struct Response {
    pub status: u16,
    pub body: String,
}

impl PipelineError {
    /// Whether `text` is the error in words.
    pub open spec fn is_message(self, text: String) -> bool {
        text@ == "provisioning pipeline unavailable"@
    }

    /// The error in words.
    pub fn message(&self) -> (text: String)
        ensures
            self.is_message(text),
    {
        "provisioning pipeline unavailable".to_string()
    }
}

/// The answer to the caller of a provisioning request. The packaged
/// credentials go out as they are. An error of the provisioning, and a
/// pipeline that did not take the request, go out in words, as a server
/// error.
pub fn response_for(reply: Result<NodeResult, PipelineError>) -> (response: Response)
    ensures
        match reply {
            Ok(Ok(artifact)) => response.status == STATUS_OK && response.body == artifact,
            Ok(Err(error)) => response.status == STATUS_SERVER_ERROR && error.is_message(
                response.body,
            ),
            Err(error) => response.status == STATUS_SERVER_ERROR && error.is_message(
                response.body,
            ),
        },
{
    match reply {
        Ok(Ok(artifact)) => Response { status: STATUS_OK, body: artifact },
        Ok(Err(error)) => Response { status: STATUS_SERVER_ERROR, body: error.message() },
        Err(error) => Response { status: STATUS_SERVER_ERROR, body: error.message() },
    }
}

/// The state behind the liveness endpoint: a count of its calls.
#[derive(Debug)]
pub struct AppState {
    pub size: i32,
}

impl AppState {
    /// Counts one call and returns the new count.
    pub fn add(&mut self) -> (size: i32)
        requires
            old(self).size < i32::MAX,
        ensures
            final(self).size == old(self).size + 1,
            size == final(self).size,
    {
        self.size = self.size + 1;
        self.size
    }
}

} // verus!
