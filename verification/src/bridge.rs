//! The message bridge: from a raw text delivered by the embedding host to
//! the reply text posted back, if any.
//!
//! A text that is not a JSON document is dropped — there is no identifier
//! to correlate a reply to it.  Every other text gets exactly one reply:
//! a success for the catalog command, a failure envelope for everything
//! else, and the failure never tears the session down.  The bridge is
//! synchronous: the host calls it once per delivered message, on the
//! delivery thread, so replies keep the order the host delivers in.

use vstd::prelude::*;

use crate::decode::{spec_envelope_fields, spec_rid};
use crate::envelope::{
    encode_response, spec_response_text, ResponseModel, WebResponse,
};
use crate::media::spec_catalog;
use crate::services::{ServiceError, ServiceManager};

verus! {

/// The reply the bridge owes for a request text: `None` when the text is
/// not a JSON document, otherwise exactly one response envelope that
/// echoes the request's correlation identifier (empty when absent).
pub open spec fn spec_reply_model(text: Seq<char>) -> Option<ResponseModel> {
    match spec_envelope_fields(text) {
        None => None,
        Some(f) => {
            let rid = spec_rid(f.1);
            match f.0 {
                None => Some(
                    ResponseModel::Failure { request_id: rid, error: "Missing command"@ },
                ),
                Some(cmd) => {
                    if cmd == "getCatalog"@ {
                        Some(ResponseModel::Success { request_id: rid, data: spec_catalog() })
                    } else {
                        Some(
                            ResponseModel::Failure {
                                request_id: rid,
                                error: "Unknown command: "@ + cmd,
                            },
                        )
                    }
                },
            }
        },
    }
}

/// The native end of the interop channel: it owns the registry and turns
/// each delivered text into the reply to post back, if one is owed.
pub struct JsBridge {
    pub services: ServiceManager,
}

impl JsBridge {
    /// Wrap a registry.
    pub fn new(services: ServiceManager) -> (r: JsBridge) {
        JsBridge { services }
    }

    /// Handle one delivered text: `None` exactly when the text is dropped
    /// (not a JSON document), otherwise the wire text of the one reply the
    /// bridge owes.  A registry error becomes a failure envelope, never a
    /// torn-down session.
    pub fn handle_message(&self, message: &str) -> (r: Option<String>)
        ensures
            match spec_reply_model(message@) {
                None => r is None,
                Some(m) => r matches Some(s) && s@ == spec_response_text(m),
            },
    {
        match self.services.handle_web_message(message) {
            Ok(reply) => Some(reply),
            Err(ServiceError::Parse) => None,
            Err(e) => {
                let error = e.error_text();
                let request_id = match e {
                    ServiceError::Parse => String::new(),
                    ServiceError::MissingCommand { request_id } => request_id,
                    ServiceError::UnknownCommand { request_id, .. } => request_id,
                };
                let response = WebResponse::Failure { request_id, error };
                Some(encode_response(&response))
            },
        }
    }
}

/// A recognized catalog request always succeeds, and its data is the full
/// catalog, whatever arguments the request carried: the reply is fixed by
/// the command and the correlation identifier alone.
pub proof fn lemma_catalog_request_succeeds(text: Seq<char>, request_id: Option<Seq<char>>)
    requires
        spec_envelope_fields(text) == Some((Some("getCatalog"@), request_id)),
    ensures
        spec_reply_model(text) == Some(
            ResponseModel::Success { request_id: spec_rid(request_id), data: spec_catalog() },
        ),
{
}

/// An unrecognized command always fails, with the echoed correlation
/// identifier and exactly the text "Unknown command: " followed by the
/// command.
pub proof fn lemma_unknown_command_fails(
    text: Seq<char>,
    cmd: Seq<char>,
    request_id: Option<Seq<char>>,
)
    requires
        spec_envelope_fields(text) == Some((Some(cmd), request_id)),
        cmd != "getCatalog"@,
    ensures
        spec_reply_model(text) == Some(
            ResponseModel::Failure {
                request_id: spec_rid(request_id),
                error: "Unknown command: "@ + cmd,
            },
        ),
{
}

/// The correlation identifier round-trips: whenever a reply is owed at
/// all, it echoes the request's own identifier, and the empty one when the
/// request carried none.
pub proof fn lemma_request_id_round_trip(
    text: Seq<char>,
    cmd: Option<Seq<char>>,
    request_id: Option<Seq<char>>,
)
    requires
        spec_envelope_fields(text) == Some((cmd, request_id)),
    ensures
        spec_reply_model(text) matches Some(m) && m.echoed_request_id() == spec_rid(request_id),
{
}

} // verus!
