//! The service registry: backend services behind their own locks, and one
//! entry point that takes a raw request text and produces either the
//! successful response text or a structured error.

use vstd::prelude::*;
use vstd::rwlock::RwLock;
use vstd::string::*;

use crate::decode::{decode_envelope, spec_envelope_fields, spec_rid};
use crate::envelope::{encode_response, spec_success_text, WebResponse};
use crate::media::{spec_catalog, MockMetadataService};

verus! {

/// Why a request could not be served.
#[derive(Debug)]
pub enum ServiceError {
    /// The text was not a JSON document; no reply can be correlated to it.
    Parse,
    /// The document carried no string `cmd` member.
    MissingCommand { request_id: String },
    /// The command is not one the registry dispatches.
    UnknownCommand { cmd: String, request_id: String },
}

/// The error text a failure response carries for each error.
pub open spec fn spec_error_text(e: ServiceError) -> Seq<char> {
    match e {
        ServiceError::Parse => "Invalid message format"@,
        ServiceError::MissingCommand { .. } => "Missing command"@,
        ServiceError::UnknownCommand { cmd, .. } => "Unknown command: "@ + cmd@,
    }
}

impl ServiceError {
    /// The error text of a failure response.
    pub fn error_text(&self) -> (r: String)
        ensures
            r@ == spec_error_text(*self),
    {
        match self {
            ServiceError::Parse => String::from_str("Invalid message format"),
            ServiceError::MissingCommand { .. } => String::from_str("Missing command"),
            ServiceError::UnknownCommand { cmd, .. } => {
                let mut text = String::from_str("Unknown command: ");
                text.append(cmd.as_str());
                text
            },
        }
    }
}

/// The registry: each backend service sits behind its own lock, and a
/// dispatch takes at most one of those locks at a time.  The lock cannot
/// be poisoned, so no recovery path is needed.
pub struct ServiceManager {
    pub(crate) mock_metadata: RwLock<MockMetadataService, spec_fn(MockMetadataService) -> bool>,
}

impl ServiceManager {
    /// Build the registry with its mock metadata backend.
    pub fn init() -> (r: ServiceManager) {
        ServiceManager {
            mock_metadata: RwLock::new(
                MockMetadataService::new(),
                Ghost(|service: MockMetadataService| true),
            ),
        }
    }

    /// Serve one raw request text.  The envelope is decoded once; a missing
    /// command and an unrecognized command are errors that carry the
    /// correlation identifier to echo; the catalog command succeeds with
    /// the full catalog, whatever its arguments.  The metadata lock is held
    /// only while the catalog is read, and released before serializing.
    pub fn handle_web_message(&self, message: &str) -> (r: Result<String, ServiceError>)
        ensures
            ({
                match spec_envelope_fields(message@) {
                    None => r matches Err(e) && e is Parse,
                    Some(f) => {
                        let rid = spec_rid(f.1);
                        match f.0 {
                            None => r matches Err(e) && e matches ServiceError::MissingCommand {
                                request_id,
                            } && request_id@ == rid,
                            Some(cmd) => {
                                if cmd == "getCatalog"@ {
                                    r matches Ok(s) && s@ == spec_success_text(rid, spec_catalog())
                                } else {
                                    r matches Err(e) && e matches ServiceError::UnknownCommand {
                                        cmd: c,
                                        request_id,
                                    } && c@ == cmd && request_id@ == rid
                                }
                            },
                        }
                    },
                }
            }),
    {
        let envelope = match decode_envelope(message) {
            Some(e) => e,
            None => {
                return Err(ServiceError::Parse);
            },
        };
        let request_id = match envelope.request_id {
            Some(s) => s,
            None => String::new(),
        };
        let cmd = match envelope.cmd {
            Some(c) => c,
            None => {
                return Err(ServiceError::MissingCommand { request_id });
            },
        };
        let catalog_cmd = String::from_str("getCatalog");
        if cmd == catalog_cmd {
            let handle = self.mock_metadata.acquire_read();
            let catalog = handle.borrow().get_catalog();
            handle.release_read();
            let response = WebResponse::Success { request_id, data: catalog };
            Ok(encode_response(&response))
        } else {
            Err(ServiceError::UnknownCommand { cmd, request_id })
        }
    }
}

} // verus!
