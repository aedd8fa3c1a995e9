//! The wire envelope of the message channel.
//!
//! A request carries a command, and may carry a correlation identifier
//! (`requestId`) that the response always echoes.  A response either
//! succeeds with data or fails with an error text, never both.  This module
//! owns the response side of the wire format: what character sequence a
//! response turns into is fully specified, and the encoder is proved to
//! produce exactly that sequence.

use vstd::prelude::*;
use vstd::string::*;

use crate::media::{MediaItem, MediaItemModel};
use crate::text::{append_decimal, append_escaped, spec_decimal, spec_escape};

verus! {

/// A response envelope: exactly one of data and error, gated by success.
pub enum WebResponse {
    Success { request_id: String, data: Vec<MediaItem> },
    Failure { request_id: String, error: String },
}

/// The mathematical shape of a response envelope.
#[verifier::ext_equal]
pub ghost enum ResponseModel {
    Success { request_id: Seq<char>, data: Seq<MediaItemModel> },
    Failure { request_id: Seq<char>, error: Seq<char> },
}

impl ResponseModel {
    /// The echoed correlation identifier.
    pub open spec fn echoed_request_id(&self) -> Seq<char> {
        match self {
            ResponseModel::Success { request_id, .. } => *request_id,
            ResponseModel::Failure { request_id, .. } => *request_id,
        }
    }
}

impl View for WebResponse {
    type V = ResponseModel;

    open spec fn view(&self) -> ResponseModel {
        match self {
            WebResponse::Success { request_id, data } => ResponseModel::Success {
                request_id: request_id@,
                data: data.deep_view(),
            },
            WebResponse::Failure { request_id, error } => ResponseModel::Failure {
                request_id: request_id@,
                error: error@,
            },
        }
    }
}

/// One catalog entry on the wire.
pub open spec fn spec_item_text(m: MediaItemModel) -> Seq<char> {
    "{\"id\":\""@ + spec_escape(m.id) + "\",\"title\":\""@ + spec_escape(m.title)
        + "\",\"year\":"@ + spec_decimal(m.year) + ",\"poster\":\""@ + spec_escape(m.poster)
        + "\"}"@
}

/// A comma-separated run of catalog entries.
pub open spec fn spec_items_text(items: Seq<MediaItemModel>) -> Seq<char>
    decreases items.len(),
{
    if items.len() == 0 {
        Seq::empty()
    } else if items.len() == 1 {
        spec_item_text(items[0])
    } else {
        spec_items_text(items.drop_last()) + ","@ + spec_item_text(items.last())
    }
}

/// A JSON array of catalog entries.
pub open spec fn spec_array_text(items: Seq<MediaItemModel>) -> Seq<char> {
    "["@ + spec_items_text(items) + "]"@
}

/// The wire text of a successful response.
pub open spec fn spec_success_text(request_id: Seq<char>, items: Seq<MediaItemModel>) -> Seq<char> {
    "{\"requestId\":\""@ + spec_escape(request_id) + "\",\"success\":true,\"data\":"@
        + spec_array_text(items) + "}"@
}

/// The wire text of a failed response.
pub open spec fn spec_failure_text(request_id: Seq<char>, error: Seq<char>) -> Seq<char> {
    "{\"requestId\":\""@ + spec_escape(request_id) + "\",\"success\":false,\"error\":\""@
        + spec_escape(error) + "\"}"@
}

/// The exact character sequence a response envelope turns into.
pub open spec fn spec_response_text(m: ResponseModel) -> Seq<char> {
    match m {
        ResponseModel::Success { request_id, data } => spec_success_text(request_id, data),
        ResponseModel::Failure { request_id, error } => spec_failure_text(request_id, error),
    }
}

/// Append one catalog entry in its wire form.
fn append_item(out: &mut String, m: &MediaItem)
    ensures
        final(out)@ == old(out)@ + spec_item_text(m@),
{
    out.append("{\"id\":\"");
    append_escaped(out, m.id.as_str());
    out.append("\",\"title\":\"");
    append_escaped(out, m.title.as_str());
    out.append("\",\"year\":");
    append_decimal(out, m.year);
    out.append(",\"poster\":\"");
    append_escaped(out, m.poster.as_str());
    out.append("\"}");
    proof {
        assert(out@ =~= old(out)@ + spec_item_text(m@));
    }
}

/// Append a JSON array holding the given catalog entries.
fn append_items(out: &mut String, items: &Vec<MediaItem>)
    ensures
        final(out)@ == old(out)@ + spec_array_text(items.deep_view()),
{
    out.append("[");
    let n = items.len();
    let mut i: usize = 0;
    while i < n
        invariant
            n == items@.len(),
            i <= n,
            out@ == old(out)@ + "["@ + spec_items_text(items.deep_view().take(i as int)),
        decreases n - i,
    {
        if i > 0 {
            out.append(",");
        }
        append_item(out, &items[i]);
        proof {
            let dv = items.deep_view();
            assert(dv.take(i + 1).drop_last() =~= dv.take(i as int));
            assert(dv.take(i + 1).last() == items@[i as int]@);
            assert(out@ =~= old(out)@ + "["@ + spec_items_text(dv.take(i + 1)));
        }
        i = i + 1;
    }
    out.append("]");
    proof {
        assert(items.deep_view().take(n as int) =~= items.deep_view());
        assert(out@ =~= old(out)@ + spec_array_text(items.deep_view()));
    }
}

/// Turn a response envelope into its wire text.
pub fn encode_response(r: &WebResponse) -> (out: String)
    ensures
        out@ == spec_response_text(r@),
{
    let mut out = String::new();
    match r {
        WebResponse::Success { request_id, data } => {
            out.append("{\"requestId\":\"");
            append_escaped(&mut out, request_id.as_str());
            out.append("\",\"success\":true,\"data\":");
            append_items(&mut out, data);
            out.append("}");
        },
        WebResponse::Failure { request_id, error } => {
            out.append("{\"requestId\":\"");
            append_escaped(&mut out, request_id.as_str());
            out.append("\",\"success\":false,\"error\":\"");
            append_escaped(&mut out, error.as_str());
            out.append("\"}");
        },
    }
    proof {
        assert(out@ =~= spec_response_text(r@));
    }
    out
}

} // verus!
