//! Delivery semantics and failure taxonomy of the reporting step.
//!
//! The run can fail in exactly four ways: operator input broke off, an
//! external command could not be launched, the report could not be carried
//! over the network, or the endpoint answered with a status other than 200.
//! A build or test process that merely exits non-zero is *not* an error:
//! that is data, recorded in the result and still reported.

use crate::json::{append_dec, dec_digits};
use crate::text::seq_contains;
use vstd::prelude::*;
use vstd::string::*;

verus! {

/// The HTTP status the endpoint must answer for the delivery to count.
pub const OK_STATUS: u16 = 200;

/// A fatal failure of the run. Each variant carries the detail text of its
/// cause; `Response` carries the offending status code and the response
/// body, verbatim.
pub enum HarnessError {
    Io { detail: String },
    Spawn { detail: String },
    Transport { detail: String },
    Response { status: u16, body: String },
}

/// Mathematical model of a [`HarnessError`].
pub ghost enum ErrorModel {
    Io { detail: Seq<char> },
    Spawn { detail: Seq<char> },
    Transport { detail: Seq<char> },
    Response { status: u16, body: Seq<char> },
}

impl View for HarnessError {
    type V = ErrorModel;

    open spec fn view(&self) -> ErrorModel {
        match self {
            HarnessError::Io { detail } => ErrorModel::Io { detail: detail@ },
            HarnessError::Spawn { detail } => ErrorModel::Spawn { detail: detail@ },
            HarnessError::Transport { detail } => ErrorModel::Transport { detail: detail@ },
            HarnessError::Response { status, body } => ErrorModel::Response {
                status: *status,
                body: body@,
            },
        }
    }
}

/// The human-readable message for an error, cause detail included.
pub open spec fn message_of(e: ErrorModel) -> Seq<char> {
    match e {
        ErrorModel::Io { detail } => "error reading operator input: "@ + detail,
        ErrorModel::Spawn { detail } => "error running the command: "@ + detail,
        ErrorModel::Transport { detail } => "error sending result: "@ + detail,
        ErrorModel::Response { status, body } => "A '"@ + dec_digits(status as int)
            + "' status code was received, with this response body:\n"@ + body,
    }
}

impl HarnessError {
    /// The message printed for this error before the run exits.
    pub fn message(&self) -> (r: String)
        ensures
            r@ == message_of(self@),
    {
        let mut out = String::new();
        match self {
            HarnessError::Io { detail } => {
                out.append("error reading operator input: ");
                out.append(detail.as_str());
            },
            HarnessError::Spawn { detail } => {
                out.append("error running the command: ");
                out.append(detail.as_str());
            },
            HarnessError::Transport { detail } => {
                out.append("error sending result: ");
                out.append(detail.as_str());
            },
            HarnessError::Response { status, body } => {
                out.append("A '");
                append_dec(&mut out, *status);
                out.append("' status code was received, with this response body:\n");
                out.append(body.as_str());
            },
        }
        proof {
            assert(out@ =~= message_of(self@));
        }
        out
    }
}

/// How the endpoint's answer is interpreted: HTTP 200 is the one success;
/// any other status is a failure carrying the status and the body verbatim.
pub fn interpret_response(status: u16, body: String) -> (r: Result<(), HarnessError>)
    ensures
        status == OK_STATUS <==> r is Ok,
        r matches Err(e) ==> e@ == (ErrorModel::Response { status, body: body@ }),
{
    if status == OK_STATUS {
        Ok(())
    } else {
        Err(HarnessError::Response { status, body })
    }
}

/// A response error's message carries both the literal status code and the
/// literal response body it was built from.
pub proof fn lemma_response_message_complete(status: u16, body: Seq<char>)
    ensures
        seq_contains(
            message_of(ErrorModel::Response { status, body }),
            dec_digits(status as int),
        ),
        seq_contains(message_of(ErrorModel::Response { status, body }), body),
{
    let msg = message_of(ErrorModel::Response { status, body });
    let head = "A '"@;
    let digits = dec_digits(status as int);
    let mid = "' status code was received, with this response body:\n"@;
    assert(msg == head + digits + mid + body);
    let i = head.len() as int;
    assert(msg.subrange(i, i + digits.len()) =~= digits);
    let j = (head.len() + digits.len() + mid.len()) as int;
    assert(msg.subrange(j, j + body.len()) =~= body);
}

} // verus!
