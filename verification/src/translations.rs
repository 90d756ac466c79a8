//! Status handling for the text-transformation provider.
//!
//! One upstream request carries the source text; the provider answers with
//! the rewritten text or a failure status. The decision of which statuses
//! count as success is made here; issuing the request and decoding the
//! response body are the transport's concern.

use vstd::prelude::*;

verus! {

/// A failed transformation call. Transformation failures are never fatal
/// for an overall request: the aggregator swallows them and keeps the
/// untransformed description.
#[derive(Debug, PartialEq, Eq)]
pub enum TransformError {
    /// The provider answered with a non-success status code.
    UpstreamStatus(u16),
    /// The connection could not be made or timed out.
    TransportFailure,
    /// The response body did not parse into the expected shape.
    MalformedResponse,
}

/// A transformation response status is a success exactly when it is not a
/// client or server error.
pub open spec fn transform_status_ok(status: u16) -> bool {
    !(400 <= status <= 599)
}

/// Decide from the provider's status code whether the response body holds a
/// transformed text (read it) or the call failed.
pub fn classify_transform_status(status: u16) -> (r: Result<(), TransformError>)
    ensures
        r is Ok <==> transform_status_ok(status),
        r is Err ==> r == Result::<(), TransformError>::Err(
            TransformError::UpstreamStatus(status),
        ),
{
    if 400 <= status && status <= 599 {
        Err(TransformError::UpstreamStatus(status))
    } else {
        Ok(())
    }
}

} // verus!
