//! Deleting the data associated with a customer.
use vstd::prelude::*;

use super::TextToSpeech;
use crate::http::{pair_views, segment_views, Body, BodyView, HttpRequest, Method};
use crate::status::{classify, ErrorKind, Operation};

verus! {

/// Errors that may be returned when the data of a customer is deleted.
#[derive(Debug, PartialEq, Eq)]
pub enum DeleteLabeledDataError {
    /// No response came: the connection failed or the body could not be read.
    ConnectionError(String),
    /// 400: a required parameter is missing, or a parameter or header value is invalid.
    BadRequest400,
    /// 503: the service is currently unavailable.
    ServiceUnavailable503,
    /// 500: the service experienced an internal error.
    InternalServerError500,
    /// A status that the operation does not document.
    UnmappedResponse(u16),
}

impl DeleteLabeledDataError {
    /// The kind of failure.
    pub open spec fn kind(self) -> ErrorKind {
        match self {
            DeleteLabeledDataError::ConnectionError(_) => ErrorKind::ConnectionError,
            DeleteLabeledDataError::BadRequest400 => ErrorKind::BadRequest400,
            DeleteLabeledDataError::ServiceUnavailable503 => ErrorKind::ServiceUnavailable503,
            DeleteLabeledDataError::InternalServerError500 => ErrorKind::InternalServerError500,
            DeleteLabeledDataError::UnmappedResponse(status) => ErrorKind::UnmappedResponse(status),
        }
    }

    /// The failure that the status of an answer stands for; `None` for success.
    pub fn from_status(status: u16) -> (r: Option<DeleteLabeledDataError>)
        ensures
            r is None <==> classify(Operation::DeleteLabeledData, status) is None,
            r matches Some(e) ==> classify(Operation::DeleteLabeledData, status) == Some(e.kind()),
    {
        match status {
            204 => None,
            400 => Some(DeleteLabeledDataError::BadRequest400),
            503 => Some(DeleteLabeledDataError::ServiceUnavailable503),
            500 => Some(DeleteLabeledDataError::InternalServerError500),
            _ => Some(DeleteLabeledDataError::UnmappedResponse(status)),
        }
    }
}

impl TextToSpeech {
    /// The request that deletes all data associated with `customer_id`:
    /// `DELETE v1/user_data/{customer_id}`.
    pub fn delete_labeled_data_request(&self, customer_id: &str) -> (r: HttpRequest)
        ensures
            r@ == self.request_of(
                Method::Delete,
                seq!["v1"@, "user_data"@, customer_id@],
                Seq::empty(),
                BodyView::Empty,
            ),
    {
        let segments = vec!["v1", "user_data", customer_id];
        let pairs: Vec<(&str, &str)> = Vec::new();
        let r = self.request(Method::Delete, &segments, &pairs, Body::Empty);
        assert(segment_views(segments@) =~= seq!["v1"@, "user_data"@, customer_id@]);
        assert(pair_views(pairs@) =~= Seq::empty());
        r
    }
}

} // verus!
