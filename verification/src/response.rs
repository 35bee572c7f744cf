//! What a request is answered.

use vstd::prelude::*;

use crate::domain::metric::{Metric, MetricSummary, TableColumn};
use crate::domain::query::{QueryResponse, QueryResponseView};
use crate::domain::threshold::Threshold;

verus! {

/// The HTTP status codes that the API answers with.
#[derive(Clone, Copy, Debug, PartialEq, Eq, Structural)]
pub enum StatusCode {
    Success,
    Created,
    NoContent,
    BadRequest,
    NotFound,
    InternalServerError,
}

impl StatusCode {
    /// The number of the status code.
    pub open spec fn number(self) -> u16 {
        match self {
            StatusCode::Success => 200,
            StatusCode::Created => 201,
            StatusCode::NoContent => 204,
            StatusCode::BadRequest => 400,
            StatusCode::NotFound => 404,
            StatusCode::InternalServerError => 500,
        }
    }

    /// The number of the status code.
    pub fn as_u16(&self) -> (number: u16)
        ensures
            number == self.number(),
    {
        match self {
            StatusCode::Success => 200,
            StatusCode::Created => 201,
            StatusCode::NoContent => 204,
            StatusCode::BadRequest => 400,
            StatusCode::NotFound => 404,
            StatusCode::InternalServerError => 500,
        }
    }
}

/// The answer to a request that went through.
#[derive(Debug, PartialEq)]
pub enum Response {
    MetricList(Vec<MetricSummary>),
    Metric(Metric),
    CreatedMetric(Metric),
    Query(QueryResponse),
    ThresholdList(Vec<Threshold>),
    Threshold(Threshold),
    CreatedThreshold(Threshold),
    ColumnList(Vec<TableColumn>),
    NoContent,
}

/// The answer to a request that went through.
pub enum ResponseView {
    MetricList(Seq<MetricSummary<Seq<char>>>),
    Metric(Metric<Seq<char>>),
    CreatedMetric(Metric<Seq<char>>),
    Query(QueryResponseView),
    ThresholdList(Seq<Threshold<Seq<char>>>),
    Threshold(Threshold<Seq<char>>),
    CreatedThreshold(Threshold<Seq<char>>),
    ColumnList(Seq<TableColumn<Seq<char>>>),
    NoContent,
}

impl View for Response {
    type V = ResponseView;

    open spec fn view(&self) -> ResponseView {
        match *self {
            Response::MetricList(list) => ResponseView::MetricList(
                list@.map_values(|m: MetricSummary| m@),
            ),
            Response::Metric(metric) => ResponseView::Metric(metric@),
            Response::CreatedMetric(metric) => ResponseView::CreatedMetric(metric@),
            Response::Query(answer) => ResponseView::Query(answer@),
            Response::ThresholdList(list) => ResponseView::ThresholdList(
                list@.map_values(|t: Threshold| t@),
            ),
            Response::Threshold(threshold) => ResponseView::Threshold(threshold@),
            Response::CreatedThreshold(threshold) => ResponseView::CreatedThreshold(threshold@),
            Response::ColumnList(list) => ResponseView::ColumnList(
                list@.map_values(|c: TableColumn| c@),
            ),
            Response::NoContent => ResponseView::NoContent,
        }
    }
}

impl ResponseView {
    /// The status code that goes with the answer.
    pub open spec fn status(self) -> StatusCode {
        match self {
            ResponseView::CreatedMetric(_) => StatusCode::Created,
            ResponseView::CreatedThreshold(_) => StatusCode::Created,
            ResponseView::NoContent => StatusCode::NoContent,
            _ => StatusCode::Success,
        }
    }
}

impl Response {
    /// The status code that goes with the answer.
    pub fn status(&self) -> (status: StatusCode)
        ensures
            status == self@.status(),
    {
        match self {
            Response::CreatedMetric(_) => StatusCode::Created,
            Response::CreatedThreshold(_) => StatusCode::Created,
            Response::NoContent => StatusCode::NoContent,
            _ => StatusCode::Success,
        }
    }
}

} // verus!
