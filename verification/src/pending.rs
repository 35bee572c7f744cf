//! Requests on their way: what they wait for and what they have come to.

use vstd::prelude::*;

use crate::auth::SecurityContext;
use crate::domain::metric::UpdateMetricRequest;
use crate::domain::query::{contents, QueryRequest};
use crate::domain::threshold::{CreateThresholdRequest, UpdateThresholdRequest};
use crate::entities::thresholds;
use crate::ids::Uuid;
use crate::json::{Entries, Object};
use crate::protocol::{Call, CallView};
use crate::response::{Response, ResponseView, StatusCode};

verus! {

/// What a request will do with the reply that it waits for.
#[allow(inconsistent_fields)]
#[derive(Debug, PartialEq)]
pub enum Stage {
    ListMetrics,
    GetMetric,
    InsertMetric { id: Uuid },
    ReadNewMetric,
    FindMetricToUpdate { req: UpdateMetricRequest },
    UpdateMetric,
    FindMetricToDelete,
    DisableMetric,
    FindMetricToQuery { id: Uuid, req: QueryRequest },
    FindThresholdsToQuery { query_ref: String, req: QueryRequest },
    CompareWithThresholds { items: Vec<Object>, thresholds: Vec<thresholds::Model> },
    FindMetricOfThresholds { metric_id: Uuid },
    ListThresholds,
    FindMetricOfNewThreshold { metric_id: Uuid, req: CreateThresholdRequest },
    InsertThreshold { id: Uuid },
    ReadNewThreshold,
    FindThresholdToUpdate { req: UpdateThresholdRequest },
    UpdateThreshold,
    FindThresholdToDelete,
    DeleteThreshold,
    ListColumns,
}

/// What a request will do with the reply that it waits for.
#[allow(inconsistent_fields)]
pub enum StageView {
    ListMetrics,
    GetMetric,
    InsertMetric { id: Uuid },
    ReadNewMetric,
    FindMetricToUpdate { req: UpdateMetricRequest<Seq<char>> },
    UpdateMetric,
    FindMetricToDelete,
    DisableMetric,
    FindMetricToQuery { id: Uuid, req: QueryRequest<Seq<char>> },
    FindThresholdsToQuery { query_ref: Seq<char>, req: QueryRequest<Seq<char>> },
    CompareWithThresholds { items: Seq<Entries>, thresholds: Seq<thresholds::Row> },
    FindMetricOfThresholds { metric_id: Uuid },
    ListThresholds,
    FindMetricOfNewThreshold { metric_id: Uuid, req: CreateThresholdRequest<Seq<char>> },
    InsertThreshold { id: Uuid },
    ReadNewThreshold,
    FindThresholdToUpdate { req: UpdateThresholdRequest<Seq<char>> },
    UpdateThreshold,
    FindThresholdToDelete,
    DeleteThreshold,
    ListColumns,
}

impl View for Stage {
    type V = StageView;

    open spec fn view(&self) -> StageView {
        match *self {
            Stage::ListMetrics => StageView::ListMetrics,
            Stage::GetMetric => StageView::GetMetric,
            Stage::InsertMetric { id } => StageView::InsertMetric { id },
            Stage::ReadNewMetric => StageView::ReadNewMetric,
            Stage::FindMetricToUpdate { req } => StageView::FindMetricToUpdate { req: req@ },
            Stage::UpdateMetric => StageView::UpdateMetric,
            Stage::FindMetricToDelete => StageView::FindMetricToDelete,
            Stage::DisableMetric => StageView::DisableMetric,
            Stage::FindMetricToQuery { id, req } => StageView::FindMetricToQuery { id, req: req@ },
            Stage::FindThresholdsToQuery { query_ref, req } => StageView::FindThresholdsToQuery {
                query_ref: query_ref@,
                req: req@,
            },
            Stage::CompareWithThresholds { items, thresholds } => StageView::CompareWithThresholds {
                items: contents(items@),
                thresholds: thresholds::rows(thresholds@),
            },
            Stage::FindMetricOfThresholds { metric_id } => StageView::FindMetricOfThresholds {
                metric_id,
            },
            Stage::ListThresholds => StageView::ListThresholds,
            Stage::FindMetricOfNewThreshold {
                metric_id,
                req,
            } => StageView::FindMetricOfNewThreshold { metric_id, req: req@ },
            Stage::InsertThreshold { id } => StageView::InsertThreshold { id },
            Stage::ReadNewThreshold => StageView::ReadNewThreshold,
            Stage::FindThresholdToUpdate { req } => StageView::FindThresholdToUpdate { req: req@ },
            Stage::UpdateThreshold => StageView::UpdateThreshold,
            Stage::FindThresholdToDelete => StageView::FindThresholdToDelete,
            Stage::DeleteThreshold => StageView::DeleteThreshold,
            Stage::ListColumns => StageView::ListColumns,
        }
    }
}

/// A request that waits for the reply to a call.
#[derive(Debug, PartialEq)]
pub struct Pending {
    pub ctx: SecurityContext,
    pub call: Call,
    pub stage: Stage,
}

/// A request that waits for the reply to a call.
pub struct PendingView {
    pub ctx: SecurityContext,
    pub call: CallView,
    pub stage: StageView,
}

impl View for Pending {
    type V = PendingView;

    open spec fn view(&self) -> PendingView {
        PendingView { ctx: self.ctx, call: self.call@, stage: self.stage@ }
    }
}

/// What a request has come to: it waits for a reply, or it is answered.
#[derive(Debug, PartialEq)]
pub enum Step {
    Wait(Pending),
    Done(Result<Response, StatusCode>),
}

/// What a request has come to.
pub enum StepView {
    Wait(PendingView),
    Done(Result<ResponseView, StatusCode>),
}

impl View for Step {
    type V = StepView;

    open spec fn view(&self) -> StepView {
        match *self {
            Step::Wait(pending) => StepView::Wait(pending@),
            Step::Done(Ok(response)) => StepView::Done(Ok(response@)),
            Step::Done(Err(status)) => StepView::Done(Err(status)),
        }
    }
}

} // verus!
