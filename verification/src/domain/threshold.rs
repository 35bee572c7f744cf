//! Thresholds, as the API shows and takes them, and which of them are valid.

use vstd::prelude::*;

use crate::ids::Uuid;
use crate::text::{opt_text, texts};
use crate::time::NaiveDateTime;

verus! {

/// A double-precision number, by its bit pattern.
#[derive(Clone, Copy, Debug, PartialEq, Eq, Structural)]
pub struct Double {
    pub bits: u64,
}

/// A threshold on a field of a metric.
#[derive(Debug, PartialEq, Eq)]
pub struct Threshold<S = String> {
    pub id: Uuid,
    pub insight_tenant_id: Uuid,
    pub metric_id: Uuid,
    pub field_name: S,
    pub operator: S,
    pub value: Double,
    pub level: S,
    pub created_at: NaiveDateTime,
    pub updated_at: NaiveDateTime,
}

/// The body of a request to create a threshold.
#[derive(Debug, PartialEq, Eq)]
pub struct CreateThresholdRequest<S = String> {
    pub field_name: S,
    pub operator: S,
    pub value: Double,
    pub level: S,
}

/// The body of a request to change a threshold: what is absent stays.
#[derive(Debug, PartialEq, Eq)]
pub struct UpdateThresholdRequest<S = String> {
    pub field_name: Option<S>,
    pub operator: Option<S>,
    pub value: Option<Double>,
    pub level: Option<S>,
}

/// The operators and the levels that a threshold may have.
#[derive(Debug, PartialEq, Eq)]
pub struct ThresholdRules {
    pub operators: Vec<String>,
    pub levels: Vec<String>,
}

/// The operators and the levels that a threshold may have.
pub struct ThresholdRulesView {
    pub operators: Seq<Seq<char>>,
    pub levels: Seq<Seq<char>>,
}

impl View for Threshold {
    type V = Threshold<Seq<char>>;

    open spec fn view(&self) -> Threshold<Seq<char>> {
        Threshold {
            id: self.id,
            insight_tenant_id: self.insight_tenant_id,
            metric_id: self.metric_id,
            field_name: self.field_name@,
            operator: self.operator@,
            value: self.value,
            level: self.level@,
            created_at: self.created_at,
            updated_at: self.updated_at,
        }
    }
}

impl View for CreateThresholdRequest {
    type V = CreateThresholdRequest<Seq<char>>;

    open spec fn view(&self) -> CreateThresholdRequest<Seq<char>> {
        CreateThresholdRequest {
            field_name: self.field_name@,
            operator: self.operator@,
            value: self.value,
            level: self.level@,
        }
    }
}

impl View for UpdateThresholdRequest {
    type V = UpdateThresholdRequest<Seq<char>>;

    open spec fn view(&self) -> UpdateThresholdRequest<Seq<char>> {
        UpdateThresholdRequest {
            field_name: opt_text(self.field_name),
            operator: opt_text(self.operator),
            value: self.value,
            level: opt_text(self.level),
        }
    }
}

impl View for ThresholdRules {
    type V = ThresholdRulesView;

    open spec fn view(&self) -> ThresholdRulesView {
        ThresholdRulesView { operators: texts(self.operators@), levels: texts(self.levels@) }
    }
}

impl ThresholdRulesView {
    /// The operator and the level are both among those that a threshold may have.
    pub open spec fn allow(self, operator: Seq<char>, level: Seq<char>) -> bool {
        self.operators.contains(operator) && self.levels.contains(level)
    }
}

/// Whether `word` is one of `words`.
fn is_among(words: &Vec<String>, word: &str) -> (found: bool)
    ensures
        found == texts(words@).contains(word@),
{
    for i in 0..words.len()
        invariant
            forall|j: int| 0 <= j < i ==> #[trigger] texts(words@)[j] != word@,
    {
        if crate::text::same_text(words[i].as_str(), word) {
            assert(texts(words@)[i as int] == word@);
            return true;
        }
    }
    false
}

impl ThresholdRules {
    /// Whether a threshold may have this operator.
    pub fn has_operator(&self, operator: &str) -> (valid: bool)
        ensures
            valid == self@.operators.contains(operator@),
    {
        is_among(&self.operators, operator)
    }

    /// Whether a threshold may have this level.
    pub fn has_level(&self, level: &str) -> (valid: bool)
        ensures
            valid == self@.levels.contains(level@),
    {
        is_among(&self.levels, level)
    }
}

/// Whether a threshold may have this operator and this level.
pub fn validate_threshold(rules: &ThresholdRules, operator: &str, level: &str) -> (valid: bool)
    ensures
        valid == rules@.allow(operator@, level@),
{
    rules.has_operator(operator) && rules.has_level(level)
}

} // verus!
