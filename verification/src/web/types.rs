//! Field values to apply to a risk assessment.

use vstd::prelude::*;

verus! {

/// Values for the change-impact part of the assessment. A field that is
/// `None` is left as the form shows it.
#[derive(Debug, Clone)]
pub struct ChangeImpactAssessmentConfig {
    pub security_controls_impact: Option<String>,
    pub performance_impact: Option<String>,
    pub availability_impact: Option<String>,
}

/// Values for the change-risk part of the assessment. It has no fields yet.
#[derive(Debug, Clone)]
pub struct ChangeRiskAssessmentConfig {
}

/// Everything one run may write into the form.
#[derive(Debug, Clone)]
pub struct RiskAssessmentConfig {
    pub change_impact_assessment: ChangeImpactAssessmentConfig,
    pub change_risk_assessment: Option<ChangeRiskAssessmentConfig>,
}

} // verus!
