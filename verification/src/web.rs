//! The browser-driven part: page classification, checkpoints, login and form
//! interaction.

pub mod browser;
pub mod client;
pub mod client_laws;
pub mod entry;
pub mod form;
pub mod inject;
pub mod login;
pub mod login_laws;
pub mod probe;
pub mod step;
pub mod types;

pub use client::{complete_risk_assessment, JsmWebClient};
pub use types::{ChangeImpactAssessmentConfig, ChangeRiskAssessmentConfig, RiskAssessmentConfig};
