//! Decision logic for completing a service-desk risk-assessment form through
//! a browser session.
//!
//! The crate performs no input or output. Each component is a state machine:
//! it is handed what the browser or the operator answered and says what to do
//! next. A driver program executes those commands against a real browser.

pub mod config;
pub mod logging;
pub mod rest;
pub mod text;
pub mod web;

pub use config::{create_default_config, AuthConfig, JsmConfig};
pub use logging::FunctionFormatter;
pub use web::types::{
    ChangeImpactAssessmentConfig, ChangeRiskAssessmentConfig, RiskAssessmentConfig,
};
