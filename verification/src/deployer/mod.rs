//! Deployment of a rollup's contracts and rendering of its node
//! configuration.

pub mod config;
pub mod laws;
pub mod rollup;

pub use config::ConfigGenerator;
pub use rollup::DeploymentResult;
pub use rollup::RollupDeployer;

