//! Records of rollups, their lifecycle, and the containers that run them.

pub mod container;
pub mod espresso;
pub mod helpers;
pub mod jobs;
pub mod laws;
pub mod manifest;
pub mod rollup;

pub use container::DockerComposeManager;
pub use container::DockerComposeOptions;
pub use espresso::EspressoDockerManager;
pub use helpers::{
    create_rollup, delete_rollup, delete_rollup_by_service_id, get_rollup_status,
    get_rollup_status_by_vm_id, list_rollups,
    start_rollup, start_rollup_by_service_id, stop_rollup, stop_rollup_by_service_id,
};
pub use jobs::create_docker_rollup;
pub use rollup::{RollupInfo, RollupManager, RollupStatus};
