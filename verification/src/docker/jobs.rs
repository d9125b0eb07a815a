//! What a request for a new rollup is turned into before it is set up.

use crate::docker::helpers::{SetupEvent, SetupEventView};
use crate::text::{decimal, decimal_string};
use crate::{RollupConfig, RollupConfigParams, RollupConfigParamsView};
use vstd::prelude::*;
use vstd::string::*;

verus! {

/// `uuid::Uuid::new_v4` and its `Display` text: a random identifier in
/// hyphenated form, which is thirty-six characters long. The call does not
/// return where the operating system gives no random numbers.
#[verifier::external_body]
fn new_rollup_id() -> (id: String)
    ensures
        id@.len() == 36,
{
    uuid::Uuid::new_v4().to_string()
}

/// The name of the instance that runs the rollup `rollup_id` of the service
/// `service_id`.
pub open spec fn instance_name(service_id: u64, rollup_id: Seq<char>) -> Seq<char> {
    "docker-rollup-"@ + decimal(service_id as nat) + "-"@ + rollup_id
}

/// The event that begins the setting up of the rollup `rollup_id`.
pub open spec fn beginning(service_id: u64, params: RollupConfigParamsView, rollup_id: Seq<char>)
    -> SetupEventView {
    SetupEventView::Begin {
        service_id,
        rollup_id,
        vm_id: instance_name(service_id, rollup_id),
        config: params.config(),
    }
}

/// The event that begins the setting up of a rollup for the service
/// `service_id`, with `config_params` as its configuration and `rollup_id`
/// as its identifier.
pub fn create_docker_rollup_as(
    service_id: u64,
    config_params: RollupConfigParams,
    rollup_id: String,
) -> (event: SetupEvent)
    ensures
        event@ == beginning(service_id, config_params@, rollup_id@),
{
    let config = RollupConfig::from(config_params);
    let number = decimal_string(service_id);
    let vm_id = String::from_str("docker-rollup-").concat(number.as_str()).concat("-").concat(
        rollup_id.as_str(),
    );
    SetupEvent::Begin { service_id, rollup_id, vm_id, config }
}

/// The event that begins the setting up of a rollup for the service
/// `service_id`, under a new identifier of thirty-six characters.
pub fn create_docker_rollup(service_id: u64, config_params: RollupConfigParams) -> (event:
    SetupEvent)
    ensures
        exists|rollup_id: Seq<char>|
            rollup_id.len() == 36 && event@ == #[trigger] beginning(
                service_id,
                config_params@,
                rollup_id,
            ),
{
    let rollup_id = new_rollup_id();
    create_docker_rollup_as(service_id, config_params, rollup_id)
}

} // verus!
