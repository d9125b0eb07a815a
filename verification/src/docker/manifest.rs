//! The container manifest of a rollup: parsed by `docktopus`, then scoped to
//! the rollup's own network and project.

use crate::error::{ErrorKind, RaasError};
use crate::host::texts;
use docktopus::ComposeConfig;
use docktopus::DockerError;
use vstd::prelude::*;
use vstd::string::*;

verus! {

/// `docktopus::ComposeConfig`, a parsed manifest: named services and
/// volumes.
#[verifier::external_type_specification]
#[verifier::external_body]
pub struct ExComposeConfig(docktopus::ComposeConfig);

/// `docktopus::DockerError`, the error of the parser and of the container
/// service.
#[verifier::external_type_specification]
#[verifier::external_body]
pub struct ExDockerError(docktopus::DockerError);

/// For each service of the manifest, by name, the networks that it is
/// attached to, in order; none for a service that names no network.
pub uninterp spec fn compose_networks(config: ComposeConfig) -> Map<Seq<char>, Seq<Seq<char>>>;

/// For each service of the manifest, by name, its labels; none for a service
/// without labels.
pub uninterp spec fn compose_labels(config: ComposeConfig) -> Map<Seq<char>, Map<Seq<char>, Seq<char>>>;

/// For each service of the manifest, by name, what it holds in its fields
/// of plain text: by the name of the field, which is one of `image`,
/// `command`, `env_file`, `depends_on`, `ports`, `restart`, `user` and
/// `platform`, the texts that the field holds, in order; none for a field
/// that is not set.
pub uninterp spec fn compose_settings(config: ComposeConfig) -> Map<Seq<char>, Map<Seq<char>, Seq<Seq<char>>>>;

/// For each service of the manifest, by name, its environment: each
/// variable's name with its value; none for a service without environment.
pub uninterp spec fn compose_environment(config: ComposeConfig) -> Map<Seq<char>, Map<Seq<char>, Seq<char>>>;

/// The services that `docktopus::parser::ComposeParser::parse` reads from
/// the text of a manifest when it is given no environment: first what
/// `compose_settings` tells of them, then what `compose_environment` tells
/// of them; `None` for a text that it refuses.
pub uninterp spec fn manifest_services(content: Seq<char>) -> Option<(Map<Seq<char>, Map<Seq<char>, Seq<Seq<char>>>>, Map<Seq<char>, Map<Seq<char>, Seq<char>>>)>;

/// `docktopus::parser::ComposeParser::parse` with no environment given, on
/// the text of a manifest: whether the text is accepted, and which services
/// with which settings the manifest then holds, depends on the text alone.
/// Networks and settings are fields of a service, so both are told of the
/// same services.
#[verifier::external_body]
fn parse_compose(content: &str) -> (r: Result<ComposeConfig, DockerError>)
    ensures
        match r {
            Ok(config) => {
                &&& manifest_services(content@) == Some(
                    (compose_settings(config), compose_environment(config)),
                )
                &&& compose_networks(config).dom() == compose_settings(config).dom()
            },
            Err(_) => manifest_services(content@) is None,
        },
{
    docktopus::parser::ComposeParser::new().parse(&mut content.as_bytes())
}

/// The `Display` text of a `docktopus::DockerError`.
#[verifier::external_body]
fn docker_error_text(error: &DockerError) -> (text: String) {
    format!("{}", error)
}

/// The keys of the field `services` of a `ComposeConfig`: the names of the
/// services, in no particular order. Networks and labels are fields of a
/// service, so both are told of the same services.
#[verifier::external_body]
fn service_names(config: &ComposeConfig) -> (names: Vec<String>)
    ensures
        texts(names@).to_set() == compose_networks(*config).dom(),
        texts(names@).to_set() == compose_labels(*config).dom(),
        texts(names@).to_set() == compose_settings(*config).dom(),
{
    config.services.keys().cloned().collect()
}

/// Assignment to the fields `networks` and `labels` of one service of a
/// `ComposeConfig`: the service is then attached to `network` alone and
/// carries the one label `label` with `value`. Other services stay as they
/// are, and so do the fields of plain text and the environment of this one.
#[verifier::external_body]
fn scope_service(config: &mut ComposeConfig, service: &str, network: &str, label: &str, value: &str)
    requires
        compose_networks(*old(config)).dom().contains(service@),
    ensures
        compose_networks(*final(config)) == compose_networks(*old(config)).insert(
            service@,
            seq![network@],
        ),
        compose_labels(*final(config)) == compose_labels(*old(config)).insert(
            service@,
            map![label@ => value@],
        ),
        compose_settings(*final(config)) == compose_settings(*old(config)),
        compose_environment(*final(config)) == compose_environment(*old(config)),
{
    let entry = config.services.get_mut(service).unwrap();
    entry.networks = Some(vec![network.to_string()]);
    entry.labels = Some(std::collections::HashMap::from([(label.to_string(), value.to_string())]));
}

/// Assignment to the field `version` of a `ComposeConfig`. The services stay
/// as they are.
#[verifier::external_body]
fn set_version(config: &mut ComposeConfig, version: &str)
    ensures
        compose_networks(*final(config)) == compose_networks(*old(config)),
        compose_labels(*final(config)) == compose_labels(*old(config)),
        compose_settings(*final(config)) == compose_settings(*old(config)),
        compose_environment(*final(config)) == compose_environment(*old(config)),
{
    config.version = version.to_string();
}

/// The networks of `services` when each is attached to `network` alone.
pub open spec fn attached(services: Set<Seq<char>>, network: Seq<char>) -> Map<
    Seq<char>,
    Seq<Seq<char>>,
> {
    Map::new(|service: Seq<char>| services.contains(service), |service: Seq<char>| seq![network])
}

/// The labels of `services` when each carries the one label `label` with
/// `value`.
pub open spec fn labelled(services: Set<Seq<char>>, label: Seq<char>, value: Seq<char>) -> Map<
    Seq<char>,
    Map<Seq<char>, Seq<char>>,
> {
    Map::new(
        |service: Seq<char>| services.contains(service),
        |service: Seq<char>| map![label => value],
    )
}

/// Attaches every service of `config` to `network` alone, gives each the one
/// label `label` with `value`, and sets the manifest's version to `version`.
/// What the services hold in their fields of plain text, and their
/// environment, stay as they are.
pub fn scope(config: &mut ComposeConfig, network: &str, label: &str, value: &str, version: &str)
    ensures
        compose_networks(*final(config)) == attached(
            compose_networks(*old(config)).dom(),
            network@,
        ),
        compose_labels(*final(config)) == labelled(
            compose_networks(*old(config)).dom(),
            label@,
            value@,
        ),
        compose_settings(*final(config)) == compose_settings(*old(config)),
        compose_environment(*final(config)) == compose_environment(*old(config)),
{
    let names = service_names(config);
    let ghost services = texts(names@).to_set();
    let mut i: usize = 0;
    while i < names.len()
        invariant
            i <= names@.len(),
            texts(names@).to_set() == services,
            compose_networks(*config).dom() == services,
            compose_labels(*config).dom() == services,
            compose_settings(*config) == compose_settings(*old(config)),
            compose_environment(*config) == compose_environment(*old(config)),
            forall|j: int|
                0 <= j < i ==> {
                    &&& compose_networks(*config)[#[trigger] texts(names@)[j]] == seq![network@]
                    &&& compose_labels(*config)[texts(names@)[j]] == map![label@ => value@]
                },
        decreases names@.len() - i,
    {
        proof {
            assert(texts(names@)[i as int] == names@[i as int]@);
        }
        scope_service(config, names[i].as_str(), network, label, value);
        i += 1;
    }
    set_version(config, version);
    proof {
        assert forall|service: Seq<char>| #[trigger]
            services.contains(service) implies {
            &&& compose_networks(*config)[service] == seq![network@]
            &&& compose_labels(*config)[service] == map![label@ => value@]
        } by {
            let j = choose|j: int| 0 <= j < texts(names@).len() && texts(names@)[j] == service;
            assert(texts(names@)[j] == service);
        }
        assert(compose_networks(*config) =~= attached(services, network@));
        assert(compose_labels(*config) =~= labelled(services, label@, value@));
    }
}

/// The manifest that `content` holds. An error of kind `Parse`, with the
/// parser's own text behind `Failed to parse compose file: `, where it holds
/// none.
pub fn parse(content: &str) -> (r: Result<ComposeConfig, RaasError>)
    ensures
        match r {
            Ok(config) => {
                &&& manifest_services(content@) == Some(
                    (compose_settings(config), compose_environment(config)),
                )
                &&& compose_networks(config).dom() == compose_settings(config).dom()
            },
            Err(e) => {
                &&& manifest_services(content@) is None
                &&& e@.kind == ErrorKind::Parse
                &&& exists|reason: Seq<char>|
                    e@.message == "Failed to parse compose file: "@ + reason
            },
        },
{
    match parse_compose(content) {
        Ok(config) => Ok(config),
        Err(error) => {
            let reason = docker_error_text(&error);
            Err(
                RaasError::with_detail(
                    ErrorKind::Parse,
                    "Failed to parse compose file: ",
                    reason.as_str(),
                ),
            )
        },
    }
}

} // verus!
