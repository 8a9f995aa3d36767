//! The client handle, its configuration, and the construction of the
//! channel to the gateways.
use crate::error::{Result, ZeebeError};
use crate::job::{CompleteJobBuilder, FailJobBuilder, Job, ThrowErrorBuilder, UpdateJobRetriesBuilder};
use crate::oauth::{AuthInterceptor, Environment, OAuthConfig};
use crate::process::{
    CancelProcessInstanceBuilder, CreateProcessInstanceBuilder,
    CreateProcessInstanceWithResultBuilder, DeployProcessBuilder, SetVariablesBuilder,
};
use crate::resources::{DeleteResourceBuilder, DeployResourceBuilder};
use crate::topology::TopologyBuilder;
use crate::util::{PublishMessageBuilder, ResolveIncidentBuilder};
use crate::interop::share;
use crate::worker::auto_handler::JobExtensions;
use vstd::prelude::*;

verus! {

/// Timeout of each gateway request, in seconds.
pub const DEFAULT_REQUEST_TIMEOUT_SECS: u64 = 15;
/// Keep-alive timeout of the gateway connection, in seconds.
pub const DEFAULT_KEEP_ALIVE_SECS: u64 = 45;
/// Name of the environment variable that holds the path of a CA certificate.
pub const CA_CERTIFICATE_PATH: &'static str = "ZEEBE_CA_CERTIFICATE_PATH";
/// Name of the environment variable that holds the gateway address.
pub const ADDRESS: &'static str = "ZEEBE_ADDRESS";
/// Name of the environment variable that holds the gateway host.
pub const HOST: &'static str = "ZEEBE_HOST";
/// The gateway host used when none is configured.
pub const DEFAULT_ADDRESS_HOST: &'static str = "http://127.0.0.1";
/// Name of the environment variable that holds the gateway port.
pub const PORT: &'static str = "ZEEBE_PORT";
/// The gateway port used when none is configured.
pub const DEFAULT_ADDRESS_PORT: &'static str = "26500";
/// The most endpoints a balanced channel takes at construction.
pub const MAX_BALANCED_ENDPOINTS: usize = 1024;

/// What `Channel::from_shared` (that is, `Endpoint::from_shared`) makes of
/// `uri`: the endpoint for it, or the text of the `http::uri::InvalidUri`
/// error with which parsing rejects it. Parsing depends on the text alone.
pub uninterp spec fn parsed_endpoint(uri: Seq<char>) -> core::result::Result<tonic::transport::Endpoint, Seq<char>>;

/// Whether the gateway accepts `uri` as an endpoint address.
pub open spec fn is_gateway_uri(uri: Seq<char>) -> bool {
    parsed_endpoint(uri) is Ok
}

/// The text of the error with which parsing rejects `uri` (it names what is
/// wrong with the text).
pub open spec fn gateway_uri_error(uri: Seq<char>) -> Seq<char> {
    match parsed_endpoint(uri) {
        Ok(_) => Seq::empty(),
        Err(m) => m,
    }
}

/// What `Endpoint::timeout` makes of `endpoint` with a request timeout of
/// `secs` seconds.
pub uninterp spec fn endpoint_with_timeout(endpoint: tonic::transport::Endpoint, secs: u64) -> tonic::transport::Endpoint;

/// What `Endpoint::keep_alive_timeout` makes of `endpoint` with a keep-alive
/// timeout of `secs` seconds.
pub uninterp spec fn endpoint_with_keep_alive(endpoint: tonic::transport::Endpoint, secs: u64) -> tonic::transport::Endpoint;

/// What `Endpoint::tls_config` makes of `endpoint` with the TLS settings
/// `tls`: the endpoint that connects with them, or `None` where they do not
/// apply (the endpoint names no host and the settings no domain, or the
/// settings' certificates or domain do not load). It depends on its two
/// arguments alone.
pub uninterp spec fn endpoint_with_tls(endpoint: tonic::transport::Endpoint, tls: tonic::transport::ClientTlsConfig) -> Option<tonic::transport::Endpoint>;

/// What `Certificate::from_pem` makes of the PEM text `pem`.
pub uninterp spec fn pem_certificate(pem: Seq<char>) -> tonic::transport::Certificate;

/// What `ClientTlsConfig::ca_certificate` makes of `tls` when it trusts
/// `cert` as a root.
pub uninterp spec fn tls_with_ca_certificate(tls: tonic::transport::ClientTlsConfig, cert: tonic::transport::Certificate) -> tonic::transport::ClientTlsConfig;

/// `Channel::from_shared`: parses `uri` into an endpoint, or fails with the
/// text of the parser's error.
#[verifier::external_body]
fn parse_endpoint(uri: &String) -> (r: core::result::Result<tonic::transport::Endpoint, String>)
    ensures
        match r {
            Ok(e) => parsed_endpoint(uri@) == Ok::<tonic::transport::Endpoint, Seq<char>>(e),
            Err(m) => parsed_endpoint(uri@) == Err::<tonic::transport::Endpoint, Seq<char>>(m@),
        },
{
    tonic::transport::Channel::from_shared(uri.clone()).map_err(|err| err.to_string())
}

/// `Endpoint::timeout`: sets the timeout of each request on the endpoint.
#[verifier::external_body]
fn endpoint_timeout(endpoint: tonic::transport::Endpoint, secs: u64) -> (r: tonic::transport::Endpoint)
    ensures
        r == endpoint_with_timeout(endpoint, secs),
{
    endpoint.timeout(std::time::Duration::from_secs(secs))
}

/// `Endpoint::keep_alive_timeout`: sets the keep-alive timeout of the
/// endpoint.
#[verifier::external_body]
fn endpoint_keep_alive_timeout(endpoint: tonic::transport::Endpoint, secs: u64) -> (r: tonic::transport::Endpoint)
    ensures
        r == endpoint_with_keep_alive(endpoint, secs),
{
    endpoint.keep_alive_timeout(std::time::Duration::from_secs(secs))
}

/// `Endpoint::tls_config`: applies TLS settings to the endpoint, or fails
/// where they do not apply. The error is opaque here.
#[verifier::external_body]
fn endpoint_tls_config(
    endpoint: tonic::transport::Endpoint,
    tls: tonic::transport::ClientTlsConfig,
) -> (r: core::result::Result<tonic::transport::Endpoint, tonic::transport::Error>)
    ensures
        match r {
            Ok(e) => endpoint_with_tls(endpoint, tls) == Some(e),
            Err(_) => endpoint_with_tls(endpoint, tls) is None,
        },
{
    endpoint.tls_config(tls)
}

/// `ClientTlsConfig::clone` (derived): the same settings.
#[verifier::external_body]
fn copy_tls_config(tls: &tonic::transport::ClientTlsConfig) -> (r: tonic::transport::ClientTlsConfig)
    ensures
        r == *tls,
{
    tls.clone()
}

/// `Channel::clone`: another handle to the same channel. The channel is
/// opaque here, so the contract states nothing.
#[verifier::external_body]
fn copy_channel(channel: &tonic::transport::Channel) -> tonic::transport::Channel {
    channel.clone()
}

/// `Certificate::from_pem`: a certificate from its PEM text.
#[verifier::external_body]
fn certificate_from_pem(pem: String) -> (r: tonic::transport::Certificate)
    ensures
        r == pem_certificate(pem@),
{
    tonic::transport::Certificate::from_pem(pem)
}

/// `ClientTlsConfig::new`: default TLS settings (no domain, no CA
/// certificate, no identity), opaque here.
#[verifier::external_body]
fn new_tls_config() -> tonic::transport::ClientTlsConfig {
    tonic::transport::ClientTlsConfig::new()
}

/// `ClientTlsConfig::ca_certificate`: trusts `cert` as a root.
#[verifier::external_body]
fn tls_ca_certificate(
    tls: tonic::transport::ClientTlsConfig,
    cert: tonic::transport::Certificate,
) -> (r: tonic::transport::ClientTlsConfig)
    ensures
        r == tls_with_ca_certificate(tls, cert),
{
    tls.ca_certificate(cert)
}

/// Client used to communicate with Zeebe.
pub struct Client {
    pub channel: tonic::transport::Channel,
    pub auth_interceptor: AuthInterceptor,
    pub current_job_key: Option<i64>,
    pub current_job_extensions: Option<std::sync::Arc<JobExtensions>>,
}

/// Two client handles that share credentials and the job they handle (the
/// channel is opaque here).
pub open spec fn same_handle(a: Client, b: Client) -> bool {
    &&& a.auth_interceptor == b.auth_interceptor
    &&& a.current_job_key == b.current_job_key
    &&& a.current_job_extensions == b.current_job_extensions
}

impl Clone for Client {
    /// Another handle to the same channel, with the same credentials and the
    /// same current job.
    fn clone(&self) -> (r: Self)
        ensures
            same_handle(r, *self),
    {
        Client {
            channel: copy_channel(&self.channel),
            auth_interceptor: self.auth_interceptor.clone(),
            current_job_key: self.current_job_key,
            current_job_extensions: match &self.current_job_extensions {
                Some(e) => Some(share(e)),
                None => None,
            },
        }
    }
}

/// The endpoint that `uri` gives with the client's request and keep-alive
/// timeouts and, when set, the TLS settings `tls`; `None` where `uri` is not
/// a URI or the TLS settings do not apply to it.
pub open spec fn configured_endpoint(uri: Seq<char>, tls: Option<tonic::transport::ClientTlsConfig>) -> Option<tonic::transport::Endpoint> {
    match parsed_endpoint(uri) {
        Ok(parsed) => {
            let e = endpoint_with_keep_alive(
                endpoint_with_timeout(parsed, DEFAULT_REQUEST_TIMEOUT_SECS),
                DEFAULT_KEEP_ALIVE_SECS,
            );
            match tls {
                Some(t) => endpoint_with_tls(e, t),
                None => Some(e),
            }
        },
        Err(_) => None,
    }
}

/// What configuring one endpoint gives: the parsed URI with a request
/// timeout of 15 s and a keep-alive timeout of 45 s, then with the TLS
/// settings when they are set; nothing where the text is no URI.
pub proof fn lemma_configured_endpoint_timeouts(uri: Seq<char>, tls: Option<tonic::transport::ClientTlsConfig>)
    ensures
        parsed_endpoint(uri) is Err ==> configured_endpoint(uri, tls) is None,
        configured_endpoint(uri, tls) is Some ==> parsed_endpoint(uri) is Ok,
        parsed_endpoint(uri) is Ok && tls is None ==> configured_endpoint(uri, tls)
            == Some(endpoint_with_keep_alive(endpoint_with_timeout(parsed_endpoint(uri)->Ok_0, 15), 45)),
        parsed_endpoint(uri) is Ok && tls is Some ==> configured_endpoint(uri, tls)
            == endpoint_with_tls(endpoint_with_keep_alive(endpoint_with_timeout(parsed_endpoint(uri)->Ok_0, 15), 45), tls->Some_0),
{
}

/// Every endpoint is a URI to which the TLS settings, when set, apply.
pub open spec fn all_configured(endpoints: Seq<String>, tls: Option<tonic::transport::ClientTlsConfig>) -> bool {
    forall|i: int| 0 <= i < endpoints.len() ==> (#[trigger] configured_endpoint(endpoints[i]@, tls)) is Some
}

/// Whether `k` is the first endpoint that cannot be configured.
pub open spec fn is_first_failure(endpoints: Seq<String>, tls: Option<tonic::transport::ClientTlsConfig>, k: int) -> bool {
    &&& 0 <= k < endpoints.len()
    &&& configured_endpoint(endpoints[k]@, tls) is None
    &&& forall|i: int| 0 <= i < k ==> (#[trigger] configured_endpoint(endpoints[i]@, tls)) is Some
}

/// The error with which the endpoint `uri` fails: the invalid gateway error
/// that names it where it is not a URI, otherwise the transport error of the
/// TLS settings.
pub open spec fn is_failure_of(uri: Seq<char>, e: ZeebeError) -> bool {
    if is_gateway_uri(uri) {
        e is Transport
    } else {
        e matches ZeebeError::InvalidGatewayUri { message, uri: u } && u@ == uri && message@ == gateway_uri_error(uri)
    }
}

/// The endpoint for `uri` given what parsing it gave: the endpoint, or the
/// invalid gateway error that names the uri and carries the parser's text.
pub fn gateway_endpoint(uri: &String, parsed: core::result::Result<tonic::transport::Endpoint, String>) -> (r: Result<tonic::transport::Endpoint>)
    ensures
        match parsed {
            Ok(e) => r == Ok::<tonic::transport::Endpoint, ZeebeError>(e),
            Err(m) => r matches Err(ZeebeError::InvalidGatewayUri { message, uri: u }) && message == m && u@ == uri@,
        },
{
    match parsed {
        Ok(e) => Ok(e),
        Err(message) => Err(ZeebeError::InvalidGatewayUri { message, uri: uri.clone() }),
    }
}

/// Where every endpoint before `k` can be configured and `k` cannot, `k` is
/// the one first failure and not every endpoint can be configured.
proof fn lemma_first_failure(endpoints: Seq<String>, tls: Option<tonic::transport::ClientTlsConfig>, k: int)
    requires
        0 <= k < endpoints.len(),
        configured_endpoint(endpoints[k]@, tls) is None,
        forall|j: int| 0 <= j < k ==> (#[trigger] configured_endpoint(endpoints[j]@, tls)) is Some,
    ensures
        is_first_failure(endpoints, tls, k),
        !all_configured(endpoints, tls),
        forall|m: int| #[trigger] is_first_failure(endpoints, tls, m) ==> m == k,
{
    assert forall|m: int| #[trigger] is_first_failure(endpoints, tls, m) implies m == k by {
        if m < k {
            assert(configured_endpoint(endpoints[m]@, tls) is Some);
        } else if m > k {
            assert(configured_endpoint(endpoints[k]@, tls) is Some);
        }
    }
}

impl Client {
    /// A client on `channel` that authenticates with `auth_interceptor` and
    /// is handling no job.
    pub fn from_channel(channel: tonic::transport::Channel, auth_interceptor: AuthInterceptor) -> (r: Self)
        ensures
            r.channel == channel,
            r.auth_interceptor == auth_interceptor,
            r.current_job_key is None,
            r.current_job_extensions is None,
    {
        Client { channel, auth_interceptor, current_job_key: None, current_job_extensions: None }
    }

    /// The same client, handling the job with key `key`.
    pub fn with_current_job_key(self, key: i64) -> (r: Self)
        ensures
            r == (Client { current_job_key: Some(key), ..self }),
    {
        Client { current_job_key: Some(key), ..self }
    }

    /// The same client, handling a job with the worker's extensions at hand.
    pub fn with_current_job_extensions(self, extensions: std::sync::Arc<JobExtensions>) -> (r: Self)
        ensures
            r == (Client { current_job_extensions: Some(extensions), ..self }),
    {
        Client { current_job_extensions: Some(extensions), ..self }
    }

    /// The client a handler gets for `job`: this client, with `job` as its
    /// current job and the worker's extensions at hand.
    pub fn for_job(&self, job: &Job, extensions: &std::sync::Arc<JobExtensions>) -> (r: Self)
        ensures
            same_handle(r, Client { current_job_key: Some(job.0.key), current_job_extensions: Some(*extensions), ..*self }),
    {
        self.clone().with_current_job_key(job.key()).with_current_job_extensions(share(extensions))
    }

    /// Builds the endpoints of the channel to the gateways, in order: each is
    /// parsed, given the request and keep-alive timeouts and, when set, the
    /// TLS settings. The first endpoint that fails stops the construction
    /// with its error. The caller balances a channel over the endpoints.
    pub fn build_endpoints(endpoints: Vec<String>, tls: Option<tonic::transport::ClientTlsConfig>) -> (r: Result<Vec<tonic::transport::Endpoint>>)
        ensures
            r is Ok <==> all_configured(endpoints@, tls),
            r matches Ok(v) ==> v@.len() == endpoints@.len() && forall|i: int| 0 <= i < endpoints@.len()
                ==> configured_endpoint(endpoints@[i]@, tls) == Some(#[trigger] v@[i]),
            forall|k: int| #[trigger] is_first_failure(endpoints@, tls, k) ==>
                (r matches Err(e) && is_failure_of(endpoints@[k]@, e)),
            r is Ok ==> forall|i: int| #![trigger r->Ok_0@[i]] 0 <= i < endpoints@.len() ==> (
                parsed_endpoint(endpoints@[i]@) is Ok
                && (tls is None ==> r->Ok_0@[i] == endpoint_with_keep_alive(
                    endpoint_with_timeout(parsed_endpoint(endpoints@[i]@)->Ok_0, 15), 45))
                && (tls is Some ==> endpoint_with_tls(endpoint_with_keep_alive(
                    endpoint_with_timeout(parsed_endpoint(endpoints@[i]@)->Ok_0, 15), 45), tls->Some_0)
                    == Some(r->Ok_0@[i]))
            ),
    {
        let mut configured: Vec<tonic::transport::Endpoint> = Vec::new();
        let mut i: usize = 0;
        while i < endpoints.len()
            invariant
                i <= endpoints@.len(),
                configured@.len() == i,
                forall|j: int| 0 <= j < i ==> #[trigger] configured_endpoint(endpoints@[j]@, tls) == Some(configured@[j]),
                forall|j: int| #![trigger configured@[j]] #![trigger endpoints@[j]] 0 <= j < i ==> (
                    parsed_endpoint(endpoints@[j]@) is Ok
                    && (tls is None ==> configured@[j] == endpoint_with_keep_alive(
                        endpoint_with_timeout(parsed_endpoint(endpoints@[j]@)->Ok_0, 15), 45))
                    && (tls is Some ==> endpoint_with_tls(endpoint_with_keep_alive(
                        endpoint_with_timeout(parsed_endpoint(endpoints@[j]@)->Ok_0, 15), 45), tls->Some_0)
                        == Some(configured@[j]))
                ),
            decreases endpoints@.len() - i,
        {
            let uri = &endpoints[i];
            let parsed = parse_endpoint(uri);
            let endpoint = match gateway_endpoint(uri, parsed) {
                Ok(e) => e,
                Err(e) => {
                    proof { lemma_first_failure(endpoints@, tls, i as int); }
                    return Err(e);
                },
            };
            let endpoint = endpoint_timeout(endpoint, DEFAULT_REQUEST_TIMEOUT_SECS);
            let endpoint = endpoint_keep_alive_timeout(endpoint, DEFAULT_KEEP_ALIVE_SECS);
            let endpoint = match &tls {
                Some(t) => match endpoint_tls_config(endpoint, copy_tls_config(t)) {
                    Ok(e) => e,
                    Err(err) => {
                        proof { lemma_first_failure(endpoints@, tls, i as int); }
                        return Err(ZeebeError::Transport(err));
                    },
                },
                None => endpoint,
            };
            proof { lemma_configured_endpoint_timeouts(endpoints@[i as int]@, tls); }
            configured.push(endpoint);
            i = i + 1;
        }
        assert forall|k: int| #[trigger] is_first_failure(endpoints@, tls, k) implies false by {
            assert(configured_endpoint(endpoints@[k]@, tls) == Some(configured@[k]));
        }
        Ok(configured)
    }

    /// Obtains the current topology of the cluster the gateway is part of.
    pub fn topology(&self) -> (r: TopologyBuilder)
        ensures
            same_handle(r.0, *self),
    {
        TopologyBuilder::new(self.clone())
    }

    /// Deploys one or more processes to Zeebe.
    pub fn deploy_process(&self) -> (r: DeployProcessBuilder)
        ensures
            same_handle(r.client, *self),
            r.resource_files@.len() == 0,
    {
        DeployProcessBuilder::new(self.clone())
    }

    /// Deploys a single resource to Zeebe
    pub fn deploy_resource(&self) -> (r: DeployResourceBuilder)
        ensures
            same_handle(r.client, *self),
            r.resource_name is None,
            r.content@.len() == 0,
            r.tenant_id is None,
    {
        DeployResourceBuilder::new(self.clone())
    }

    /// Delete a single resource from Zeebe
    pub fn delete_resource(&self) -> (r: DeleteResourceBuilder)
        ensures
            same_handle(r.client, *self),
            r == (DeleteResourceBuilder { client: r.client, resource_key: None, operation_reference: None }),
    {
        DeleteResourceBuilder::new(self.clone())
    }

    /// Creates and starts an instance of the specified process.
    pub fn create_process_instance(&self) -> (r: CreateProcessInstanceBuilder)
        ensures
            same_handle(r.client, *self),
            r.process_definition_key is None,
            r.bpmn_process_id is None,
            r.version == -1,
            r.variables is None,
            r.start_instructions@.len() == 0,
            r.tenant_id is None,
            r.operation_reference is None,
    {
        CreateProcessInstanceBuilder::new(self.clone())
    }

    /// Creates and starts an instance of the specified process; the response
    /// is returned when the process is completed.
    pub fn create_process_instance_with_result(&self) -> (r: CreateProcessInstanceWithResultBuilder)
        ensures
            same_handle(r.client, *self),
            r.process_definition_key is None,
            r.bpmn_process_id is None,
            r.version == -1,
            r.variables is None,
            r.request_timeout == 0,
            r.fetch_variables@.len() == 0,
            r.start_instructions@.len() == 0,
            r.tenant_id is None,
            r.operation_reference is None,
    {
        CreateProcessInstanceWithResultBuilder::new(self.clone())
    }

    /// Cancels a running process instance.
    pub fn cancel_process_instance(&self) -> (r: CancelProcessInstanceBuilder)
        ensures
            same_handle(r.client, *self),
            r == (CancelProcessInstanceBuilder { client: r.client, process_instance_key: None, operation_reference: None }),
    {
        CancelProcessInstanceBuilder::new(self.clone())
    }

    /// Updates all the variables of a particular scope from the given JSON
    /// document.
    pub fn set_variables(&self) -> (r: SetVariablesBuilder)
        ensures
            same_handle(r.client, *self),
            r == (SetVariablesBuilder {
                client: r.client,
                element_instance_key: None,
                variables: None,
                local: false,
                operation_reference: None,
            }),
    {
        SetVariablesBuilder::new(self.clone())
    }

    /// Completes a job with the given payload.
    pub fn complete_job(&self) -> (r: CompleteJobBuilder)
        ensures
            same_handle(r.client, *self),
            r == (CompleteJobBuilder { client: r.client, job_key: None, variables: None }),
    {
        CompleteJobBuilder::new(self.clone())
    }

    /// Marks the job as failed.
    pub fn fail_job(&self) -> (r: FailJobBuilder)
        ensures
            same_handle(r.client, *self),
            r == (FailJobBuilder {
                client: r.client,
                job_key: None,
                retries: None,
                retry_back_off: None,
                variables: None,
                error_message: None,
            }),
    {
        FailJobBuilder::new(self.clone())
    }

    /// Updates the number of retries a job has left.
    pub fn update_job_retries(&self) -> (r: UpdateJobRetriesBuilder)
        ensures
            same_handle(r.client, *self),
            r == (UpdateJobRetriesBuilder { client: r.client, job_key: None, retries: None, operation_reference: None }),
    {
        UpdateJobRetriesBuilder::new(self.clone())
    }

    /// Throw an error to indicate that a business error has occurred while
    /// processing the job.
    pub fn throw_error(&self) -> (r: ThrowErrorBuilder)
        ensures
            same_handle(r.client, *self),
            r == (ThrowErrorBuilder {
                client: r.client,
                job_key: None,
                error_code: None,
                error_message: None,
                variables: None,
            }),
    {
        ThrowErrorBuilder::new(self.clone())
    }

    /// Publishes a single message.
    pub fn publish_message(&self) -> (r: PublishMessageBuilder)
        ensures
            same_handle(r.client, *self),
            r == (PublishMessageBuilder {
                client: r.client,
                name: None,
                correlation_key: None,
                time_to_live: None,
                message_id: None,
                variables: None,
                tenant_id: None,
            }),
    {
        PublishMessageBuilder::new(self.clone())
    }

    /// Resolves a given incident.
    pub fn resolve_incident(&self) -> (r: ResolveIncidentBuilder)
        ensures
            same_handle(r.client, *self),
            r == (ResolveIncidentBuilder { client: r.client, incident_key: None, operation_reference: None }),
    {
        ResolveIncidentBuilder::new(self.clone())
    }
}

/// The gateway address that the environment names: host and port (the
/// default port when only the host is set), the default host with a given
/// port, the full address, or the default address, in that order.
pub open spec fn env_gateway_address(env: Environment) -> Seq<char> {
    match env.host {
        Some(host) => match env.port {
            Some(port) => host@ + ":"@ + port@,
            None => host@ + ":"@ + DEFAULT_ADDRESS_PORT@,
        },
        None => match env.port {
            Some(port) => DEFAULT_ADDRESS_HOST@ + ":"@ + port@,
            None => match env.address {
                Some(address) => address@,
                None => DEFAULT_ADDRESS_HOST@ + ":"@ + DEFAULT_ADDRESS_PORT@,
            },
        },
    }
}

/// The precedence of the gateway address: a set host wins, with the set port
/// or else the default port, whatever the full address says; a port alone
/// goes with the default host; the full address counts only when neither
/// host nor port is set; otherwise the default address.
pub proof fn lemma_gateway_address_precedence(env: Environment)
    ensures
        env.host is Some && env.port is Some ==> env_gateway_address(env) == env.host->Some_0@ + ":"@ + env.port->Some_0@,
        env.host is Some && env.port is None ==> env_gateway_address(env) == env.host->Some_0@ + ":"@ + DEFAULT_ADDRESS_PORT@,
        env.host is None && env.port is Some ==> env_gateway_address(env) == DEFAULT_ADDRESS_HOST@ + ":"@ + env.port->Some_0@,
        env.host is None && env.port is None && env.address is Some ==> env_gateway_address(env) == env.address->Some_0@,
        env.host is None && env.port is None && env.address is None
            ==> env_gateway_address(env) == DEFAULT_ADDRESS_HOST@ + ":"@ + DEFAULT_ADDRESS_PORT@,
        forall|other: Environment| other.host == env.host && other.port == env.port && (env.host is Some || env.port is Some)
            ==> #[trigger] env_gateway_address(other) == env_gateway_address(env),
{
}

/// `host:port`.
fn join_host_port(host: &str, port: &str) -> (r: String)
    ensures
        r@ == host@ + ":"@ + port@,
{
    String::from_str(host).concat(":").concat(port)
}

/// The gateway address that the environment names.
pub fn gateway_address(env: &Environment) -> (r: String)
    ensures
        r@ == env_gateway_address(*env),
        env.host is Some && env.port is Some ==> r@ == env.host->Some_0@ + ":"@ + env.port->Some_0@,
        env.host is Some && env.port is None ==> r@ == env.host->Some_0@ + ":"@ + DEFAULT_ADDRESS_PORT@,
        env.host is None && env.port is Some ==> r@ == DEFAULT_ADDRESS_HOST@ + ":"@ + env.port->Some_0@,
        env.host is None && env.port is None && env.address is Some ==> r@ == env.address->Some_0@,
        env.host is None && env.port is None && env.address is None
            ==> r@ == DEFAULT_ADDRESS_HOST@ + ":"@ + DEFAULT_ADDRESS_PORT@,
{
    match &env.host {
        Some(host) => match &env.port {
            Some(port) => join_host_port(host.as_str(), port.as_str()),
            None => join_host_port(host.as_str(), DEFAULT_ADDRESS_PORT),
        },
        None => match &env.port {
            Some(port) => join_host_port(DEFAULT_ADDRESS_HOST, port.as_str()),
            None => match &env.address {
                Some(address) => address.clone(),
                None => join_host_port(DEFAULT_ADDRESS_HOST, DEFAULT_ADDRESS_PORT),
            },
        },
    }
}

/// TLS settings exactly where a CA certificate's PEM text is given, and then
/// settings that trust the certificate read from that text.
pub open spec fn trusts_ca_pem(tls: Option<tonic::transport::ClientTlsConfig>, pem: Option<String>) -> bool {
    match (tls, pem) {
        (Some(t), Some(p)) => exists|base: tonic::transport::ClientTlsConfig|
            #[trigger] tls_with_ca_certificate(base, pem_certificate(p@)) == t,
        (None, None) => true,
        _ => false,
    }
}

/// Config for establishing zeebe client.
pub struct ClientConfig {
    /// The endpoints the client should connect to
    pub endpoints: Vec<String>,
    /// TLS configuration
    pub tls: Option<tonic::transport::ClientTlsConfig>,
    /// OAuth config
    pub auth: Option<OAuthConfig>,
}

impl ClientConfig {
    /// The configuration that the environment describes: one endpoint at the
    /// gateway address it names, TLS trusting the CA certificate whose PEM
    /// text `ca_certificate_pem` holds (the file that the environment names,
    /// read by the caller), and OAuth when the client id or secret is set.
    pub fn from_env(env: &Environment, ca_certificate_pem: Option<String>) -> (r: Result<Self>)
        requires
            ca_certificate_pem is Some <==> env.ca_certificate_path is Some,
        ensures
            !OAuthConfig::should_use_env_config_spec(*env) ==> r is Ok,
            OAuthConfig::should_use_env_config_spec(*env) ==> (r is Ok <==> (env.client_id is Some && env.client_secret is Some)),
            OAuthConfig::should_use_env_config_spec(*env) && env.client_id is None
                ==> crate::error::is_invalid_parameters(r, "ZEEBE_CLIENT_ID not set"),
            OAuthConfig::should_use_env_config_spec(*env) && env.client_id is Some && env.client_secret is None
                ==> crate::error::is_invalid_parameters(r, "ZEEBE_CLIENT_SECRET not set"),
            r matches Ok(c) ==> {
                &&& c.endpoints@.len() == 1
                &&& c.endpoints@[0]@ == env_gateway_address(*env)
                &&& trusts_ca_pem(c.tls, ca_certificate_pem)
                &&& (c.auth is Some <==> OAuthConfig::should_use_env_config_spec(*env))
                &&& (c.auth matches Some(a) ==> OAuthConfig::env_config(*env, a))
            },
    {
        let tls = match ca_certificate_pem {
            Some(pem) => Some(tls_ca_certificate(new_tls_config(), certificate_from_pem(pem))),
            None => None,
        };
        let address = gateway_address(env);
        let auth = if OAuthConfig::should_use_env_config(env) {
            match OAuthConfig::from_env(env) {
                Ok(a) => Some(a),
                Err(e) => return Err(e),
            }
        } else {
            None
        };
        let mut endpoints: Vec<String> = Vec::new();
        endpoints.push(address);
        Ok(ClientConfig { endpoints, tls, auth })
    }

    /// Set the grpc endpoints the client should connect to.
    pub fn with_endpoints(endpoints: Vec<String>) -> (r: Self)
        ensures
            r.endpoints == endpoints,
            r.tls is None,
            r.auth is None,
    {
        ClientConfig { endpoints, tls: None, auth: None }
    }
}

impl Default for ClientConfig {
    /// One endpoint, the default gateway address.
    fn default() -> (r: Self)
        ensures
            r.endpoints@.len() == 1,
            r.endpoints@[0]@ == DEFAULT_ADDRESS_HOST@ + ":"@ + DEFAULT_ADDRESS_PORT@,
            r.tls is None,
            r.auth is None,
    {
        let mut endpoints: Vec<String> = Vec::new();
        endpoints.push(join_host_port(DEFAULT_ADDRESS_HOST, DEFAULT_ADDRESS_PORT));
        ClientConfig::with_endpoints(endpoints)
    }
}

} // verus!
