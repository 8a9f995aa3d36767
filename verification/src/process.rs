//! Deploying processes and creating, cancelling and updating process
//! instances.
use crate::client::Client;
use crate::error::{Result, ZeebeError};
use crate::json::{variables_text, variables_to_text};
use crate::proto;
use crate::text::{text_or_empty, unwrap_or_empty};
use vstd::prelude::*;

verus! {

/// Copies a byte buffer.
fn copy_bytes(v: &Vec<u8>) -> (r: Vec<u8>)
    ensures
        r@ == v@,
{
    let r = v.clone();
    assert(r@ =~= v@);
    r
}

/// Deploys one or more process to Zeebe.
///
/// Note that this is an atomic call, i.e. either all processes are deployed, or
/// none of them are.
pub struct DeployProcessBuilder {
    pub client: Client,
    pub resource_files: Vec<String>,
}

impl DeployProcessBuilder {
    /// Create a new deploy process builder.
    pub fn new(client: Client) -> (r: Self)
        ensures
            r.client == client,
            r.resource_files@.len() == 0,
    {
        DeployProcessBuilder { client, resource_files: Vec::new() }
    }

    /// Set a single resource file to upload.
    pub fn with_resource_file<T: Into<String>>(self, resource_file: T) -> (r: Self)
        ensures
            r.client == self.client,
            r.resource_files@.len() == 1,
            call_ensures(T::into, (resource_file,), r.resource_files@[0]),
    {
        let mut resource_files: Vec<String> = Vec::new();
        resource_files.push(resource_file.into());
        DeployProcessBuilder { resource_files, ..self }
    }

    /// Set a list of resource files to uploaded.
    pub fn with_resource_files(self, resource_files: Vec<String>) -> (r: Self)
        ensures
            r == (DeployProcessBuilder { resource_files, ..self }),
    {
        DeployProcessBuilder { resource_files, ..self }
    }

    /// The deploy request for the resource files, given their contents in the
    /// same order (read by the caller): each process is named by its file.
    pub fn request(&self, definitions: &Vec<Vec<u8>>) -> (r: proto::DeployProcessRequest)
        requires
            definitions@.len() == self.resource_files@.len(),
        ensures
            r.processes@.len() == self.resource_files@.len(),
            forall|i: int| 0 <= i < r.processes@.len() ==> {
                &&& (#[trigger] r.processes@[i]).name@ == self.resource_files@[i]@
                &&& r.processes@[i].definition@ == definitions@[i]@
            },
    {
        let mut processes: Vec<proto::ProcessRequestObject> = Vec::new();
        let mut i: usize = 0;
        while i < self.resource_files.len()
            invariant
                i <= self.resource_files@.len(),
                definitions@.len() == self.resource_files@.len(),
                processes@.len() == i,
                forall|j: int| 0 <= j < i ==> {
                    &&& (#[trigger] processes@[j]).name@ == self.resource_files@[j]@
                    &&& processes@[j].definition@ == definitions@[j]@
                },
            decreases self.resource_files@.len() - i,
        {
            processes.push(proto::ProcessRequestObject {
                name: self.resource_files[i].clone(),
                definition: copy_bytes(&definitions[i]),
            });
            i = i + 1;
        }
        proto::DeployProcessRequest { processes }
    }
}

/// Deployed process data.
#[derive(Debug)]
pub struct DeployProcessResponse(pub proto::DeployProcessResponse);

/// Two process metadata records agree in every field.
pub open spec fn same_process_metadata(a: proto::ProcessMetadata, b: proto::ProcessMetadata) -> bool {
    &&& a.bpmn_process_id@ == b.bpmn_process_id@
    &&& a.version == b.version
    &&& a.process_definition_key == b.process_definition_key
    &&& a.resource_name@ == b.resource_name@
    &&& a.tenant_id@ == b.tenant_id@
}

impl DeployProcessResponse {
    /// the unique key identifying the deployment
    pub fn key(&self) -> (r: i64)
        ensures
            r == self.0.key,
    {
        self.0.key
    }

    /// a list of deployed processes
    pub fn processes(&self) -> (r: Vec<ProcessMetadata>)
        ensures
            r@.len() == self.0.processes@.len(),
            forall|i: int| 0 <= i < r@.len() ==> same_process_metadata(#[trigger] r@[i].0, self.0.processes@[i]),
    {
        let mut r: Vec<ProcessMetadata> = Vec::new();
        let mut i: usize = 0;
        while i < self.0.processes.len()
            invariant
                i <= self.0.processes@.len(),
                r@.len() == i,
                forall|j: int| 0 <= j < i ==> same_process_metadata(#[trigger] r@[j].0, self.0.processes@[j]),
            decreases self.0.processes@.len() - i,
        {
            let p = &self.0.processes[i];
            r.push(ProcessMetadata(proto::ProcessMetadata {
                bpmn_process_id: p.bpmn_process_id.clone(),
                version: p.version,
                process_definition_key: p.process_definition_key,
                resource_name: p.resource_name.clone(),
                tenant_id: p.tenant_id.clone(),
            }));
            i = i + 1;
        }
        r
    }
}

/// Metadata information about a process.
#[derive(Debug)]
pub struct ProcessMetadata(pub proto::ProcessMetadata);

impl ProcessMetadata {
    /// the bpmn process ID, as parsed during deployment; together with the version
    /// forms a unique identifier for a specific process definition
    pub fn bpmn_process_id(&self) -> (r: &str)
        ensures
            r@ == self.0.bpmn_process_id@,
    {
        self.0.bpmn_process_id.as_str()
    }

    /// the assigned process version
    pub fn version(&self) -> (r: i32)
        ensures
            r == self.0.version,
    {
        self.0.version
    }

    /// the assigned key, which acts as a unique identifier for this process
    pub fn process_definition_key(&self) -> (r: i64)
        ensures
            r == self.0.process_definition_key,
    {
        self.0.process_definition_key
    }

    /// the resource name (see: ProcessRequestObject.name) from which this process
    /// was parsed
    pub fn resource_name(&self) -> (r: &str)
        ensures
            r@ == self.0.resource_name@,
    {
        self.0.resource_name.as_str()
    }
}

/// The start instructions of a request: one per element id, in order.
pub open spec fn start_instructions_of(ids: Seq<String>, instructions: Seq<proto::ProcessInstanceCreationStartInstruction>) -> bool {
    &&& instructions.len() == ids.len()
    &&& forall|i: int| 0 <= i < ids.len() ==> (#[trigger] instructions[i]).element_id == ids[i]
}

/// Turns element ids into start instructions, keeping their order.
fn start_instructions(ids: Vec<String>) -> (r: Vec<proto::ProcessInstanceCreationStartInstruction>)
    ensures
        start_instructions_of(ids@, r@),
{
    let mut ids = ids;
    let ghost ids_at_start = ids@;
    let mut reversed: Vec<proto::ProcessInstanceCreationStartInstruction> = Vec::new();
    while ids.len() > 0
        invariant
            ids@ == ids_at_start.subrange(0, ids@.len() as int),
            reversed@.len() + ids@.len() == ids_at_start.len(),
            forall|j: int| 0 <= j < reversed@.len() ==>
                (#[trigger] reversed@[j]).element_id == ids_at_start[ids_at_start.len() - 1 - j],
        decreases ids@.len(),
    {
        let id = ids.pop().unwrap();
        reversed.push(proto::ProcessInstanceCreationStartInstruction { element_id: id });
    }
    let mut r: Vec<proto::ProcessInstanceCreationStartInstruction> = Vec::new();
    while reversed.len() > 0
        invariant
            r@.len() + reversed@.len() == ids_at_start.len(),
            forall|j: int| 0 <= j < reversed@.len() ==>
                (#[trigger] reversed@[j]).element_id == ids_at_start[ids_at_start.len() - 1 - j],
            forall|j: int| 0 <= j < r@.len() ==> (#[trigger] r@[j]).element_id == ids_at_start[j],
        decreases reversed@.len(),
    {
        let instruction = reversed.pop().unwrap();
        r.push(instruction);
    }
    r
}

/// The message when a create request names no process definition.
pub const MISSING_PROCESS: &'static str = "`process_definition_key` or `pbmn_process_id` must be set";

/// Whether `req` is the create request that the given settings describe.
pub open spec fn create_request_of(
    req: proto::CreateProcessInstanceRequest,
    process_definition_key: Option<i64>,
    bpmn_process_id: Option<String>,
    version: i32,
    variables: Option<serde_json::Value>,
    start_instructions: Seq<String>,
    tenant_id: Option<String>,
    operation_reference: Option<u64>,
) -> bool {
    &&& req.process_definition_key == (match process_definition_key { Some(k) => k, None => 0i64 })
    &&& req.bpmn_process_id@ == text_or_empty(bpmn_process_id)
    &&& req.version == version
    &&& variables_text(variables, req.variables)
    &&& start_instructions_of(start_instructions, req.start_instructions@)
    &&& req.tenant_id@ == text_or_empty(tenant_id)
    &&& req.operation_reference == operation_reference
}

/// A create request carries the instance's variables as the text of the
/// given document (or none), whatever names the process, and names the
/// process by the given key (0 when none) and BPMN process id (empty when
/// none) at the given version.
pub proof fn lemma_create_request_carries_variables(
    req: proto::CreateProcessInstanceRequest,
    process_definition_key: Option<i64>,
    bpmn_process_id: Option<String>,
    version: i32,
    variables: Option<serde_json::Value>,
    start_instructions: Seq<String>,
    tenant_id: Option<String>,
    operation_reference: Option<u64>,
)
    requires
        create_request_of(req, process_definition_key, bpmn_process_id, version, variables,
            start_instructions, tenant_id, operation_reference),
    ensures
        variables_text(variables, req.variables),
        variables is None ==> req.variables@ == Seq::<char>::empty(),
        req.process_definition_key == (match process_definition_key { Some(k) => k, None => 0i64 }),
        req.bpmn_process_id@ == text_or_empty(bpmn_process_id),
        req.version == version,
{
}

/// Creates and starts an instance of the specified process.
///
/// The process definition to use to create the instance can be specified
/// either using its unique key, or using the BPMN process ID and a version.
/// Pass -1 as the version to use the latest deployed version.
pub struct CreateProcessInstanceBuilder {
    pub client: Client,
    /// the unique key identifying the process definition
    pub process_definition_key: Option<i64>,
    /// the BPMN process ID of the process definition
    pub bpmn_process_id: Option<String>,
    /// the version of the process; set to -1 to use the latest version
    pub version: i32,
    /// JSON document that will instantiate the variables for the root variable
    /// scope of the process instance; it must be a JSON object.
    pub variables: Option<serde_json::Value>,
    /// List of start instructions. If empty (default) the process instance
    /// will start at the start event.
    pub start_instructions: Vec<String>,
    /// the tenant id of the process definition
    pub tenant_id: Option<String>,
    /// a reference key chosen by the user and will be part of all records resulted from this operation
    pub operation_reference: Option<u64>,
}

impl CreateProcessInstanceBuilder {
    /// Create a new process instance builder
    pub fn new(client: Client) -> (r: Self)
        ensures
            r.client == client,
            r.process_definition_key is None,
            r.bpmn_process_id is None,
            r.version == -1,
            r.variables is None,
            r.start_instructions@.len() == 0,
            r.tenant_id is None,
            r.operation_reference is None,
    {
        CreateProcessInstanceBuilder {
            client,
            process_definition_key: None,
            bpmn_process_id: None,
            version: -1,
            variables: None,
            start_instructions: Vec::new(),
            tenant_id: None,
            operation_reference: None,
        }
    }

    /// Set the process key for this process instance.
    pub fn with_process_definition_key(self, key: i64) -> (r: Self)
        ensures
            r == (CreateProcessInstanceBuilder { process_definition_key: Some(key), ..self }),
    {
        CreateProcessInstanceBuilder { process_definition_key: Some(key), ..self }
    }

    /// Set the BPMN process id for this process instance.
    pub fn with_bpmn_process_id<T: Into<String>>(self, bpmn_process_id: T) -> (r: Self)
        ensures
            r.bpmn_process_id matches Some(id) && call_ensures(T::into, (bpmn_process_id,), id),
            r == (CreateProcessInstanceBuilder { bpmn_process_id: r.bpmn_process_id, ..self }),
    {
        CreateProcessInstanceBuilder { bpmn_process_id: Some(bpmn_process_id.into()), ..self }
    }

    /// Set the version for this process instance.
    pub fn with_version(self, version: i32) -> (r: Self)
        ensures
            r == (CreateProcessInstanceBuilder { version, ..self }),
    {
        CreateProcessInstanceBuilder { version, ..self }
    }

    /// Use the latest process version for this process instance.
    pub fn with_latest_version(self) -> (r: Self)
        ensures
            r == (CreateProcessInstanceBuilder { version: -1i32, ..self }),
    {
        CreateProcessInstanceBuilder { version: -1, ..self }
    }

    /// Set variables for this process instance.
    pub fn with_variables(self, variables: serde_json::Value) -> (r: Self)
        ensures
            r == (CreateProcessInstanceBuilder { variables: Some(variables), ..self }),
    {
        CreateProcessInstanceBuilder { variables: Some(variables), ..self }
    }

    /// Set start instructions for this process instance.
    pub fn with_start_instructions(self, start_instructions: Vec<String>) -> (r: Self)
        ensures
            r == (CreateProcessInstanceBuilder { start_instructions, ..self }),
    {
        CreateProcessInstanceBuilder { start_instructions, ..self }
    }

    /// Set tenant ID for this process instance.
    pub fn with_tenant_id<T: Into<String>>(self, tenant_id: T) -> (r: Self)
        ensures
            r.tenant_id matches Some(t) && call_ensures(T::into, (tenant_id,), t),
            r == (CreateProcessInstanceBuilder { tenant_id: r.tenant_id, ..self }),
    {
        CreateProcessInstanceBuilder { tenant_id: Some(tenant_id.into()), ..self }
    }

    /// Set operation reference for this process instance.
    pub fn with_operation_reference(self, operation_reference: u64) -> (r: Self)
        ensures
            r == (CreateProcessInstanceBuilder { operation_reference: Some(operation_reference), ..self }),
    {
        CreateProcessInstanceBuilder { operation_reference: Some(operation_reference), ..self }
    }

    /// The create request this builder describes; an error when it names no
    /// process definition.
    pub fn into_request(self) -> (r: Result<proto::CreateProcessInstanceRequest>)
        ensures
            self.process_definition_key is None && self.bpmn_process_id is None
                ==> crate::error::is_invalid_parameters(r, MISSING_PROCESS),
            !(self.process_definition_key is None && self.bpmn_process_id is None) ==> (
                r matches Ok(req) && create_request_of(req, self.process_definition_key, self.bpmn_process_id,
                    self.version, self.variables, self.start_instructions@, self.tenant_id, self.operation_reference)
            ),
            r matches Ok(req) ==> {
                &&& variables_text(self.variables, req.variables)
                &&& req.process_definition_key == (match self.process_definition_key { Some(k) => k, None => 0i64 })
                &&& req.bpmn_process_id@ == text_or_empty(self.bpmn_process_id)
                &&& req.version == self.version
            },
    {
        if self.process_definition_key.is_none() && self.bpmn_process_id.is_none() {
            return Err(ZeebeError::InvalidParameters(MISSING_PROCESS));
        }
        let process_definition_key: i64 = match self.process_definition_key {
            Some(k) => k,
            None => 0,
        };
        Ok(proto::CreateProcessInstanceRequest {
            process_definition_key,
            bpmn_process_id: unwrap_or_empty(self.bpmn_process_id),
            version: self.version,
            variables: variables_to_text(&self.variables),
            start_instructions: start_instructions(self.start_instructions),
            tenant_id: unwrap_or_empty(self.tenant_id),
            operation_reference: self.operation_reference,
        })
    }
}

/// Created process instance data.
#[derive(Debug)]
pub struct CreateProcessInstanceResponse(pub proto::CreateProcessInstanceResponse);

impl CreateProcessInstanceResponse {
    /// the key of the process definition which was used to create the process
    /// instance
    pub fn process_definition_key(&self) -> (r: i64)
        ensures
            r == self.0.process_definition_key,
    {
        self.0.process_definition_key
    }

    /// the BPMN process ID of the process definition which was used to create the
    /// process instance
    pub fn bpmn_process_id(&self) -> (r: &str)
        ensures
            r@ == self.0.bpmn_process_id@,
    {
        self.0.bpmn_process_id.as_str()
    }

    /// the version of the process definition which was used to create the process
    /// instance
    pub fn version(&self) -> (r: i32)
        ensures
            r == self.0.version,
    {
        self.0.version
    }

    /// the unique identifier of the created process instance
    pub fn process_instance_key(&self) -> (r: i64)
        ensures
            r == self.0.process_instance_key,
    {
        self.0.process_instance_key
    }
}

/// Creates and starts an instance of the specified process with result.
///
/// Unlike [`CreateProcessInstanceBuilder`], the response is returned when the
/// process is completed.
pub struct CreateProcessInstanceWithResultBuilder {
    pub client: Client,
    /// the unique key identifying the process definition
    pub process_definition_key: Option<i64>,
    /// the BPMN process ID of the process definition
    pub bpmn_process_id: Option<String>,
    /// the version of the process; set to -1 to use the latest version
    pub version: i32,
    /// JSON document that will instantiate the variables for the root variable
    /// scope of the process instance; it must be a JSON object.
    pub variables: Option<serde_json::Value>,
    /// timeout (in ms). if 0, uses the generic requestTimeout configured in the gateway.
    pub request_timeout: u64,
    /// names of variables to be included in the response; if empty, all
    /// visible variables in the root scope will be returned.
    pub fetch_variables: Vec<String>,
    /// List of start instructions.
    pub start_instructions: Vec<String>,
    /// the tenant id of the process definition
    pub tenant_id: Option<String>,
    /// a reference key chosen by the user and will be part of all records resulted from this operation
    pub operation_reference: Option<u64>,
}

impl CreateProcessInstanceWithResultBuilder {
    /// Create a new process instance builder
    pub fn new(client: Client) -> (r: Self)
        ensures
            r.client == client,
            r.process_definition_key is None,
            r.bpmn_process_id is None,
            r.version == -1,
            r.variables is None,
            r.request_timeout == 0,
            r.fetch_variables@.len() == 0,
            r.start_instructions@.len() == 0,
            r.tenant_id is None,
            r.operation_reference is None,
    {
        CreateProcessInstanceWithResultBuilder {
            client,
            process_definition_key: None,
            bpmn_process_id: None,
            version: -1,
            variables: None,
            request_timeout: 0,
            fetch_variables: Vec::new(),
            start_instructions: Vec::new(),
            tenant_id: None,
            operation_reference: None,
        }
    }

    /// Set the process key for this process instance.
    pub fn with_process_definition_key(self, key: i64) -> (r: Self)
        ensures
            r == (CreateProcessInstanceWithResultBuilder { process_definition_key: Some(key), ..self }),
    {
        CreateProcessInstanceWithResultBuilder { process_definition_key: Some(key), ..self }
    }

    /// Set the BPMN process id for this process instance.
    pub fn with_bpmn_process_id<T: Into<String>>(self, bpmn_process_id: T) -> (r: Self)
        ensures
            r.bpmn_process_id matches Some(id) && call_ensures(T::into, (bpmn_process_id,), id),
            r == (CreateProcessInstanceWithResultBuilder { bpmn_process_id: r.bpmn_process_id, ..self }),
    {
        CreateProcessInstanceWithResultBuilder { bpmn_process_id: Some(bpmn_process_id.into()), ..self }
    }

    /// Set the version for this process instance.
    pub fn with_version(self, version: i32) -> (r: Self)
        ensures
            r == (CreateProcessInstanceWithResultBuilder { version, ..self }),
    {
        CreateProcessInstanceWithResultBuilder { version, ..self }
    }

    /// Use the latest process version for this process instance.
    pub fn with_latest_version(self) -> (r: Self)
        ensures
            r == (CreateProcessInstanceWithResultBuilder { version: -1i32, ..self }),
    {
        CreateProcessInstanceWithResultBuilder { version: -1, ..self }
    }

    /// Set variables for this process instance.
    pub fn with_variables(self, variables: serde_json::Value) -> (r: Self)
        ensures
            r == (CreateProcessInstanceWithResultBuilder { variables: Some(variables), ..self }),
    {
        CreateProcessInstanceWithResultBuilder { variables: Some(variables), ..self }
    }

    /// Set the names of the variables to fetch in the response.
    pub fn with_fetch_variables(self, fetch_variables: Vec<String>) -> (r: Self)
        ensures
            r == (CreateProcessInstanceWithResultBuilder { fetch_variables, ..self }),
    {
        CreateProcessInstanceWithResultBuilder { fetch_variables, ..self }
    }

    /// Set the result timeout for this process instance request.
    pub fn with_request_timeout(self, request_timeout: u64) -> (r: Self)
        ensures
            r == (CreateProcessInstanceWithResultBuilder { request_timeout, ..self }),
    {
        CreateProcessInstanceWithResultBuilder { request_timeout, ..self }
    }

    /// Set start instructions for this process instance.
    pub fn with_start_instructions(self, start_instructions: Vec<String>) -> (r: Self)
        ensures
            r == (CreateProcessInstanceWithResultBuilder { start_instructions, ..self }),
    {
        CreateProcessInstanceWithResultBuilder { start_instructions, ..self }
    }

    /// Set tenant ID for this process instance.
    pub fn with_tenant_id<T: Into<String>>(self, tenant_id: T) -> (r: Self)
        ensures
            r.tenant_id matches Some(t) && call_ensures(T::into, (tenant_id,), t),
            r == (CreateProcessInstanceWithResultBuilder { tenant_id: r.tenant_id, ..self }),
    {
        CreateProcessInstanceWithResultBuilder { tenant_id: Some(tenant_id.into()), ..self }
    }

    /// Set operation reference for this process instance.
    pub fn with_operation_reference(self, operation_reference: u64) -> (r: Self)
        ensures
            r == (CreateProcessInstanceWithResultBuilder { operation_reference: Some(operation_reference), ..self }),
    {
        CreateProcessInstanceWithResultBuilder { operation_reference: Some(operation_reference), ..self }
    }

    /// The create-with-result request this builder describes; an error when
    /// it names no process definition.
    pub fn into_request(self) -> (r: Result<proto::CreateProcessInstanceWithResultRequest>)
        ensures
            self.process_definition_key is None && self.bpmn_process_id is None
                ==> crate::error::is_invalid_parameters(r, MISSING_PROCESS),
            !(self.process_definition_key is None && self.bpmn_process_id is None) ==> (
                r matches Ok(req) && {
                    &&& req.request matches Some(inner) && create_request_of(inner, self.process_definition_key,
                        self.bpmn_process_id, self.version, self.variables, self.start_instructions@,
                        self.tenant_id, self.operation_reference)
                    &&& req.request_timeout == self.request_timeout as i64
                    &&& req.fetch_variables == self.fetch_variables
                }
            ),
            r matches Ok(req) ==> req.request matches Some(inner) && {
                &&& variables_text(self.variables, inner.variables)
                &&& inner.process_definition_key == (match self.process_definition_key { Some(k) => k, None => 0i64 })
                &&& inner.bpmn_process_id@ == text_or_empty(self.bpmn_process_id)
                &&& inner.version == self.version
            },
    {
        if self.process_definition_key.is_none() && self.bpmn_process_id.is_none() {
            return Err(ZeebeError::InvalidParameters(MISSING_PROCESS));
        }
        let process_definition_key: i64 = match self.process_definition_key {
            Some(k) => k,
            None => 0,
        };
        Ok(proto::CreateProcessInstanceWithResultRequest {
            request: Some(proto::CreateProcessInstanceRequest {
                process_definition_key,
                bpmn_process_id: unwrap_or_empty(self.bpmn_process_id),
                version: self.version,
                variables: variables_to_text(&self.variables),
                start_instructions: start_instructions(self.start_instructions),
                tenant_id: unwrap_or_empty(self.tenant_id),
                operation_reference: self.operation_reference,
            }),
            request_timeout: self.request_timeout as i64,
            fetch_variables: self.fetch_variables,
        })
    }
}

/// Created process instance with result data.
#[derive(Debug)]
pub struct CreateProcessInstanceWithResultResponse(pub proto::CreateProcessInstanceWithResultResponse);

impl CreateProcessInstanceWithResultResponse {
    /// the key of the process definition which was used to create the process
    /// instance
    pub fn process_definition_key(&self) -> (r: i64)
        ensures
            r == self.0.process_definition_key,
    {
        self.0.process_definition_key
    }

    /// the BPMN process ID of the process definition which was used to create the
    /// process instance
    pub fn bpmn_process_id(&self) -> (r: &str)
        ensures
            r@ == self.0.bpmn_process_id@,
    {
        self.0.bpmn_process_id.as_str()
    }

    /// the version of the process definition which was used to create the process
    /// instance
    pub fn version(&self) -> (r: i32)
        ensures
            r == self.0.version,
    {
        self.0.version
    }

    /// the unique identifier of the created process instance
    pub fn process_instance_key(&self) -> (r: i64)
        ensures
            r == self.0.process_instance_key,
    {
        self.0.process_instance_key
    }

    /// Serialized JSON document that consists of visible variables in the root scope
    pub fn variables_str(&self) -> (r: &str)
        ensures
            r@ == self.0.variables@,
    {
        self.0.variables.as_str()
    }

    /// JSON document consists of visible variables in the root scope; the
    /// empty object when the variables are not a JSON document.
    pub fn variables(&self) -> (r: serde_json::Value)
        ensures
            r == crate::json::document_or_empty_of(self.0.variables@),
    {
        crate::json::document_or_empty(crate::json::parse_json(self.0.variables.as_str()))
    }

    /// Deserialize encoded json variables as a given type
    /// (`serde_json::from_str(..).ok()`).
    #[verifier::external_body]
    pub fn variables_as<'a, T: serde::de::Deserialize<'a>>(&'a self) -> Option<T> {
        serde_json::from_str::<'a, T>(&self.0.variables).ok()
    }
}

/// Cancels a running process instance.
pub struct CancelProcessInstanceBuilder {
    pub client: Client,
    /// The unique key identifying the process instance.
    pub process_instance_key: Option<i64>,
    pub operation_reference: Option<u64>,
}

impl CancelProcessInstanceBuilder {
    /// Create a new cancel process instance builder
    pub fn new(client: Client) -> (r: Self)
        ensures
            r == (CancelProcessInstanceBuilder { client, process_instance_key: None, operation_reference: None }),
    {
        CancelProcessInstanceBuilder { client, process_instance_key: None, operation_reference: None }
    }

    /// Set the process instance key.
    pub fn with_process_instance_key(self, key: i64) -> (r: Self)
        ensures
            r == (CancelProcessInstanceBuilder { process_instance_key: Some(key), ..self }),
    {
        CancelProcessInstanceBuilder { process_instance_key: Some(key), ..self }
    }

    /// Set operation reference
    pub fn with_operation_reference(self, operation_reference: u64) -> (r: Self)
        ensures
            r == (CancelProcessInstanceBuilder { operation_reference: Some(operation_reference), ..self }),
    {
        CancelProcessInstanceBuilder { operation_reference: Some(operation_reference), ..self }
    }

    /// The cancel request this builder describes; an error when no instance
    /// is named.
    pub fn into_request(self) -> (r: Result<proto::CancelProcessInstanceRequest>)
        ensures
            match self.process_instance_key {
                None => crate::error::is_invalid_parameters(r, "`process_instance_key` must be set"),
                Some(k) => r matches Ok(req) && req.process_instance_key == k
                    && req.operation_reference == self.operation_reference,
            },
    {
        match self.process_instance_key {
            Some(process_instance_key) => Ok(proto::CancelProcessInstanceRequest {
                process_instance_key,
                operation_reference: self.operation_reference,
            }),
            None => Err(ZeebeError::InvalidParameters("`process_instance_key` must be set")),
        }
    }
}

/// Canceled process instance data.
#[derive(Debug)]
pub struct CancelProcessInstanceResponse(pub proto::CancelProcessInstanceResponse);

/// Updates all the variables of a particular scope (e.g. process instance, flow
/// element instance) from the given JSON document.
pub struct SetVariablesBuilder {
    pub client: Client,
    pub element_instance_key: Option<i64>,
    pub variables: Option<serde_json::Value>,
    pub local: bool,
    pub operation_reference: Option<u64>,
}

impl SetVariablesBuilder {
    /// Create a new set variables builder
    pub fn new(client: Client) -> (r: Self)
        ensures
            r == (SetVariablesBuilder {
                client,
                element_instance_key: None,
                variables: None,
                local: false,
                operation_reference: None,
            }),
    {
        SetVariablesBuilder {
            client,
            element_instance_key: None,
            variables: None,
            local: false,
            operation_reference: None,
        }
    }

    /// Set the unique identifier of this element: the process instance key,
    /// or a given element such as a service task.
    pub fn with_element_instance_key(self, element_instance_key: i64) -> (r: Self)
        ensures
            r == (SetVariablesBuilder { element_instance_key: Some(element_instance_key), ..self }),
    {
        SetVariablesBuilder { element_instance_key: Some(element_instance_key), ..self }
    }

    /// Set variables for this element; the root of the document must be a
    /// JSON object.
    pub fn with_variables(self, variables: serde_json::Value) -> (r: Self)
        ensures
            r == (SetVariablesBuilder { variables: Some(variables), ..self }),
    {
        SetVariablesBuilder { variables: Some(variables), ..self }
    }

    /// Set local scope for this request: when `true` the variables are merged
    /// strictly into the local scope and not propagated to upper scopes.
    pub fn with_local(self, local: bool) -> (r: Self)
        ensures
            r == (SetVariablesBuilder { local, ..self }),
    {
        SetVariablesBuilder { local, ..self }
    }

    /// Set a reference key chosen by the user and will be part of all records resulted from this operation
    pub fn with_operation_reference(self, operation_reference: u64) -> (r: Self)
        ensures
            r == (SetVariablesBuilder { operation_reference: Some(operation_reference), ..self }),
    {
        SetVariablesBuilder { operation_reference: Some(operation_reference), ..self }
    }

    /// The set variables request this builder describes; an error when no
    /// element is named.
    pub fn into_request(self) -> (r: Result<proto::SetVariablesRequest>)
        ensures
            match self.element_instance_key {
                None => crate::error::is_invalid_parameters(r, "`element_instance_key` must be set"),
                Some(k) => r matches Ok(req) && {
                    &&& req.element_instance_key == k
                    &&& variables_text(self.variables, req.variables)
                    &&& req.local == self.local
                    &&& req.operation_reference == self.operation_reference
                },
            },
    {
        match self.element_instance_key {
            Some(element_instance_key) => Ok(proto::SetVariablesRequest {
                element_instance_key,
                variables: variables_to_text(&self.variables),
                local: self.local,
                operation_reference: self.operation_reference,
            }),
            None => Err(ZeebeError::InvalidParameters("`element_instance_key` must be set")),
        }
    }
}

/// Set variables data.
#[derive(Debug)]
pub struct SetVariablesResponse(pub proto::SetVariablesResponse);

impl SetVariablesResponse {
    /// The unique key of the set variables command.
    pub fn key(&self) -> (r: i64)
        ensures
            r == self.0.key,
    {
        self.0.key
    }
}

} // verus!
