//! The workflow commands of the earlier gateway protocol: deploying
//! workflows and creating, cancelling and updating workflow instances.
use crate::client::Client;
use crate::error::{Result, ZeebeError};
use crate::json::{variables_text, variables_to_text};
use crate::proto;
use crate::text::{text_or_empty, unwrap_or_empty};
use vstd::prelude::*;

verus! {

/// The message when a create request names no workflow.
pub const MISSING_WORKFLOW: &'static str = "`workflow_key` or `pbmn_process_id` must be set";

/// The format of the uploaded workflows.
#[derive(Debug, Clone, Copy)]
pub enum WorkflowResourceType {
    /// FILE type means the gateway will try to detect the resource type using the
    /// file extension of the name field
    File,
    /// extension 'bpmn'
    Bpmn,
    /// extension 'yaml'
    Yaml,
}

impl WorkflowResourceType {
    /// The protocol's number for the resource type.
    pub open spec fn spec_code(self) -> i32 {
        match self {
            WorkflowResourceType::File => 0,
            WorkflowResourceType::Bpmn => 1,
            WorkflowResourceType::Yaml => 2,
        }
    }

    /// The protocol's number for the resource type: `File` is 0, `Bpmn` 1,
    /// `Yaml` 2.
    pub fn code(&self) -> (r: i32)
        ensures
            r == self.spec_code(),
    {
        match self {
            WorkflowResourceType::File => 0,
            WorkflowResourceType::Bpmn => 1,
            WorkflowResourceType::Yaml => 2,
        }
    }
}

/// Deploys one or more workflows to Zeebe.
pub struct DeployWorkflowBuilder<'a> {
    pub client: &'a mut Client,
    pub resource_file: String,
    pub resource_type: WorkflowResourceType,
}

impl<'a> DeployWorkflowBuilder<'a> {
    /// Create a new deploy workflow builder.
    pub fn new<T: Into<String>>(client: &'a mut Client, resource_file: T) -> (r: Self)
        ensures
            call_ensures(T::into, (resource_file,), r.resource_file),
            r.resource_type == WorkflowResourceType::File,
    {
        DeployWorkflowBuilder { client, resource_file: resource_file.into(), resource_type: WorkflowResourceType::File }
    }

    /// Set the resource type for these workflows.
    pub fn with_resource_type(self, resource_type: WorkflowResourceType) -> (r: Self)
        ensures
            r.resource_file == self.resource_file,
            r.resource_type == resource_type,
    {
        DeployWorkflowBuilder { resource_type, ..self }
    }

    /// The deploy request for the resource file, given its content (read by
    /// the caller).
    pub fn request(&self, definition: Vec<u8>) -> (r: proto::DeployWorkflowRequest)
        ensures
            r.workflows@.len() == 1,
            r.workflows@[0].name@ == self.resource_file@,
            r.workflows@[0].resource_type == self.resource_type.spec_code(),
            r.workflows@[0].definition == definition,
    {
        let mut workflows: Vec<proto::WorkflowRequestObject> = Vec::new();
        workflows.push(proto::WorkflowRequestObject {
            name: self.resource_file.clone(),
            resource_type: self.resource_type.code(),
            definition,
        });
        proto::DeployWorkflowRequest { workflows }
    }
}

/// Deployed workflow data.
#[derive(Debug)]
pub struct DeployWorkflowResponse(pub proto::DeployWorkflowResponse);

/// Two workflow metadata records agree in every field.
pub open spec fn same_workflow_metadata(a: proto::WorkflowMetadata, b: proto::WorkflowMetadata) -> bool {
    &&& a.bpmn_process_id@ == b.bpmn_process_id@
    &&& a.version == b.version
    &&& a.workflow_key == b.workflow_key
    &&& a.resource_name@ == b.resource_name@
}

impl DeployWorkflowResponse {
    /// the unique key identifying the deployment
    pub fn key(&self) -> (r: i64)
        ensures
            r == self.0.key,
    {
        self.0.key
    }

    /// a list of deployed workflows
    pub fn workflows(&self) -> (r: Vec<WorkflowMetadata>)
        ensures
            r@.len() == self.0.workflows@.len(),
            forall|i: int| 0 <= i < r@.len() ==> same_workflow_metadata(#[trigger] r@[i].0, self.0.workflows@[i]),
    {
        let mut r: Vec<WorkflowMetadata> = Vec::new();
        let mut i: usize = 0;
        while i < self.0.workflows.len()
            invariant
                i <= self.0.workflows@.len(),
                r@.len() == i,
                forall|j: int| 0 <= j < i ==> same_workflow_metadata(#[trigger] r@[j].0, self.0.workflows@[j]),
            decreases self.0.workflows@.len() - i,
        {
            let w = &self.0.workflows[i];
            r.push(WorkflowMetadata(proto::WorkflowMetadata {
                bpmn_process_id: w.bpmn_process_id.clone(),
                version: w.version,
                workflow_key: w.workflow_key,
                resource_name: w.resource_name.clone(),
            }));
            i = i + 1;
        }
        r
    }
}

/// Metadata information about a workflow.
#[derive(Debug)]
pub struct WorkflowMetadata(pub proto::WorkflowMetadata);

impl WorkflowMetadata {
    /// the bpmn process ID, as parsed during deployment
    pub fn bpmn_process_id(&self) -> (r: &str)
        ensures
            r@ == self.0.bpmn_process_id@,
    {
        self.0.bpmn_process_id.as_str()
    }

    /// the assigned process version
    pub fn version(&self) -> (r: i32)
        ensures
            r == self.0.version,
    {
        self.0.version
    }

    /// the assigned key, which acts as a unique identifier for this workflow
    pub fn workflow_key(&self) -> (r: i64)
        ensures
            r == self.0.workflow_key,
    {
        self.0.workflow_key
    }

    /// the resource name from which this workflow was parsed
    pub fn resource_name(&self) -> (r: &str)
        ensures
            r@ == self.0.resource_name@,
    {
        self.0.resource_name.as_str()
    }
}

/// Whether `req` is the create request that the given settings describe.
pub open spec fn workflow_request_of(
    req: proto::CreateWorkflowInstanceRequest,
    workflow_key: Option<i64>,
    bpmn_process_id: Option<String>,
    version: i32,
    variables: Option<serde_json::Value>,
) -> bool {
    &&& req.workflow_key == (match workflow_key { Some(k) => k, None => 0i64 })
    &&& req.bpmn_process_id@ == text_or_empty(bpmn_process_id)
    &&& req.version == version
    &&& variables_text(variables, req.variables)
}

/// Creates and starts an instance of the specified workflow.
pub struct CreateWorkflowInstanceBuilder<'a> {
    pub client: &'a mut Client,
    /// the unique key identifying the workflow definition
    pub workflow_key: Option<i64>,
    /// the BPMN process ID of the workflow definition
    pub bpmn_process_id: Option<String>,
    /// the version of the process; set to -1 to use the latest version
    pub version: i32,
    /// JSON document that will instantiate the variables for the root variable
    /// scope of the workflow instance; it must be a JSON object.
    pub variables: Option<serde_json::Value>,
}

impl<'a> CreateWorkflowInstanceBuilder<'a> {
    /// Create a new workflow instance builder
    pub fn new(client: &'a mut Client) -> (r: Self)
        ensures
            r.workflow_key is None,
            r.bpmn_process_id is None,
            r.version == -1,
            r.variables is None,
    {
        CreateWorkflowInstanceBuilder { client, workflow_key: None, bpmn_process_id: None, version: -1, variables: None }
    }

    /// Set the workflow key for this workflow instance.
    pub fn with_workflow_key(self, workflow_key: i64) -> (r: Self)
        ensures
            r.workflow_key == Some(workflow_key),
            r.bpmn_process_id == self.bpmn_process_id,
            r.version == self.version,
            r.variables == self.variables,
    {
        CreateWorkflowInstanceBuilder { workflow_key: Some(workflow_key), ..self }
    }

    /// Set the BPMN process id for this workflow instance.
    pub fn with_bpmn_process_id<T: Into<String>>(self, bpmn_process_id: T) -> (r: Self)
        ensures
            r.workflow_key == self.workflow_key,
            r.bpmn_process_id matches Some(id) && call_ensures(T::into, (bpmn_process_id,), id),
            r.version == self.version,
            r.variables == self.variables,
    {
        CreateWorkflowInstanceBuilder { bpmn_process_id: Some(bpmn_process_id.into()), ..self }
    }

    /// Set the version for this workflow instance.
    pub fn with_version(self, version: i32) -> (r: Self)
        ensures
            r.workflow_key == self.workflow_key,
            r.bpmn_process_id == self.bpmn_process_id,
            r.version == version,
            r.variables == self.variables,
    {
        CreateWorkflowInstanceBuilder { version, ..self }
    }

    /// Use the latest workflow version for this workflow instance.
    pub fn with_latest_version(self) -> (r: Self)
        ensures
            r.workflow_key == self.workflow_key,
            r.bpmn_process_id == self.bpmn_process_id,
            r.version == -1,
            r.variables == self.variables,
    {
        CreateWorkflowInstanceBuilder { version: -1, ..self }
    }

    /// Set variables for this workflow instance.
    pub fn with_variables(self, variables: serde_json::Value) -> (r: Self)
        ensures
            r.workflow_key == self.workflow_key,
            r.bpmn_process_id == self.bpmn_process_id,
            r.version == self.version,
            r.variables == Some(variables),
    {
        CreateWorkflowInstanceBuilder { variables: Some(variables), ..self }
    }

    /// The create request this builder describes; an error when it names no
    /// workflow.
    pub fn request(&self) -> (r: Result<proto::CreateWorkflowInstanceRequest>)
        ensures
            self.workflow_key is None && self.bpmn_process_id is None
                ==> crate::error::is_invalid_parameters(r, MISSING_WORKFLOW),
            !(self.workflow_key is None && self.bpmn_process_id is None) ==> (r matches Ok(req)
                && workflow_request_of(req, self.workflow_key, self.bpmn_process_id, self.version, self.variables)),
    {
        workflow_instance_request(self.workflow_key, &self.bpmn_process_id, self.version, &self.variables)
    }
}

/// Copies an optional string.
fn copy_option_string(s: &Option<String>) -> (r: Option<String>)
    ensures
        text_or_empty(r) == text_or_empty(*s),
        r is Some <==> s is Some,
{
    match s {
        Some(t) => Some(t.clone()),
        None => None,
    }
}

/// The create request for a workflow instance; an error when no workflow is
/// named.
fn workflow_instance_request(
    workflow_key: Option<i64>,
    bpmn_process_id: &Option<String>,
    version: i32,
    variables: &Option<serde_json::Value>,
) -> (r: Result<proto::CreateWorkflowInstanceRequest>)
    ensures
        workflow_key is None && bpmn_process_id is None ==> crate::error::is_invalid_parameters(r, MISSING_WORKFLOW),
        !(workflow_key is None && bpmn_process_id is None) ==> (r matches Ok(req)
            && workflow_request_of(req, workflow_key, *bpmn_process_id, version, *variables)),
{
    if workflow_key.is_none() && bpmn_process_id.is_none() {
        return Err(ZeebeError::InvalidParameters(MISSING_WORKFLOW));
    }
    let key: i64 = match workflow_key {
        Some(k) => k,
        None => 0,
    };
    Ok(proto::CreateWorkflowInstanceRequest {
        workflow_key: key,
        bpmn_process_id: unwrap_or_empty(copy_option_string(bpmn_process_id)),
        version,
        variables: variables_to_text(variables),
    })
}

/// Created workflow instance data.
#[derive(Debug)]
pub struct CreateWorkflowInstanceResponse(pub proto::CreateWorkflowInstanceResponse);

impl CreateWorkflowInstanceResponse {
    /// the key of the workflow definition which was used to create the workflow
    /// instance
    pub fn workflow_key(&self) -> (r: i64)
        ensures
            r == self.0.workflow_key,
    {
        self.0.workflow_key
    }

    /// the BPMN process ID of the workflow definition which was used to create the
    /// workflow instance
    pub fn bpmn_process_id(&self) -> (r: &str)
        ensures
            r@ == self.0.bpmn_process_id@,
    {
        self.0.bpmn_process_id.as_str()
    }

    /// the version of the workflow definition which was used to create the workflow
    /// instance
    pub fn version(&self) -> (r: i32)
        ensures
            r == self.0.version,
    {
        self.0.version
    }

    /// the unique identifier of the created workflow instance
    pub fn workflow_instance_key(&self) -> (r: i64)
        ensures
            r == self.0.workflow_instance_key,
    {
        self.0.workflow_instance_key
    }
}

/// Creates and starts an instance of the specified workflow with result:
/// the response is returned when the workflow is completed.
pub struct CreateWorkflowInstanceWithResultBuilder<'a> {
    pub client: &'a mut Client,
    /// the unique key identifying the workflow definition
    pub workflow_key: Option<i64>,
    /// the BPMN process ID of the workflow definition
    pub bpmn_process_id: Option<String>,
    /// the version of the process; set to -1 to use the latest version
    pub version: i32,
    /// JSON document that will instantiate the variables for the root variable
    /// scope of the workflow instance; it must be a JSON object.
    pub variables: Option<serde_json::Value>,
    /// timeout (in ms). if 0, uses the generic requestTimeout configured in the gateway.
    pub request_timeout: u64,
    /// names of variables to be included in the response; if empty, all
    /// visible variables in the root scope will be returned.
    pub fetch_variables: Vec<String>,
}

impl<'a> CreateWorkflowInstanceWithResultBuilder<'a> {
    /// Create a new workflow instance builder
    pub fn new(client: &'a mut Client) -> (r: Self)
        ensures
            r.workflow_key is None,
            r.bpmn_process_id is None,
            r.version == -1,
            r.variables is None,
            r.request_timeout == 0,
            r.fetch_variables@.len() == 0,
    {
        CreateWorkflowInstanceWithResultBuilder {
            client,
            workflow_key: None,
            bpmn_process_id: None,
            version: -1,
            variables: None,
            request_timeout: 0,
            fetch_variables: Vec::new(),
        }
    }

    /// Set the workflow key for this workflow instance.
    pub fn with_workflow_key(self, workflow_key: i64) -> (r: Self)
        ensures
            r.workflow_key == Some(workflow_key),
            r.bpmn_process_id == self.bpmn_process_id,
            r.version == self.version,
            r.variables == self.variables,
            r.request_timeout == self.request_timeout,
            r.fetch_variables == self.fetch_variables,
    {
        CreateWorkflowInstanceWithResultBuilder { workflow_key: Some(workflow_key), ..self }
    }

    /// Set the BPMN process id for this workflow instance.
    pub fn with_bpmn_process_id<T: Into<String>>(self, bpmn_process_id: T) -> (r: Self)
        ensures
            r.workflow_key == self.workflow_key,
            r.bpmn_process_id matches Some(id) && call_ensures(T::into, (bpmn_process_id,), id),
            r.version == self.version,
            r.variables == self.variables,
            r.request_timeout == self.request_timeout,
            r.fetch_variables == self.fetch_variables,
    {
        CreateWorkflowInstanceWithResultBuilder { bpmn_process_id: Some(bpmn_process_id.into()), ..self }
    }

    /// Set the version for this workflow instance.
    pub fn with_version(self, version: i32) -> (r: Self)
        ensures
            r.workflow_key == self.workflow_key,
            r.bpmn_process_id == self.bpmn_process_id,
            r.version == version,
            r.variables == self.variables,
            r.request_timeout == self.request_timeout,
            r.fetch_variables == self.fetch_variables,
    {
        CreateWorkflowInstanceWithResultBuilder { version, ..self }
    }

    /// Use the latest workflow version for this workflow instance.
    pub fn with_latest_version(self) -> (r: Self)
        ensures
            r.workflow_key == self.workflow_key,
            r.bpmn_process_id == self.bpmn_process_id,
            r.version == -1,
            r.variables == self.variables,
            r.request_timeout == self.request_timeout,
            r.fetch_variables == self.fetch_variables,
    {
        CreateWorkflowInstanceWithResultBuilder { version: -1, ..self }
    }

    /// Set variables for this workflow instance.
    pub fn with_variables(self, variables: serde_json::Value) -> (r: Self)
        ensures
            r.workflow_key == self.workflow_key,
            r.bpmn_process_id == self.bpmn_process_id,
            r.version == self.version,
            r.variables == Some(variables),
            r.request_timeout == self.request_timeout,
            r.fetch_variables == self.fetch_variables,
    {
        CreateWorkflowInstanceWithResultBuilder { variables: Some(variables), ..self }
    }

    /// Set the names of the variables to fetch in the response.
    pub fn with_fetch_variables(self, fetch_variables: Vec<String>) -> (r: Self)
        ensures
            r.workflow_key == self.workflow_key,
            r.bpmn_process_id == self.bpmn_process_id,
            r.version == self.version,
            r.variables == self.variables,
            r.request_timeout == self.request_timeout,
            r.fetch_variables == fetch_variables,
    {
        CreateWorkflowInstanceWithResultBuilder { fetch_variables, ..self }
    }

    /// Set the result timeout for this workflow instance request.
    pub fn with_request_timeout(self, request_timeout: u64) -> (r: Self)
        ensures
            r.workflow_key == self.workflow_key,
            r.bpmn_process_id == self.bpmn_process_id,
            r.version == self.version,
            r.variables == self.variables,
            r.request_timeout == request_timeout,
            r.fetch_variables == self.fetch_variables,
    {
        CreateWorkflowInstanceWithResultBuilder { request_timeout, ..self }
    }

    /// The create-with-result request this builder describes; an error when
    /// it names no workflow.
    pub fn request(&self) -> (r: Result<proto::CreateWorkflowInstanceWithResultRequest>)
        ensures
            self.workflow_key is None && self.bpmn_process_id is None
                ==> crate::error::is_invalid_parameters(r, MISSING_WORKFLOW),
            !(self.workflow_key is None && self.bpmn_process_id is None) ==> (r matches Ok(req) && {
                &&& req.request matches Some(inner)
                    && workflow_request_of(inner, self.workflow_key, self.bpmn_process_id, self.version, self.variables)
                &&& req.request_timeout == self.request_timeout as i64
                &&& req.fetch_variables.deep_view() == self.fetch_variables.deep_view()
            }),
    {
        let inner = match workflow_instance_request(self.workflow_key, &self.bpmn_process_id, self.version, &self.variables) {
            Ok(inner) => inner,
            Err(e) => return Err(e),
        };
        Ok(proto::CreateWorkflowInstanceWithResultRequest {
            request: Some(inner),
            request_timeout: self.request_timeout as i64,
            fetch_variables: crate::text::copy_strings(&self.fetch_variables),
        })
    }
}

/// Created workflow instance with result data.
#[derive(Debug)]
pub struct CreateWorkflowInstanceWithResultResponse(pub proto::CreateWorkflowInstanceWithResultResponse);

impl CreateWorkflowInstanceWithResultResponse {
    /// the key of the workflow definition which was used to create the workflow
    /// instance
    pub fn workflow_key(&self) -> (r: i64)
        ensures
            r == self.0.workflow_key,
    {
        self.0.workflow_key
    }

    /// the BPMN process ID of the workflow definition which was used to create the
    /// workflow instance
    pub fn bpmn_process_id(&self) -> (r: &str)
        ensures
            r@ == self.0.bpmn_process_id@,
    {
        self.0.bpmn_process_id.as_str()
    }

    /// the version of the workflow definition which was used to create the workflow
    /// instance
    pub fn version(&self) -> (r: i32)
        ensures
            r == self.0.version,
    {
        self.0.version
    }

    /// the unique identifier of the created workflow instance
    pub fn workflow_instance_key(&self) -> (r: i64)
        ensures
            r == self.0.workflow_instance_key,
    {
        self.0.workflow_instance_key
    }

    /// JSON document consists of visible variables in the root scope
    pub fn variables(&self) -> (r: &str)
        ensures
            r@ == self.0.variables@,
    {
        self.0.variables.as_str()
    }
}

/// Cancels a running workflow instance.
pub struct CancelWorkflowInstanceBuilder<'a> {
    pub client: &'a mut Client,
    /// the unique key identifying the workflow instance
    pub workflow_key: Option<i64>,
}

impl<'a> CancelWorkflowInstanceBuilder<'a> {
    /// Create a new cancel workflow instance builder
    pub fn new(client: &'a mut Client) -> (r: Self)
        ensures
            r.workflow_key is None,
    {
        CancelWorkflowInstanceBuilder { client, workflow_key: None }
    }

    /// Set the workflow key for this instance.
    pub fn with_workflow_key(self, workflow_key: i64) -> (r: Self)
        ensures
            r.workflow_key == Some(workflow_key),
    {
        CancelWorkflowInstanceBuilder { workflow_key: Some(workflow_key), ..self }
    }

    /// The cancel request this builder describes; an error when no instance
    /// is named.
    pub fn request(&self) -> (r: Result<proto::CancelWorkflowInstanceRequest>)
        ensures
            match self.workflow_key {
                None => crate::error::is_invalid_parameters(r, "`workflow_key` must be set"),
                Some(k) => r matches Ok(req) && req.workflow_instance_key == k,
            },
    {
        match self.workflow_key {
            Some(k) => Ok(proto::CancelWorkflowInstanceRequest { workflow_instance_key: k }),
            None => Err(ZeebeError::InvalidParameters("`workflow_key` must be set")),
        }
    }
}

/// Canceled workflow instance data.
#[derive(Debug)]
pub struct CancelWorkflowInstanceResponse(pub proto::CancelWorkflowInstanceResponse);

/// Updates all the variables of a particular scope (e.g. workflow instance, flow
/// element instance) from the given JSON document.
pub struct SetVariablesBuilder<'a> {
    pub client: &'a mut Client,
    pub element_instance_key: Option<i64>,
    pub variables: Option<serde_json::Value>,
    pub local: bool,
}

impl<'a> SetVariablesBuilder<'a> {
    /// Create a new set variables builder
    pub fn new(client: &'a mut Client) -> (r: Self)
        ensures
            r.element_instance_key is None,
            r.variables is None,
            !r.local,
    {
        SetVariablesBuilder { client, element_instance_key: None, variables: None, local: false }
    }

    /// Set the unique identifier of this element.
    pub fn with_element_instance_key(self, element_instance_key: i64) -> (r: Self)
        ensures
            r.element_instance_key == Some(element_instance_key),
            r.variables == self.variables,
            r.local == self.local,
    {
        SetVariablesBuilder { element_instance_key: Some(element_instance_key), ..self }
    }

    /// Set variables for this element; the root of the document must be a
    /// JSON object.
    pub fn with_variables(self, variables: serde_json::Value) -> (r: Self)
        ensures
            r.element_instance_key == self.element_instance_key,
            r.variables == Some(variables),
            r.local == self.local,
    {
        SetVariablesBuilder { variables: Some(variables), ..self }
    }

    /// Set local scope for this request.
    pub fn with_local(self, local: bool) -> (r: Self)
        ensures
            r.element_instance_key == self.element_instance_key,
            r.variables == self.variables,
            r.local == local,
    {
        SetVariablesBuilder { local, ..self }
    }

    /// The set variables request this builder describes; an error when no
    /// element is named.
    pub fn request(&self) -> (r: Result<proto::SetVariablesRequest>)
        ensures
            match self.element_instance_key {
                None => crate::error::is_invalid_parameters(r, "`element_instance_key` must be set"),
                Some(k) => r matches Ok(req) && {
                    &&& req.element_instance_key == k
                    &&& variables_text(self.variables, req.variables)
                    &&& req.local == self.local
                    &&& req.operation_reference is None
                },
            },
    {
        match self.element_instance_key {
            Some(k) => Ok(proto::SetVariablesRequest {
                element_instance_key: k,
                variables: variables_to_text(&self.variables),
                local: self.local,
                operation_reference: None,
            }),
            None => Err(ZeebeError::InvalidParameters("`element_instance_key` must be set")),
        }
    }
}

/// Set variables data.
#[derive(Debug)]
pub struct SetVariablesResponse(pub proto::SetVariablesResponse);

impl SetVariablesResponse {
    /// The unique key of the set variables command.
    pub fn key(&self) -> (r: i64)
        ensures
            r == self.0.key,
    {
        self.0.key
    }
}

} // verus!
