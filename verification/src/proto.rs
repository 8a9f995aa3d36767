//! The messages of the gateway protocol, as plain data.
//!
//! Each request message is what a builder of this crate assembles and what
//! the transport layer encodes; each response message is what the transport
//! layer decodes and a response type of this crate wraps.
use vstd::prelude::*;

verus! {

/// A job activated for a worker.
#[derive(Clone, Debug)]
pub struct ActivatedJob {
    pub key: i64,
    pub job_type: String,
    pub process_instance_key: i64,
    pub bpmn_process_id: String,
    pub process_definition_version: i32,
    pub process_definition_key: i64,
    pub element_id: String,
    pub element_instance_key: i64,
    pub custom_headers: String,
    pub worker: String,
    pub retries: i32,
    pub deadline: i64,
    pub variables: String,
    pub tenant_id: String,
}

#[derive(Clone, Debug)]
pub struct ActivateJobsRequest {
    pub job_type: String,
    pub worker: String,
    pub timeout: i64,
    pub max_jobs_to_activate: i32,
    pub fetch_variable: Vec<String>,
    pub request_timeout: i64,
    pub tenant_ids: Vec<String>,
}

#[derive(Clone, Debug)]
pub struct ActivateJobsResponse {
    pub jobs: Vec<ActivatedJob>,
}

#[derive(Clone, Debug)]
pub struct CompleteJobRequest {
    pub job_key: i64,
    pub variables: String,
}

#[derive(Clone, Debug)]
pub struct CompleteJobResponse {}

#[derive(Clone, Debug)]
pub struct FailJobRequest {
    pub job_key: i64,
    pub retries: i32,
    pub error_message: String,
    pub retry_back_off: i64,
    pub variables: String,
}

#[derive(Clone, Debug)]
pub struct FailJobResponse {}

#[derive(Clone, Debug)]
pub struct ThrowErrorRequest {
    pub job_key: i64,
    pub error_code: String,
    pub error_message: String,
    pub variables: String,
}

#[derive(Clone, Debug)]
pub struct ThrowErrorResponse {}

#[derive(Clone, Debug)]
pub struct UpdateJobRetriesRequest {
    pub job_key: i64,
    pub retries: i32,
    pub operation_reference: Option<u64>,
}

#[derive(Clone, Debug)]
pub struct UpdateJobRetriesResponse {}

#[derive(Clone, Debug)]
pub struct ProcessRequestObject {
    pub name: String,
    pub definition: Vec<u8>,
}

#[derive(Clone, Debug)]
pub struct DeployProcessRequest {
    pub processes: Vec<ProcessRequestObject>,
}

#[derive(Clone, Debug)]
pub struct ProcessMetadata {
    pub bpmn_process_id: String,
    pub version: i32,
    pub process_definition_key: i64,
    pub resource_name: String,
    pub tenant_id: String,
}

#[derive(Clone, Debug)]
pub struct DeployProcessResponse {
    pub key: i64,
    pub processes: Vec<ProcessMetadata>,
}

#[derive(Clone, Debug)]
pub struct ProcessInstanceCreationStartInstruction {
    pub element_id: String,
}

#[derive(Clone, Debug)]
pub struct CreateProcessInstanceRequest {
    pub process_definition_key: i64,
    pub bpmn_process_id: String,
    pub version: i32,
    pub variables: String,
    pub start_instructions: Vec<ProcessInstanceCreationStartInstruction>,
    pub tenant_id: String,
    pub operation_reference: Option<u64>,
}

#[derive(Clone, Debug)]
pub struct CreateProcessInstanceResponse {
    pub process_definition_key: i64,
    pub bpmn_process_id: String,
    pub version: i32,
    pub process_instance_key: i64,
}

#[derive(Clone, Debug)]
pub struct CreateProcessInstanceWithResultRequest {
    pub request: Option<CreateProcessInstanceRequest>,
    pub request_timeout: i64,
    pub fetch_variables: Vec<String>,
}

#[derive(Clone, Debug)]
pub struct CreateProcessInstanceWithResultResponse {
    pub process_definition_key: i64,
    pub bpmn_process_id: String,
    pub version: i32,
    pub process_instance_key: i64,
    pub variables: String,
}

#[derive(Clone, Debug)]
pub struct CancelProcessInstanceRequest {
    pub process_instance_key: i64,
    pub operation_reference: Option<u64>,
}

#[derive(Clone, Debug)]
pub struct CancelProcessInstanceResponse {}

#[derive(Clone, Debug)]
pub struct SetVariablesRequest {
    pub element_instance_key: i64,
    pub variables: String,
    pub local: bool,
    pub operation_reference: Option<u64>,
}

#[derive(Clone, Debug)]
pub struct SetVariablesResponse {
    pub key: i64,
}

#[derive(Clone, Debug)]
pub struct Resource {
    pub name: String,
    pub content: Vec<u8>,
}

#[derive(Clone, Debug)]
pub struct DeployResourceRequest {
    pub resources: Vec<Resource>,
    pub tenant_id: String,
}

#[derive(Clone, Debug)]
pub struct DecisionMetadata {
    pub dmn_decision_id: String,
    pub dmn_decision_name: String,
    pub version: i32,
    pub decision_key: i64,
    pub dmn_decision_requirements_id: String,
    pub decision_requirements_key: i64,
    pub tenant_id: String,
}

#[derive(Clone, Debug)]
pub struct DecisionRequirementsMetadata {
    pub dmn_decision_requirements_id: String,
    pub dmn_decision_requirements_name: String,
    pub version: i32,
    pub decision_requirements_key: i64,
    pub resource_name: String,
    pub tenant_id: String,
}

#[derive(Clone, Debug)]
pub struct FormMetadata {
    pub form_id: String,
    pub version: i32,
    pub form_key: i64,
    pub resource_name: String,
    pub tenant_id: String,
}

/// What one deployed resource was: a process, a decision, a decision
/// requirements graph or a form.
#[derive(Clone, Debug)]
pub enum DeploymentMetadata {
    Process(ProcessMetadata),
    Decision(DecisionMetadata),
    DecisionRequirements(DecisionRequirementsMetadata),
    Form(FormMetadata),
}

#[derive(Clone, Debug)]
pub struct Deployment {
    pub metadata: Option<DeploymentMetadata>,
}

#[derive(Clone, Debug)]
pub struct DeployResourceResponse {
    pub key: i64,
    pub deployments: Vec<Deployment>,
    pub tenant_id: String,
}

#[derive(Clone, Debug)]
pub struct DeleteResourceRequest {
    pub resource_key: i64,
    pub operation_reference: Option<u64>,
}

#[derive(Clone, Debug)]
pub struct DeleteResourceResponse {}

#[derive(Clone, Debug)]
pub struct TopologyRequest {}

#[derive(Clone, Copy, Debug)]
pub struct Partition {
    pub partition_id: i32,
    pub role: i32,
    pub health: i32,
}

#[derive(Clone, Debug)]
pub struct BrokerInfo {
    pub node_id: i32,
    pub host: String,
    pub port: i32,
    pub partitions: Vec<Partition>,
    pub version: String,
}

#[derive(Clone, Debug)]
pub struct TopologyResponse {
    pub brokers: Vec<BrokerInfo>,
    pub cluster_size: i32,
    pub partitions_count: i32,
    pub replication_factor: i32,
    pub gateway_version: String,
}

#[derive(Clone, Debug)]
pub struct PublishMessageRequest {
    pub name: String,
    pub correlation_key: String,
    pub time_to_live: i64,
    pub message_id: String,
    pub variables: String,
    pub tenant_id: String,
}

#[derive(Clone, Debug)]
pub struct PublishMessageResponse {
    pub key: i64,
}

#[derive(Clone, Debug)]
pub struct ResolveIncidentRequest {
    pub incident_key: i64,
    pub operation_reference: Option<u64>,
}

#[derive(Clone, Debug)]
pub struct ResolveIncidentResponse {}

#[derive(Clone, Debug)]
pub struct WorkflowRequestObject {
    pub name: String,
    pub resource_type: i32,
    pub definition: Vec<u8>,
}

#[derive(Clone, Debug)]
pub struct DeployWorkflowRequest {
    pub workflows: Vec<WorkflowRequestObject>,
}

#[derive(Clone, Debug)]
pub struct WorkflowMetadata {
    pub bpmn_process_id: String,
    pub version: i32,
    pub workflow_key: i64,
    pub resource_name: String,
}

#[derive(Clone, Debug)]
pub struct DeployWorkflowResponse {
    pub key: i64,
    pub workflows: Vec<WorkflowMetadata>,
}

#[derive(Clone, Debug)]
pub struct CreateWorkflowInstanceRequest {
    pub workflow_key: i64,
    pub bpmn_process_id: String,
    pub version: i32,
    pub variables: String,
}

#[derive(Clone, Debug)]
pub struct CreateWorkflowInstanceResponse {
    pub workflow_key: i64,
    pub bpmn_process_id: String,
    pub version: i32,
    pub workflow_instance_key: i64,
}

#[derive(Clone, Debug)]
pub struct CreateWorkflowInstanceWithResultRequest {
    pub request: Option<CreateWorkflowInstanceRequest>,
    pub request_timeout: i64,
    pub fetch_variables: Vec<String>,
}

#[derive(Clone, Debug)]
pub struct CreateWorkflowInstanceWithResultResponse {
    pub workflow_key: i64,
    pub bpmn_process_id: String,
    pub version: i32,
    pub workflow_instance_key: i64,
    pub variables: String,
}

#[derive(Clone, Debug)]
pub struct CancelWorkflowInstanceRequest {
    pub workflow_instance_key: i64,
}

#[derive(Clone, Debug)]
pub struct CancelWorkflowInstanceResponse {}

} // verus!
