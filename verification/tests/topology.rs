use zeebe::client::Client;
use zeebe::oauth::AuthInterceptor;
use zeebe::proto;
use zeebe::workflow::{
    CancelWorkflowInstanceBuilder, CreateWorkflowInstanceBuilder, CreateWorkflowInstanceWithResultBuilder,
    DeployWorkflowBuilder, SetVariablesBuilder, MISSING_WORKFLOW,
};
use zeebe::ZeebeError;
use zeebe::topology::TopologyResponse;
use zeebe::workflow::{CreateWorkflowInstanceWithResultResponse, DeployWorkflowResponse, WorkflowResourceType};

#[test]
fn topology_getters() {
    let resp = TopologyResponse(proto::TopologyResponse {
        brokers: vec![proto::BrokerInfo {
            node_id: 1,
            host: "broker-0".to_string(),
            port: 26501,
            partitions: vec![proto::Partition { partition_id: 1, role: 0, health: 0 }],
            version: "8.5.0".to_string(),
        }],
        cluster_size: 3,
        partitions_count: -1,
        replication_factor: 2,
        gateway_version: "8.5.0".to_string(),
    });
    assert_eq!(resp.cluster_size(), 3);
    assert_eq!(resp.partitions_count(), u32::MAX);
    assert_eq!(resp.replication_factor(), 2);
    assert_eq!(resp.gateway_version(), "8.5.0");
    let brokers = resp.brokers();
    assert_eq!(brokers.len(), 1);
    assert_eq!(brokers[0].node_id(), 1);
    assert_eq!(brokers[0].host(), "broker-0");
    assert_eq!(brokers[0].port(), 26501);
    assert_eq!(brokers[0].version(), "8.5.0");
    let parts = brokers[0].partitions();
    assert_eq!(parts.len(), 1);
    assert_eq!(parts[0].partition_id(), 1);
    assert_eq!(parts[0].role(), 0);
    assert_eq!(parts[0].health(), 0);
}

#[test]
fn workflow_responses_and_resource_types() {
    assert_eq!(WorkflowResourceType::File.code(), 0);
    assert_eq!(WorkflowResourceType::Bpmn.code(), 1);
    assert_eq!(WorkflowResourceType::Yaml.code(), 2);
    let resp = DeployWorkflowResponse(proto::DeployWorkflowResponse {
        key: 5,
        workflows: vec![proto::WorkflowMetadata {
            bpmn_process_id: "order-process".to_string(),
            version: 1,
            workflow_key: 6,
            resource_name: "order-process.bpmn".to_string(),
        }],
    });
    assert_eq!(resp.key(), 5);
    let ws = resp.workflows();
    assert_eq!(ws[0].bpmn_process_id(), "order-process");
    assert_eq!(ws[0].version(), 1);
    assert_eq!(ws[0].workflow_key(), 6);
    assert_eq!(ws[0].resource_name(), "order-process.bpmn");
    let r = CreateWorkflowInstanceWithResultResponse(proto::CreateWorkflowInstanceWithResultResponse {
        workflow_key: 1,
        bpmn_process_id: "p".to_string(),
        version: 2,
        workflow_instance_key: 3,
        variables: "{}".to_string(),
    });
    assert_eq!(r.workflow_key(), 1);
    assert_eq!(r.bpmn_process_id(), "p");
    assert_eq!(r.version(), 2);
    assert_eq!(r.workflow_instance_key(), 3);
    assert_eq!(r.variables(), "{}");
}

#[test]
fn workflow_requests() {
    let rt = tokio::runtime::Runtime::new().unwrap();
    let _guard = rt.enter();
    let channel = tonic::transport::Channel::balance_list(
        Client::build_endpoints(vec!["http://127.0.0.1:26500".to_string()], None).unwrap().into_iter(),
    );
    let mut client = Client::from_channel(channel, AuthInterceptor::default());

    let req = DeployWorkflowBuilder::new(&mut client, "order-process.bpmn")
        .with_resource_type(WorkflowResourceType::Bpmn)
        .request(vec![7u8]);
    assert_eq!(req.workflows.len(), 1);
    assert_eq!(req.workflows[0].name, "order-process.bpmn");
    assert_eq!(req.workflows[0].resource_type, 1);
    assert_eq!(req.workflows[0].definition, vec![7u8]);

    let err = CreateWorkflowInstanceBuilder::new(&mut client).request().err().unwrap();
    assert!(matches!(err, ZeebeError::InvalidParameters(m) if m == MISSING_WORKFLOW));
    let req = CreateWorkflowInstanceBuilder::new(&mut client)
        .with_bpmn_process_id("order-process")
        .with_latest_version()
        .with_variables(serde_json::from_str("{\"orderId\":\"31243\"}").unwrap())
        .request()
        .unwrap();
    assert_eq!(req.workflow_key, 0);
    assert_eq!(req.bpmn_process_id, "order-process");
    assert_eq!(req.version, -1);
    assert_eq!(req.variables, "{\"orderId\":\"31243\"}");

    let req = CreateWorkflowInstanceWithResultBuilder::new(&mut client)
        .with_workflow_key(4)
        .with_fetch_variables(vec!["a".to_string()])
        .with_request_timeout(30)
        .request()
        .unwrap();
    assert_eq!(req.request.unwrap().workflow_key, 4);
    assert_eq!(req.request_timeout, 30);
    assert_eq!(req.fetch_variables, vec!["a".to_string()]);

    let err = CancelWorkflowInstanceBuilder::new(&mut client).request().err().unwrap();
    assert!(matches!(err, ZeebeError::InvalidParameters(m) if m == "`workflow_key` must be set"));
    assert_eq!(CancelWorkflowInstanceBuilder::new(&mut client).with_workflow_key(3).request().unwrap().workflow_instance_key, 3);

    let req = SetVariablesBuilder::new(&mut client)
        .with_element_instance_key(9)
        .with_variables(serde_json::from_str("{\"foo\":5}").unwrap())
        .with_local(true)
        .request()
        .unwrap();
    assert_eq!(req.element_instance_key, 9);
    assert_eq!(req.variables, "{\"foo\":5}");
    assert!(req.local);
    assert_eq!(req.operation_reference, None);
}
