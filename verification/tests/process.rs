use zeebe::client::Client;
use zeebe::oauth::AuthInterceptor;
use zeebe::process::{DeployProcessResponse, MISSING_PROCESS};
use zeebe::proto::{DeployProcessResponse as DeployProto, ProcessMetadata};
use zeebe::ZeebeError;

fn client(rt: &tokio::runtime::Runtime) -> Client {
    let _guard = rt.enter();
    let channel = tonic::transport::Channel::balance_list(
        Client::build_endpoints(vec!["http://127.0.0.1:26500".to_string()], None).unwrap().into_iter(),
    );
    Client::from_channel(channel, AuthInterceptor::default())
}

fn runtime() -> tokio::runtime::Runtime {
    tokio::runtime::Runtime::new().unwrap()
}

fn json(text: &str) -> serde_json::Value {
    serde_json::from_str(text).unwrap()
}

fn is_invalid(e: &ZeebeError, msg: &str) -> bool {
    matches!(e, ZeebeError::InvalidParameters(m) if *m == msg)
}

#[test]
fn create_instance_needs_a_process() {
    let rt = runtime();
    let err = client(&rt).create_process_instance().into_request().unwrap_err();
    assert!(is_invalid(&err, MISSING_PROCESS));
    assert_eq!(MISSING_PROCESS, "`process_definition_key` or `pbmn_process_id` must be set");
    let err = client(&rt).create_process_instance_with_result().with_version(2).into_request().unwrap_err();
    assert!(is_invalid(&err, MISSING_PROCESS));
}

#[test]
fn create_instance_by_bpmn_id_uses_latest_version() {
    let rt = runtime();
    let req = client(&rt)
        .create_process_instance()
        .with_bpmn_process_id("order-process")
        .with_latest_version()
        .with_variables(json("{\"orderId\":1234}"))
        .into_request()
        .unwrap();
    assert_eq!(req.bpmn_process_id, "order-process");
    assert_eq!(req.process_definition_key, 0);
    assert_eq!(req.version, -1);
    assert_eq!(req.variables, "{\"orderId\":1234}");
    assert!(req.start_instructions.is_empty());
    assert_eq!(req.tenant_id, "");
    assert_eq!(req.operation_reference, None);
}

#[test]
fn create_instance_keeps_start_instruction_order() {
    let rt = runtime();
    let req = client(&rt)
        .create_process_instance()
        .with_process_definition_key(2251799813687287)
        .with_version(4)
        .with_start_instructions(vec!["a".to_string(), "b".to_string(), "c".to_string()])
        .with_tenant_id("tenant")
        .with_operation_reference(5)
        .into_request()
        .unwrap();
    assert_eq!(req.process_definition_key, 2251799813687287);
    assert_eq!(req.bpmn_process_id, "");
    assert_eq!(req.version, 4);
    let ids: Vec<&str> = req.start_instructions.iter().map(|s| s.element_id.as_str()).collect();
    assert_eq!(ids, vec!["a", "b", "c"]);
    assert_eq!(req.tenant_id, "tenant");
    assert_eq!(req.operation_reference, Some(5));
}

#[test]
fn create_instance_with_result_wraps_the_create_request() {
    let rt = runtime();
    let req = client(&rt)
        .create_process_instance_with_result()
        .with_bpmn_process_id("example-process")
        .with_fetch_variables(vec!["x".to_string()])
        .with_request_timeout(u64::MAX)
        .into_request()
        .unwrap();
    let inner = req.request.unwrap();
    assert_eq!(inner.bpmn_process_id, "example-process");
    assert_eq!(inner.version, -1);
    assert_eq!(req.request_timeout, -1);
    assert_eq!(req.fetch_variables, vec!["x".to_string()]);
}

#[test]
fn cancel_instance_needs_key() {
    let rt = runtime();
    let err = client(&rt).cancel_process_instance().into_request().unwrap_err();
    assert!(is_invalid(&err, "`process_instance_key` must be set"));
    let req = client(&rt).cancel_process_instance().with_process_instance_key(8).into_request().unwrap();
    assert_eq!(req.process_instance_key, 8);
    assert_eq!(req.operation_reference, None);
}

#[test]
fn set_variables_needs_element() {
    let rt = runtime();
    let err = client(&rt).set_variables().with_local(true).into_request().unwrap_err();
    assert!(is_invalid(&err, "`element_instance_key` must be set"));
    let req = client(&rt)
        .set_variables()
        .with_element_instance_key(2)
        .with_variables(json("{\"myNewKey\":\"myValue\"}"))
        .with_local(true)
        .with_operation_reference(3)
        .into_request()
        .unwrap();
    assert_eq!(req.element_instance_key, 2);
    assert_eq!(req.variables, "{\"myNewKey\":\"myValue\"}");
    assert!(req.local);
    assert_eq!(req.operation_reference, Some(3));
}

#[test]
fn deploy_process_names_each_process_by_its_file() {
    let rt = runtime();
    let b = client(&rt).deploy_process().with_resource_files(vec!["a.bpmn".to_string(), "b.bpmn".to_string()]);
    let req = b.request(&vec![vec![1u8, 2], vec![3u8]]);
    assert_eq!(req.processes.len(), 2);
    assert_eq!(req.processes[0].name, "a.bpmn");
    assert_eq!(req.processes[0].definition, vec![1u8, 2]);
    assert_eq!(req.processes[1].name, "b.bpmn");
    assert_eq!(req.processes[1].definition, vec![3u8]);
    let single = client(&rt).deploy_process().with_resource_file("path/to/process.bpmn");
    assert_eq!(single.resource_files, vec!["path/to/process.bpmn".to_string()]);
}

#[test]
fn deploy_process_response_lists_metadata() {
    let resp = DeployProcessResponse(DeployProto {
        key: 10,
        processes: vec![ProcessMetadata {
            bpmn_process_id: "p".to_string(),
            version: 2,
            process_definition_key: 3,
            resource_name: "p.bpmn".to_string(),
            tenant_id: "<default>".to_string(),
        }],
    });
    assert_eq!(resp.key(), 10);
    let ps = resp.processes();
    assert_eq!(ps.len(), 1);
    assert_eq!(ps[0].bpmn_process_id(), "p");
    assert_eq!(ps[0].version(), 2);
    assert_eq!(ps[0].process_definition_key(), 3);
    assert_eq!(ps[0].resource_name(), "p.bpmn");
}

#[test]
fn deploy_and_delete_resource_requests() {
    let rt = runtime();
    let req = client(&rt).deploy_resource().with_resource_name("my-name").with_content(vec![1u8, 2, 3]).into_request();
    assert_eq!(req.tenant_id, "");
    assert_eq!(req.resources.len(), 1);
    assert_eq!(req.resources[0].name, "my-name");
    assert_eq!(req.resources[0].content, vec![1u8, 2, 3]);
    let req = client(&rt).delete_resource().into_request();
    assert_eq!(req.resource_key, 0);
    let req = client(&rt).delete_resource().with_resource_key(123).with_operation_reference(4).into_request();
    assert_eq!(req.resource_key, 123);
    assert_eq!(req.operation_reference, Some(4));
}

#[test]
fn publish_message_needs_name() {
    let rt = runtime();
    let err = client(&rt).publish_message().with_correlation_key("k").into_request().unwrap_err();
    assert!(is_invalid(&err, "`name` must be set"));
    let req = client(&rt)
        .publish_message()
        .with_name("myEvent")
        .with_variables(json("{\"someKey\":\"someValue\"}"))
        .with_time_to_live(1000)
        .into_request()
        .unwrap();
    assert_eq!(req.name, "myEvent");
    assert_eq!(req.correlation_key, "");
    assert_eq!(req.time_to_live, 1000);
    assert_eq!(req.message_id, "");
    assert_eq!(req.variables, "{\"someKey\":\"someValue\"}");
}

#[test]
fn resolve_incident_needs_key() {
    let rt = runtime();
    let err = client(&rt).resolve_incident().into_request().unwrap_err();
    assert!(is_invalid(&err, "`incident_key` must be set"));
    let req = client(&rt).resolve_incident().with_incident_key(2251799813687287).into_request().unwrap();
    assert_eq!(req.incident_key, 2251799813687287);
}
