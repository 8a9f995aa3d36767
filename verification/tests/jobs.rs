use zeebe::client::Client;
use zeebe::job::Job;
use zeebe::oauth::AuthInterceptor;
use zeebe::proto::ActivatedJob;
use zeebe::ZeebeError;

fn client(rt: &tokio::runtime::Runtime) -> Client {
    let _guard = rt.enter();
    let channel = tonic::transport::Channel::balance_list(
        Client::build_endpoints(vec!["http://127.0.0.1:26500".to_string()], None).unwrap().into_iter(),
    );
    Client::from_channel(channel, AuthInterceptor::default())
}

fn runtime() -> tokio::runtime::Runtime {
    tokio::runtime::Runtime::new().unwrap()
}

fn json(text: &str) -> serde_json::Value {
    serde_json::from_str(text).unwrap()
}

fn activated(key: i64, variables: &str) -> ActivatedJob {
    ActivatedJob {
        key,
        job_type: "payment-service".to_string(),
        process_instance_key: 11,
        bpmn_process_id: "order-process".to_string(),
        process_definition_version: 3,
        process_definition_key: 12,
        element_id: "task".to_string(),
        element_instance_key: 13,
        custom_headers: "{}".to_string(),
        worker: "w1".to_string(),
        retries: 2,
        deadline: 99,
        variables: variables.to_string(),
        tenant_id: String::new(),
    }
}

fn is_invalid(e: &ZeebeError, msg: &str) -> bool {
    matches!(e, ZeebeError::InvalidParameters(m) if *m == msg)
}

#[test]
fn job_getters_read_the_activated_job() {
    let job = Job::new(activated(42, "{\"orderId\":1234}"));
    assert_eq!(job.key(), 42);
    assert_eq!(job.job_type(), "payment-service");
    assert_eq!(job.process_instance_key(), 11);
    assert_eq!(job.bpmn_process_id(), "order-process");
    assert_eq!(job.process_definition_version(), 3);
    assert_eq!(job.process_definition_key(), 12);
    assert_eq!(job.element_id(), "task");
    assert_eq!(job.element_instance_key(), 13);
    assert_eq!(job.custom_headers(), "{}");
    assert_eq!(job.worker(), "w1");
    assert_eq!(job.retries(), 2);
    assert_eq!(job.deadline(), 99);
    assert_eq!(job.variables_str(), "{\"orderId\":1234}");
}

#[test]
fn job_variables_parse_or_fall_back_to_empty_object() {
    let job = Job::new(activated(1, "{\"orderId\":1234}"));
    assert_eq!(job.variables(), json("{\"orderId\":1234}"));
    let broken = Job::new(activated(1, "{not json"));
    assert_eq!(broken.variables(), json("{}"));
    let typed: Option<std::collections::HashMap<String, i64>> = job.variables_as();
    assert_eq!(typed.unwrap().get("orderId"), Some(&1234));
    let none: Option<std::collections::HashMap<String, i64>> = broken.variables_as();
    assert!(none.is_none());
}

#[test]
fn complete_job_needs_a_job() {
    let rt = runtime();
    let err = client(&rt).complete_job().into_request().unwrap_err();
    assert!(is_invalid(&err, "`job_key` must be set"));
}

#[test]
fn complete_job_uses_explicit_key_and_serializes_variables() {
    let rt = runtime();
    let req = client(&rt)
        .complete_job()
        .with_job_key(7)
        .with_variables(json("{\"a\":1}"))
        .into_request()
        .unwrap();
    assert_eq!(req.job_key, 7);
    assert_eq!(req.variables, "{\"a\":1}");
}

#[test]
fn current_job_stands_in_for_unset_key() {
    let rt = runtime();
    let c = client(&rt).with_current_job_key(99);
    let req = c.complete_job().into_request().unwrap();
    assert_eq!(req.job_key, 99);
    assert_eq!(req.variables, "");
    let req = c.complete_job().with_job_key(5).into_request().unwrap();
    assert_eq!(req.job_key, 5);
}

#[test]
fn job_key_resolution_law_holds_on_examples() {
    let rt = runtime();
    let c = client(&rt).with_current_job_key(2);
    assert_eq!(c.fail_job().with_job_key(1).into_request().unwrap().job_key, 1);
    assert_eq!(c.throw_error().into_request().unwrap().job_key, 2);
}

#[test]
fn fail_job_defaults_and_fields() {
    let rt = runtime();
    let c = client(&rt);
    let req = c.fail_job().with_job_key(3).into_request().unwrap();
    assert_eq!(req.retries, 0);
    assert_eq!(req.retry_back_off, 0);
    assert_eq!(req.error_message, "");
    assert_eq!(req.variables, "");
    let req = c
        .fail_job()
        .with_job_key(3)
        .with_retries(2)
        .with_retry_back_off(500)
        .with_error_message("something went wrong.")
        .with_variables(json("{\"b\":true}"))
        .into_request()
        .unwrap();
    assert_eq!(req.retries, 2);
    assert_eq!(req.retry_back_off, 500);
    assert_eq!(req.error_message, "something went wrong.");
    assert_eq!(req.variables, "{\"b\":true}");
}

#[test]
fn fail_job_retries_wrap_as_i32() {
    let rt = runtime();
    let req = client(&rt).fail_job().with_job_key(1).with_retries(u32::MAX).into_request().unwrap();
    assert_eq!(req.retries, -1);
}

#[test]
fn fail_job_needs_a_job() {
    let rt = runtime();
    let err = client(&rt).fail_job().with_retries(1).into_request().unwrap_err();
    assert!(is_invalid(&err, "`job_key` must be set"));
}

#[test]
fn throw_error_fields() {
    let rt = runtime();
    let req = client(&rt)
        .throw_error()
        .with_job_key(9)
        .with_error_message("something went wrong")
        .with_error_code("E2505")
        .into_request()
        .unwrap();
    assert_eq!(req.job_key, 9);
    assert_eq!(req.error_code, "E2505");
    assert_eq!(req.error_message, "something went wrong");
    assert_eq!(req.variables, "");
    let err = client(&rt).throw_error().with_error_code("E").into_request().unwrap_err();
    assert!(is_invalid(&err, "`job_key` must be set"));
}

#[test]
fn update_job_retries_needs_key_and_retries() {
    let rt = runtime();
    let c = client(&rt);
    let err = c.update_job_retries().with_job_key(1).into_request().unwrap_err();
    assert!(is_invalid(&err, "`job_key` and `retries` must be set"));
    let err = c.update_job_retries().with_retries(2).into_request().unwrap_err();
    assert!(is_invalid(&err, "`job_key` and `retries` must be set"));
    let req = c
        .update_job_retries()
        .with_job_key(1)
        .with_retries(2)
        .with_operation_reference(77)
        .into_request()
        .unwrap();
    assert_eq!(req.job_key, 1);
    assert_eq!(req.retries, 2);
    assert_eq!(req.operation_reference, Some(77));
    let req = c.clone().with_current_job_key(4).update_job_retries().with_retries(1).into_request().unwrap();
    assert_eq!(req.job_key, 4);
    assert_eq!(req.operation_reference, None);
}
