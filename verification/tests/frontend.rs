use mww::frontend::api_client::{response_data, HttpClientImpl};
use mww::frontend::model::{message_for_response, project_api_client, Effect, Model, Msg, ProjectViewProject};

#[test]
fn page_starts_empty() {
    let m = Model::create();
    assert_eq!(m.project_id(), "");
    assert_eq!(m.project().id, "");
    assert_eq!(m.project().name, "");
}

#[test]
fn typed_id_is_queried() {
    let mut m = Model::create();
    let (render, effect) = m.update(Msg::ModifyProjectID("abc".to_string()));
    assert!(render);
    assert!(matches!(effect, Effect::Nothing));
    assert_eq!(m.project_id(), "abc");
    let (render, effect) = m.update(Msg::GetProject);
    assert!(render);
    match effect {
        Effect::SendProjectQuery(v) => assert_eq!(v.id, "abc"),
        _ => panic!("expected a query"),
    }
}

#[test]
fn fetched_project_is_shown_and_errors_alerted() {
    let mut m = Model::create();
    let msg = message_for_response(Ok(ProjectViewProject { id: "1".to_string(), name: "p".to_string() }));
    let (render, effect) = m.update(msg);
    assert!(render);
    assert!(matches!(effect, Effect::Nothing));
    assert_eq!(m.project().id, "1");
    assert_eq!(m.project().name, "p");
    let msg = message_for_response(Err("boom".to_string()));
    let (render, effect) = m.update(msg);
    assert!(render);
    match effect {
        Effect::Alert(s) => assert_eq!(s, "boom"),
        _ => panic!("expected an alert"),
    }
    assert_eq!(m.project().id, "1");
    assert!(!m.change());
}

#[test]
fn api_client_pieces() {
    let c = HttpClientImpl::new("http://localhost:8000".to_string());
    assert_eq!(c.url(), "http://localhost:8000");
    assert_eq!(response_data(Some(3)).unwrap(), 3);
    let err = response_data::<i32>(None).unwrap_err();
    assert_eq!(err.to_string(), "failed read data");
}

#[test]
fn page_queries_the_local_api() {
    assert_eq!(project_api_client().url(), "http://localhost:8000");
}
