use srvcs_slope::api::{depends_on, index, ApiDoc, Deps, CONCERN, SERVICE};
use srvcs_slope::reply::Dependency;

#[test]
fn openapi_documents_routes() {
    let doc = ApiDoc::openapi();
    let root = doc.paths.paths.get("/").expect("path / present");
    assert!(root.get.is_some());
    assert!(root.post.is_some());
}

#[test]
fn index_reports_all_dependencies() {
    let info = index();
    assert_eq!(info.service, "srvcs-slope");
    assert_eq!(info.concern, "geometry: slope between two points");
    assert_eq!(
        info.depends_on,
        vec!["srvcs-floatsubtract", "srvcs-floatdivide"]
    );
}

#[test]
fn index_reports_identity() {
    let info = index();
    assert_eq!(info.service, SERVICE);
    assert_eq!(info.concern, CONCERN);
    assert_eq!(info.depends_on, depends_on());
    assert_eq!(SERVICE, "srvcs-slope");
}

#[test]
fn openapi_documents_statuses_of_each_operation() {
    let doc = ApiDoc::openapi();
    let root = doc.paths.paths.get("/").expect("path / present");
    let get = root.get.as_ref().unwrap();
    let post = root.post.as_ref().unwrap();
    assert_eq!(get.operation_id, "index");
    assert_eq!(get.responses, vec![200]);
    assert_eq!(post.operation_id, "evaluate");
    assert_eq!(post.responses, vec![200, 422, 500, 503]);
    assert_eq!(doc.schemas, vec!["Info", "EvalRequest", "SlopeResponse"]);
}

#[test]
fn openapi_does_not_document_other_paths() {
    let doc = ApiDoc::openapi();
    assert!(doc.paths.paths.get("/healthz").is_none());
    assert!(doc.paths.paths.get("").is_none());
    assert!(doc.paths.paths.get("//").is_none());
}

#[test]
fn dependency_names_are_those_declared() {
    assert_eq!(Dependency::FloatSubtract.name(), "srvcs-floatsubtract");
    assert_eq!(Dependency::FloatDivide.name(), "srvcs-floatdivide");
    let declared = index().depends_on;
    assert!(declared.contains(&Dependency::FloatSubtract.name()));
    assert!(declared.contains(&Dependency::FloatDivide.name()));
}

#[test]
fn deps_route_each_dependency_to_its_url() {
    let deps = Deps {
        floatsubtract_url: "http://127.0.0.1:8090".to_string(),
        floatdivide_url: "http://127.0.0.1:8091".to_string(),
    };
    assert_eq!(deps.url_for(Dependency::FloatSubtract), "http://127.0.0.1:8090");
    assert_eq!(deps.url_for(Dependency::FloatDivide), "http://127.0.0.1:8091");
}
