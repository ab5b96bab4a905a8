use cg_req::method::{BuildError, RestApiMethod, RestApiMethodBuilder};
use cg_req::params::{ParamError, RequestMethod, RestApiMethodParam, RestApiMethodRouteParam};

fn template() -> RestApiMethodBuilder<u8, u8> {
    let mut b = RestApiMethod::<u8, u8>::builder();
    b.set_base_url("https://api.example.com".to_string())
        .set_url("/api/v3/simple/price")
        .add_param(RestApiMethodParam::prevalue("vs_currencies", "usd".to_string()))
        .add_param(RestApiMethodParam::optional("page"))
        .add_query_param(RestApiMethodParam::required("key"))
        .add_route_param(RestApiMethodRouteParam { key: "id", value: None })
        .set_transform_response(7);
    b
}

#[test]
fn build_without_transform_fails() {
    let mut b = RestApiMethodBuilder::<u8, u8>::new();
    b.set_base_url("https://api.example.com".to_string()).set_url("/x");
    assert!(matches!(b.try_build(), Err(BuildError::MissingTransformResponse)));
    assert!(matches!(b.try_build(), Err(BuildError::MissingTransformResponse)));
}

#[test]
fn build_without_base_url_or_path_fails() {
    let mut b = RestApiMethodBuilder::<u8, u8>::new();
    b.set_transform_response(1);
    assert!(matches!(b.try_build(), Err(BuildError::MissingBaseUrl)));
    b.set_base_url("https://api.example.com".to_string());
    assert!(matches!(b.try_build(), Err(BuildError::MissingUrl)));
}

#[test]
fn build_copies_fields() {
    let b = template();
    let m = b.build();
    assert_eq!(m.base_url, "https://api.example.com");
    assert_eq!(m.url, "/api/v3/simple/price");
    assert_eq!(m.method, RequestMethod::Get);
    assert_eq!(m.params.items.len(), 2);
    assert_eq!(m.query_params.items.len(), 1);
    assert_eq!(m.route_params.len(), 1);
    assert_eq!(m.transform_response, 7);
    assert!(m.configure_request.is_none());
}

#[test]
fn template_clone_is_independent() {
    let t = template();
    let mut a = t.clone();
    a.add_param(RestApiMethodParam::prevalue("ids", "x".to_string())).set_method(RequestMethod::Post);
    assert_eq!(t.params.len(), 2);
    assert_eq!(t.method, RequestMethod::Get);
    let m = a.build();
    assert_eq!(m.params.items.len(), 3);
    assert_eq!(m.method, RequestMethod::Post);
}

#[test]
fn setters_fill_once() {
    let mut m = template().build();
    assert!(m.set_param_value("page", "2".to_string()).is_ok());
    assert!(matches!(m.set_param_value("page", "3".to_string()), Err(ParamError::AlreadySet("page"))));
    assert!(matches!(m.set_param_value("vs_currencies", "eur".to_string()), Err(ParamError::AlreadySet(_))));
    assert!(matches!(m.set_param_value("nope", "1".to_string()), Err(ParamError::UnknownParam("nope"))));
    assert!(m.set_query_param_value("key", "k".to_string()).is_ok());
    assert!(matches!(m.set_query_param_value("page", "1".to_string()), Err(ParamError::UnknownParam(_))));
    assert!(m.set_route_param_value("id", "btc".to_string()).is_ok());
    assert!(matches!(m.set_route_param_value("id", "eth".to_string()), Err(ParamError::AlreadySet("id"))));
    assert!(matches!(m.set_route_param_value("x", "1".to_string()), Err(ParamError::UnknownParam("x"))));
    assert_eq!(m.route_params[0].value.as_deref(), Some("btc"));
    assert_eq!(m.params.items[1].value.as_deref(), Some("2"));
    assert_eq!(m.query_params.items[0].value.as_deref(), Some("k"));
}

#[test]
fn try_build_matches_build() {
    let b = template();
    let m = b.try_build().unwrap();
    assert_eq!(m.base_url, b.build().base_url);
    assert_eq!(m.params.items.len(), 2);
}

#[test]
fn configure_hook_is_kept() {
    let mut b = template();
    b.set_configure_request(3);
    assert_eq!(b.build().configure_request, Some(3));
}
