use cg_req::method::RestApiMethodBuilder;
use cg_req::params::{ParamError, RestApiMethodParam, RestApiMethodParamBunch};

fn bunch(items: Vec<RestApiMethodParam>) -> RestApiMethodParamBunch {
    RestApiMethodParamBunch { items }
}

#[test]
fn constructors_set_modes() {
    let p = RestApiMethodParam::prevalue("a", "1".to_string());
    assert_eq!(p.key, "a");
    assert_eq!(p.value.as_deref(), Some("1"));
    assert!(p.is_required);
    let r = RestApiMethodParam::required("b");
    assert!(r.value.is_none() && r.is_required);
    let o = RestApiMethodParam::optional("c");
    assert!(o.value.is_none() && !o.is_required);
}

#[test]
fn serialize_omits_unset_optional() {
    let b = bunch(vec![
        RestApiMethodParam::prevalue("a", "1".to_string()),
        RestApiMethodParam::optional("skip"),
        RestApiMethodParam::prevalue("b", "2".to_string()),
    ]);
    let pairs = b.serialize().unwrap();
    assert_eq!(
        pairs,
        vec![("a".to_string(), "1".to_string()), ("b".to_string(), "2".to_string())]
    );
}

#[test]
fn serialize_names_first_missing_required() {
    let b = bunch(vec![
        RestApiMethodParam::prevalue("a", "1".to_string()),
        RestApiMethodParam::optional("o"),
        RestApiMethodParam::required("ids"),
        RestApiMethodParam::required("later"),
    ]);
    assert!(matches!(b.serialize(), Err(ParamError::MissingRequiredParam("ids"))));
}

#[test]
fn serialize_empty_set() {
    assert!(bunch(vec![]).serialize().unwrap().is_empty());
}

#[test]
fn set_value_is_write_once() {
    let mut b = bunch(vec![RestApiMethodParam::optional("page"), RestApiMethodParam::required("ids")]);
    assert!(matches!(b.set_value("nope", "x".to_string()), Err(ParamError::UnknownParam("nope"))));
    assert!(b.set_value("ids", "x,y".to_string()).is_ok());
    assert_eq!(b.items[1].value.as_deref(), Some("x,y"));
    assert!(matches!(b.set_value("ids", "z".to_string()), Err(ParamError::AlreadySet("ids"))));
    assert_eq!(b.items[1].value.as_deref(), Some("x,y"));
    assert!(b.items[0].value.is_none());
}

#[test]
fn find_by_key() {
    let b = bunch(vec![RestApiMethodParam::optional("page"), RestApiMethodParam::required("ids")]);
    assert_eq!(b.find("ids").map(|p| p.key), Some("ids"));
    assert!(b.find("other").is_none());
    assert_eq!(b.position("ids"), Some(1));
}

#[test]
fn params_as_json_object_in_order() {
    let mut builder = RestApiMethodBuilder::<u8, u8>::new();
    builder
        .set_base_url("https://example.com".to_string())
        .set_url("/p")
        .add_param(RestApiMethodParam::prevalue("b", "2".to_string()))
        .add_param(RestApiMethodParam::optional("skip"))
        .add_param(RestApiMethodParam::prevalue("a", "say \"hi\"".to_string()))
        .set_transform_response(0);
    let m = builder.build();
    assert_eq!(
        m.convert_params_into_json_string().unwrap(),
        "{\"b\":\"2\",\"a\":\"say \\\"hi\\\"\"}"
    );
}

#[test]
fn params_as_json_missing_required() {
    let mut builder = RestApiMethodBuilder::<u8, u8>::new();
    builder
        .set_base_url("https://example.com".to_string())
        .set_url("/p")
        .add_param(RestApiMethodParam::required("ids"))
        .set_transform_response(0);
    let m = builder.build();
    assert!(matches!(
        m.convert_params_into_json_string(),
        Err(ParamError::MissingRequiredParam("ids"))
    ));
}

#[test]
fn params_as_json_empty() {
    let mut builder = RestApiMethodBuilder::<u8, u8>::new();
    builder.set_base_url("https://example.com".to_string()).set_url("/p").set_transform_response(0);
    assert_eq!(builder.build().convert_params_into_json_string().unwrap(), "{}");
}
