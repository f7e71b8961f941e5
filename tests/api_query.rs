use tcp_link::api_query::{render_bytes, ApiQuery, ApiQueryError, ApiQueryType, ApiQueryTypeName};

fn s(x: &str) -> String {
    x.to_string()
}

#[test]
fn new_and_getters() {
    let q = ApiQuery::new(s("tok"), s("17"), ApiQueryType::Sql(s("{}")), s("src"), true, false);
    assert_eq!(q.authToken(), "tok");
    assert_eq!(q.id(), "17");
    assert_eq!(q.query(), ApiQueryType::Sql(s("{}")));
    assert_eq!(q.srcQuery(true), "src");
    assert_eq!(q.srcQuery(false), "");
    assert!(q.keepAlive);
    assert!(!q.debug);
}

#[test]
fn query_type_name_rules() {
    assert_eq!(ApiQuery::parseQueryTypeName(false, false, false), Ok(ApiQueryTypeName::Unknown));
    assert_eq!(ApiQuery::parseQueryTypeName(true, false, false), Ok(ApiQueryTypeName::Sql));
    assert_eq!(ApiQuery::parseQueryTypeName(false, true, false), Ok(ApiQueryTypeName::Python));
    assert_eq!(ApiQuery::parseQueryTypeName(false, false, true), Ok(ApiQueryTypeName::Executable));
    assert_eq!(ApiQuery::parseQueryTypeName(true, true, false), Err(ApiQueryError::MultiService));
    assert_eq!(ApiQuery::parseQueryTypeName(true, true, true), Err(ApiQueryError::MultiService));
}

#[test]
fn from_fields_single_service() {
    let q = ApiQuery::fromFields(s("{..}"), Some(s("t")), Some(s("1")), Some(true), None, None, Some(s("{\"script\":1}")), None);
    assert_eq!(q.query(), ApiQueryType::Python(s("{\"script\":1}")));
    assert_eq!(q.authToken(), "t");
    assert!(q.keepAlive);
    assert!(!q.debug);
    assert_eq!(q.srcQuery(true), "{..}");
}

#[test]
fn from_fields_missing_token() {
    let q = ApiQuery::fromFields(s("{}"), None, Some(s("1")), None, Some(true), Some(s("x")), None, None);
    assert_eq!(q.query(), ApiQueryType::Error(ApiQueryError::MissingField));
    assert_eq!(q.authToken(), "Unknown");
    assert_eq!(q.id(), "1");
    assert!(q.debug);
}

#[test]
fn from_fields_multi_service_and_none() {
    let q = ApiQuery::fromFields(s("{}"), Some(s("t")), Some(s("1")), None, None, Some(s("a")), None, Some(s("b")));
    assert_eq!(q.query(), ApiQueryType::Error(ApiQueryError::MultiService));
    let q = ApiQuery::fromFields(s("{}"), Some(s("t")), Some(s("1")), None, None, None, None, None);
    assert_eq!(q.query(), ApiQueryType::Unknown);
}

#[test]
fn from_invalid_defaults() {
    let q = ApiQuery::fromInvalid(s("1,2"), ApiQueryError::InvalidJson);
    assert_eq!(q.authToken(), "Unknown");
    assert_eq!(q.id(), "Unknown");
    assert_eq!(q.query(), ApiQueryType::Error(ApiQueryError::InvalidJson));
    assert!(!q.keepAlive);
    assert!(q.debug);
}

#[test]
fn render_bytes_as_decimals() {
    assert_eq!(render_bytes(&[1, 22, 255]), b"1,22,255".to_vec());
    assert_eq!(render_bytes(&[0]), b"0".to_vec());
    assert_eq!(render_bytes(&[100, 9, 10, 99]), b"100,9,10,99".to_vec());
    assert!(render_bytes(&[]).is_empty());
}

#[test]
fn api_query_clone_and_eq() {
    let q = ApiQuery::new(s("t"), s("1"), ApiQueryType::Unknown, s("{}"), false, true);
    let c = q.clone();
    assert_eq!(q, c);
    assert_ne!(q, ApiQuery::new(s("t"), s("2"), ApiQueryType::Unknown, s("{}"), false, true));
    assert!(format!("{:?}", q).contains("ApiQuery"));
}
