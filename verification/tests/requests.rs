use carreport::services::credentials::{set_token, TokenStore};
use carreport::services::requests::{
    bearer_header, request, request_delete, request_get, request_multipart, request_patch,
    request_post, request_post_multipart, request_put, Encoding, Method, Request, API_ROOT,
};

fn store_with(token: Option<&str>) -> TokenStore {
    let mut store = TokenStore::load::<()>(Err(()));
    let done = set_token(&mut store, token.map(|t| t.to_string()), Ok::<(), ()>(()));
    assert_eq!(done, Ok(()));
    store
}

fn every_method() -> [Method; 5] {
    [Method::Get, Method::Post, Method::Put, Method::Patch, Method::Delete]
}

fn report_body() -> serde_json::Value {
    let mut fields = serde_json::Map::new();
    fields.insert("spz".to_string(), serde_json::Value::String("ABC123".to_string()));
    fields.insert("description".to_string(), serde_json::Value::String("pothole".to_string()));
    serde_json::Value::Object(fields)
}

fn as_http(method: Method) -> reqwest::Method {
    match method {
        Method::Get => reqwest::Method::GET,
        Method::Post => reqwest::Method::POST,
        Method::Put => reqwest::Method::PUT,
        Method::Patch => reqwest::Method::PATCH,
        Method::Delete => reqwest::Method::DELETE,
    }
}

/// Hands a request with a structured payload to the transport, short of sending it.
fn transmitted(built: &Request<serde_json::Value>) -> reqwest::Request {
    let mut builder = reqwest::Client::new().request(as_http(built.method), &built.url);
    if let Some(value) = &built.authorization {
        builder = builder.header(reqwest::header::AUTHORIZATION, value);
    }
    if let Some(payload) = &built.payload {
        builder = builder.json(payload);
    }
    builder.build().unwrap()
}

#[test]
fn origin_is_fixed() {
    assert_eq!(API_ROOT, "http://localhost:8081/");
}

#[test]
fn address_is_origin_then_path() {
    let store = store_with(None);
    let built = request_get(&store, "reports".to_string());
    assert_eq!(built.url, "http://localhost:8081/reports");
    let built = request_get(&store, String::new());
    assert_eq!(built.url, "http://localhost:8081/");
    let built = request_get(&store, "/reports?page=2".to_string());
    assert_eq!(built.url, "http://localhost:8081//reports?page=2");
}

#[test]
fn only_get_drops_the_body() {
    assert!(!Method::Get.allows_body());
    assert!(Method::Post.allows_body());
    assert!(Method::Put.allows_body());
    assert!(Method::Patch.allows_body());
    assert!(Method::Delete.allows_body());
}

#[test]
fn bearer_header_has_prefix_and_token() {
    assert_eq!(bearer_header("abc"), "Bearer abc");
    assert_eq!(bearer_header(""), "Bearer ");
    assert_eq!(bearer_header("a b.c-d_e"), "Bearer a b.c-d_e");
}

#[test]
fn credential_is_attached_to_every_request() {
    let store = store_with(Some("secret"));
    for method in every_method() {
        let built = request(&store, method, "reports".to_string(), 1u8);
        assert_eq!(built.authorization, Some("Bearer secret".to_string()));
        let built = request_multipart(&store, method, "reports".to_string(), 1u8);
        assert_eq!(built.authorization, Some("Bearer secret".to_string()));
    }
}

#[test]
fn no_credential_no_authorization() {
    let store = store_with(None);
    for method in every_method() {
        let built = request(&store, method, "reports".to_string(), 1u8);
        assert_eq!(built.authorization, None);
        let built = request_multipart(&store, method, "reports".to_string(), 1u8);
        assert_eq!(built.authorization, None);
    }
}

#[test]
fn authorization_follows_the_store() {
    let mut store = store_with(Some("first"));
    let built = request_get(&store, "me".to_string());
    assert_eq!(built.authorization, Some("Bearer first".to_string()));
    assert!(set_token(&mut store, Some("second".to_string()), Ok::<(), ()>(())).is_ok());
    let built = request_get(&store, "me".to_string());
    assert_eq!(built.authorization, Some("Bearer second".to_string()));
    assert!(set_token(&mut store, None, Ok::<(), ()>(())).is_ok());
    let built = request_get(&store, "me".to_string());
    assert_eq!(built.authorization, None);
}

#[test]
fn header_is_the_one_the_transport_would_write() {
    for token in ["secret", "", "eyJhbGciOiJIUzI1NiJ9.e30.abc-DEF_123"] {
        let by_transport = reqwest::Client::new()
            .get("http://localhost:8081/reports")
            .bearer_auth(token)
            .build()
            .unwrap();
        let written = by_transport.headers().get(reqwest::header::AUTHORIZATION).unwrap();
        assert_eq!(written.to_str().unwrap(), bearer_header(token));

        let store = store_with(Some(token));
        let sent = transmitted(&request_post(&store, "reports".to_string(), report_body()));
        assert_eq!(sent.headers().get(reqwest::header::AUTHORIZATION), Some(written));
    }
}

#[test]
fn transmitted_request_without_credential_has_no_header() {
    let store = store_with(None);
    let sent = transmitted(&request_post(&store, "reports".to_string(), report_body()));
    assert!(sent.headers().get(reqwest::header::AUTHORIZATION).is_none());
}

#[test]
fn get_with_a_body_sends_no_payload() {
    let store = store_with(Some("secret"));
    let built = request(&store, Method::Get, "reports".to_string(), report_body());
    assert_eq!(built.method, Method::Get);
    assert_eq!(built.payload, None);
    let sent = transmitted(&built);
    assert_eq!(sent.method(), reqwest::Method::GET);
    assert!(sent.body().is_none());
    assert!(sent.headers().get(reqwest::header::CONTENT_TYPE).is_none());
}

#[test]
fn patch_sends_the_body_and_it_decodes_back() {
    let store = store_with(Some("secret"));
    let built = request_patch(&store, "reports/r1".to_string(), report_body());
    assert_eq!(built.method, Method::Patch);
    assert_eq!(built.payload, Some(report_body()));
    let sent = transmitted(&built);
    assert_eq!(sent.method(), reqwest::Method::PATCH);
    assert_eq!(sent.url().as_str(), "http://localhost:8081/reports/r1");
    let bytes = sent.body().unwrap().as_bytes().unwrap();
    let decoded: serde_json::Value = serde_json::from_slice(bytes).unwrap();
    assert_eq!(decoded, report_body());
    assert_eq!(decoded["spz"], "ABC123");
    assert_eq!(decoded["description"], "pothole");
}

#[test]
fn body_travels_with_all_but_get() {
    let store = store_with(None);
    for method in every_method() {
        let built = request(&store, method, "reports".to_string(), report_body());
        let form = request_multipart(&store, method, "reports".to_string(), vec![1u8, 2, 3]);
        if method == Method::Get {
            assert_eq!(built.payload, None);
            assert_eq!(form.payload, None);
        } else {
            assert_eq!(built.payload, Some(report_body()));
            assert_eq!(form.payload, Some(vec![1u8, 2, 3]));
        }
        assert_eq!(built.method, method);
        assert_eq!(form.method, method);
    }
}

#[test]
fn delete_sends_its_body() {
    let store = store_with(None);
    let built = request_delete(&store, "reports/r1".to_string(), report_body());
    assert_eq!(built.method, Method::Delete);
    assert_eq!(built.encoding, Encoding::Json);
    assert_eq!(built.url, "http://localhost:8081/reports/r1");
    assert_eq!(built.payload, Some(report_body()));
    assert!(transmitted(&built).body().is_some());
}

#[test]
fn get_has_neither_body_nor_payload() {
    let store = store_with(Some("secret"));
    let built = request_get(&store, "reports".to_string());
    assert_eq!(
        built,
        Request {
            method: Method::Get,
            url: "http://localhost:8081/reports".to_string(),
            authorization: Some("Bearer secret".to_string()),
            encoding: Encoding::Json,
            payload: None,
        }
    );
}

#[test]
fn post_put_patch_name_their_method() {
    let store = store_with(None);
    let built = request_post(&store, "reports".to_string(), 1u8);
    assert_eq!((built.method, built.encoding, built.payload), (Method::Post, Encoding::Json, Some(1)));
    let built = request_put(&store, "reports".to_string(), 2u8);
    assert_eq!((built.method, built.encoding, built.payload), (Method::Put, Encoding::Json, Some(2)));
    let built = request_patch(&store, "reports".to_string(), 3u8);
    assert_eq!((built.method, built.encoding, built.payload), (Method::Patch, Encoding::Json, Some(3)));
}

#[test]
fn multipart_post_names_its_encoding() {
    let store = store_with(Some("secret"));
    let built = request_post_multipart(&store, "reports/r1/photos".to_string(), vec![0xffu8, 0xd8]);
    assert_eq!(
        built,
        Request {
            method: Method::Post,
            url: "http://localhost:8081/reports/r1/photos".to_string(),
            authorization: Some("Bearer secret".to_string()),
            encoding: Encoding::Multipart,
            payload: Some(vec![0xffu8, 0xd8]),
        }
    );
}

#[test]
fn both_encodings_build_the_same_request() {
    for token in [None, Some("secret")] {
        let store = store_with(token);
        for method in every_method() {
            let plain = request(&store, method, "reports".to_string(), report_body());
            let parts = request_multipart(&store, method, "reports".to_string(), vec![7u8]);
            assert_eq!(plain.encoding, Encoding::Json);
            assert_eq!(parts.encoding, Encoding::Multipart);
            assert_eq!(plain.method, parts.method);
            assert_eq!(plain.url, parts.url);
            assert_eq!(plain.authorization, parts.authorization);
            assert_eq!(plain.payload.is_some(), parts.payload.is_some());
        }
    }
}
