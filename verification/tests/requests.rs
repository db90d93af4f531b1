use receiptgo::ringgo::authentication::{AuthenticationRequest, PASSWORD_GRANT, RINGGO_CLIENT_ID};
use receiptgo::ringgo::downloads::{
    receipt_file_name, receipt_request, DownloadRequest, RECEIPT_RESOURCE_TYPE,
};
use receiptgo::ringgo::json::Json;
use receiptgo::ringgo::parking_sessions::parking_sessions_request;
use receiptgo::ringgo::transport::{Method, Payload, Reply, Request};

fn text(value: &str) -> String {
    value.to_string()
}

fn pair(name: &str, value: &str) -> (String, String) {
    (text(name), text(value))
}

/// Writes a document of the library as the parser's own tree.
fn value_of(json: &Json) -> serde_json::Value {
    match json {
        Json::Null => serde_json::Value::Null,
        Json::Bool(flag) => serde_json::Value::Bool(*flag),
        Json::Number(Some(number)) => serde_json::Value::from(*number),
        Json::Number(None) => panic!("a number that is no integer cannot be written"),
        Json::Text(value) => serde_json::Value::String(value.clone()),
        Json::Array(items) => serde_json::Value::Array(items.iter().map(value_of).collect()),
        Json::Object(members) => serde_json::Value::Object(
            members
                .iter()
                .map(|(name, value)| (name.clone(), value_of(value)))
                .collect(),
        ),
    }
}

#[test]
fn login_request_holds_the_credentials_and_the_fixed_fields() {
    let request = AuthenticationRequest::new(text("alice"), text("s3cret"), text("shh"));
    assert_eq!(request.client_id, "ringgoios");
    assert_eq!(request.client_secret, "shh");
    assert_eq!(request.grant_type, "password");
    assert_eq!(request.password, "s3cret");
    assert_eq!(request.username, "alice");
    assert_eq!(RINGGO_CLIENT_ID, "ringgoios");
    assert_eq!(PASSWORD_GRANT, "password");
}

#[test]
fn login_request_keeps_empty_credentials() {
    let request = AuthenticationRequest::new(text(""), text(""), text(""));
    assert_eq!(request.client_id, "ringgoios");
    assert_eq!(request.grant_type, "password");
    assert_eq!(request.username, "");
    assert_eq!(request.password, "");
    assert_eq!(request.client_secret, "");
}

#[test]
fn login_form_lists_its_five_fields_in_order() {
    let request = AuthenticationRequest::new(text("alice"), text("s3cret"), text("shh"));
    assert_eq!(
        request.form_fields(),
        vec![
            pair("client_id", "ringgoios"),
            pair("client_secret", "shh"),
            pair("grant_type", "password"),
            pair("password", "s3cret"),
            pair("username", "alice"),
        ]
    );
}

#[test]
fn login_is_a_form_posted_without_bearer() {
    let request = AuthenticationRequest::new(text("alice"), text("s3cret"), text("shh")).request();
    assert_eq!(
        request,
        Request {
            method: Method::Post,
            url: text("https://api-blue.myringgo.co.uk/auth/v1/pword"),
            bearer: None,
            payload: Payload::Form(vec![
                pair("client_id", "ringgoios"),
                pair("client_secret", "shh"),
                pair("grant_type", "password"),
                pair("password", "s3cret"),
                pair("username", "alice"),
            ]),
        }
    );
}

#[test]
fn listing_is_a_get_with_the_access_token_as_bearer() {
    assert_eq!(
        parking_sessions_request("T1"),
        Request {
            method: Method::Get,
            url: text("https://api-blue.myringgo.co.uk/user/sessions/receipts/1?CountryCode=GB"),
            bearer: Some(text("T1")),
            payload: Payload::Empty,
        }
    );
}

#[test]
fn download_request_has_resource_type_one() {
    let request = DownloadRequest::new(text("S1"));
    assert_eq!(request.identifier, "S1");
    assert_eq!(request.resource_type_id, 1);
    assert_eq!(RECEIPT_RESOURCE_TYPE, 1);
}

#[test]
fn download_request_has_resource_type_one_for_any_identifier() {
    for identifier in ["", "S1", "a/b?c", "\u{e9}t\u{e9}", "\"quoted\""] {
        let request = DownloadRequest::new(text(identifier));
        assert_eq!(request.identifier, identifier);
        assert_eq!(request.resource_type_id, 1);
    }
}

#[test]
fn download_request_document_has_two_members() {
    let document = DownloadRequest::new(text("S1")).to_json();
    assert_eq!(
        document,
        Json::Object(vec![
            (text("Identifier"), Json::Text(text("S1"))),
            (text("ResourceTypeId"), Json::Number(Some(1))),
        ])
    );
    assert_eq!(document.text_field("Identifier"), Some(&text("S1")));
    assert_eq!(document.integer_field("ResourceTypeId"), Some(1));
}

#[test]
fn download_request_is_json_posted_with_the_access_token_as_bearer() {
    let request = DownloadRequest::new(text("S1")).request("T1");
    assert_eq!(
        request,
        Request {
            method: Method::Post,
            url: text("https://api-blue.myringgo.co.uk/resource/accesstoken"),
            bearer: Some(text("T1")),
            payload: Payload::Json(Json::Object(vec![
                (text("Identifier"), Json::Text(text("S1"))),
                (text("ResourceTypeId"), Json::Number(Some(1))),
            ])),
        }
    );
}

#[test]
fn download_request_survives_the_wire() {
    for identifier in ["S1", "", "a \"b\" \\ c", "caf\u{e9} \u{1F17F}", "line\nbreak"] {
        let request = DownloadRequest::new(text(identifier)).request("T1");
        let document = match request.payload {
            Payload::Json(document) => document,
            other => panic!("not a JSON payload: {:?}", other),
        };
        let body = serde_json::to_vec(&value_of(&document)).unwrap();
        let captured = Reply::Answered { status: 200, body }.document().unwrap();
        assert_eq!(captured.text_field("Identifier"), Some(&text(identifier)));
        assert_eq!(captured.integer_field("ResourceTypeId"), Some(1));
        assert_eq!(captured, document);
    }
}

#[test]
fn download_request_is_written_as_the_provider_expects() {
    let document = DownloadRequest::new(text("S1")).to_json();
    let body = serde_json::to_string(&value_of(&document)).unwrap();
    assert_eq!(body, r#"{"Identifier":"S1","ResourceTypeId":1}"#);
}

#[test]
fn receipt_is_fetched_without_bearer() {
    assert_eq!(
        receipt_request("R1"),
        Request {
            method: Method::Get,
            url: text("https://api-blue.myringgo.co.uk/user/session/receipt/R1"),
            bearer: None,
            payload: Payload::Empty,
        }
    );
}

#[test]
fn receipt_file_is_named_after_the_session() {
    assert_eq!(receipt_file_name("S1"), "S1.pdf");
    assert_eq!(receipt_file_name(""), ".pdf");
    assert_eq!(receipt_file_name("2024/03-A"), "2024/03-A.pdf");
}
