use host_redirect::error::RedirectGetError;
use host_redirect::json::{frame_error_body, json_string_literal};
use host_redirect::request::{get_request_header, Request, RequestHeader};
use host_redirect::resolve::{
    get_item_to_response, query_for_host, resolve, Redirect, RedirectGetResponse,
};
use host_redirect::response::{to_response, Body, HttpResponse, ResponseHeader};
use host_redirect::store::{
    AttributeValue, GetItemOutput, GetItemQuery, Item, ResolverConfig, StoreReply,
};

fn header(name: &str, value: &[u8]) -> RequestHeader {
    RequestHeader { name: String::from(name), value: value.to_vec() }
}

fn output_with(location: AttributeValue) -> GetItemOutput {
    let mut item = Item::new();
    item.insert(String::from("location"), location);
    GetItemOutput { item: Some(item) }
}

#[test]
fn status_of_each_error() {
    assert_eq!(RedirectGetError::BadRequest.status(), 400);
    assert_eq!(RedirectGetError::HostNotFound.status(), 404);
    assert_eq!(RedirectGetError::InvalidFormat.status(), 500);
    assert_eq!(RedirectGetError::UnknownError.status(), 500);
}

#[test]
fn name_of_each_error() {
    assert_eq!(RedirectGetError::BadRequest.kind_name(), "BadRequest");
    assert_eq!(RedirectGetError::HostNotFound.kind_name(), "HostNotFound");
    assert_eq!(RedirectGetError::InvalidFormat.kind_name(), "InvalidFormat");
    assert_eq!(RedirectGetError::UnknownError.kind_name(), "UnknownError");
}

#[test]
fn message_of_each_error() {
    assert_eq!(RedirectGetError::BadRequest.message(), "The request was invalid");
    assert_eq!(
        RedirectGetError::HostNotFound.message(),
        "No redirect location found for the given host"
    );
    assert_eq!(RedirectGetError::InvalidFormat.message(), "The redirect record is invalid");
    assert_eq!(RedirectGetError::UnknownError.message(), "An unknown error condition occurred");
}

#[test]
fn error_response_has_status_content_type_and_json_body() {
    let response = RedirectGetError::InvalidFormat.into_response();
    assert_eq!(
        response,
        HttpResponse {
            status: 500,
            headers: vec![ResponseHeader {
                name: String::from("Content-Type"),
                value: String::from("application/json"),
            }],
            body: Body::Text(String::from(
                "{\"type\":\"InvalidFormat\",\"message\":\"The redirect record is invalid\"}"
            )),
        }
    );
}

#[test]
fn error_body_parses_as_json_object_with_two_fields() {
    let response = RedirectGetError::HostNotFound.into_response();
    let text = match response.body {
        Body::Text(text) => text,
        Body::Empty => panic!("an error response has a body"),
    };
    let value: serde_json::Value = serde_json::from_str(&text).unwrap();
    let object = value.as_object().unwrap();
    assert_eq!(object.len(), 2);
    assert_eq!(object.get("type").and_then(|v| v.as_str()), Some("HostNotFound"));
    assert_eq!(
        object.get("message").and_then(|v| v.as_str()),
        Some("No redirect location found for the given host")
    );
}

#[test]
fn redirect_response_has_location_and_no_body() {
    let found = RedirectGetResponse {
        redirect: Redirect {
            host: String::from("example.com"),
            location: String::from("https://example.org/a b?q=\u{e9}&r=\"x\""),
        },
    };
    assert_eq!(
        found.into_response(),
        HttpResponse {
            status: 301,
            headers: vec![ResponseHeader {
                name: String::from("Location"),
                value: String::from("https://example.org/a b?q=\u{e9}&r=\"x\""),
            }],
            body: Body::Empty,
        }
    );
}

#[test]
fn to_response_maps_both_sides() {
    let found = RedirectGetResponse {
        redirect: Redirect { host: String::from("h"), location: String::from("/there") },
    };
    assert_eq!(to_response(Ok(found)).status, 301);
    assert_eq!(to_response(Err(RedirectGetError::BadRequest)).status, 400);
    assert_eq!(to_response(Err(RedirectGetError::HostNotFound)).status, 404);
    assert_eq!(to_response(Err(RedirectGetError::InvalidFormat)).status, 500);
    assert_eq!(to_response(Err(RedirectGetError::UnknownError)).status, 500);
}

#[test]
fn json_string_literal_quotes_plain_text() {
    assert_eq!(json_string_literal("HostNotFound"), "\"HostNotFound\"");
    assert_eq!(json_string_literal(""), "\"\"");
    assert_eq!(json_string_literal("caf\u{e9} /~\u{7f}"), "\"caf\u{e9} /~\u{7f}\"");
}

#[test]
fn json_string_literal_escapes_quotes_backslashes_and_controls() {
    assert_eq!(json_string_literal("a\"b"), "\"a\\\"b\"");
    assert_eq!(json_string_literal("a\\b"), "\"a\\\\b\"");
    assert_eq!(json_string_literal("a\nb\tc"), "\"a\\nb\\tc\"");
    assert_eq!(json_string_literal("\u{1}"), "\"\\u0001\"");
}

#[test]
fn frame_error_body_puts_type_before_message() {
    assert_eq!(frame_error_body("\"T\"", "\"M\""), "{\"type\":\"T\",\"message\":\"M\"}");
    assert_eq!(frame_error_body("1", "null"), "{\"type\":1,\"message\":null}");
}

#[test]
fn header_is_found_whatever_the_case_of_its_name() {
    let request = Request { headers: vec![header("HoSt", b"example.com")] };
    assert_eq!(get_request_header(request, "Host"), Ok(String::from("example.com")));
    let request = Request { headers: vec![header("host", b"example.com")] };
    assert_eq!(get_request_header(request, "HOST"), Ok(String::from("example.com")));
}

#[test]
fn header_with_another_name_is_not_found() {
    let request = Request { headers: vec![header("hos", b"a"), header("hostname", b"b")] };
    assert_eq!(get_request_header(request, "Host"), Err(RedirectGetError::BadRequest));
}

#[test]
fn first_header_of_the_name_counts() {
    let request = Request {
        headers: vec![header("accept", b"x"), header("host", b"first"), header("Host", b"second")],
    };
    assert_eq!(get_request_header(request, "Host"), Ok(String::from("first")));
    let request = Request { headers: vec![header("host", &[0xc3]), header("host", b"second")] };
    assert_eq!(get_request_header(request, "Host"), Err(RedirectGetError::BadRequest));
}

#[test]
fn header_value_is_decoded_as_utf8() {
    let request = Request { headers: vec![header("host", "m\u{fc}nchen.example".as_bytes())] };
    assert_eq!(get_request_header(request, "Host"), Ok(String::from("m\u{fc}nchen.example")));
    let request = Request { headers: vec![header("host", &[0xed, 0xa0, 0x80])] };
    assert_eq!(get_request_header(request, "Host"), Err(RedirectGetError::BadRequest));
}

#[test]
fn item_returns_what_was_inserted() {
    let mut item = Item::new();
    assert_eq!(item.get("location"), None);
    item.insert(String::from("location"), AttributeValue::N(String::from("1")));
    item.insert(String::from("host"), AttributeValue::S(String::from("h")));
    assert_eq!(item.get("location"), Some(&AttributeValue::N(String::from("1"))));
    assert_eq!(item.get("host"), Some(&AttributeValue::S(String::from("h"))));
    assert_eq!(item.get("Location"), None);
}

#[test]
fn item_insert_replaces_the_value_under_a_name() {
    let mut item = Item::new();
    item.insert(String::from("location"), AttributeValue::Bool(true));
    item.insert(String::from("other"), AttributeValue::Other);
    item.insert(String::from("location"), AttributeValue::S(String::from("/new")));
    assert_eq!(item.get("location"), Some(&AttributeValue::S(String::from("/new"))));
    assert_eq!(item.get("other"), Some(&AttributeValue::Other));
}

#[test]
fn as_s_gives_the_string_of_a_string_value_only() {
    let value = AttributeValue::S(String::from("text"));
    assert_eq!(value.as_s(), Ok(&String::from("text")));
    let value = AttributeValue::N(String::from("7"));
    assert_eq!(value.as_s(), Err(&AttributeValue::N(String::from("7"))));
    assert_eq!(AttributeValue::Bool(false).as_s(), Err(&AttributeValue::Bool(false)));
    assert_eq!(AttributeValue::Other.as_s(), Err(&AttributeValue::Other));
}

#[test]
fn query_names_table_key_attribute_and_host() {
    let config = ResolverConfig { table_name: String::from("t1") };
    assert_eq!(
        query_for_host(&config, "Example.COM"),
        GetItemQuery {
            table_name: String::from("t1"),
            key_attribute: String::from("host"),
            key: String::from("Example.COM"),
        }
    );
}

#[test]
fn answer_without_record_is_host_not_found() {
    let outcome = get_item_to_response("missing.com", GetItemOutput { item: None });
    assert_eq!(outcome, Err(RedirectGetError::HostNotFound));
}

#[test]
fn answer_without_location_is_host_not_found() {
    let outcome = get_item_to_response("bare.com", GetItemOutput { item: Some(Item::new()) });
    assert_eq!(outcome, Err(RedirectGetError::HostNotFound));
}

#[test]
fn answer_with_location_of_another_type_is_invalid_format() {
    let outcome = get_item_to_response("b.com", output_with(AttributeValue::N(String::from("123"))));
    assert_eq!(outcome, Err(RedirectGetError::InvalidFormat));
    let outcome = get_item_to_response("b.com", output_with(AttributeValue::Bool(true)));
    assert_eq!(outcome, Err(RedirectGetError::InvalidFormat));
    let outcome = get_item_to_response("b.com", output_with(AttributeValue::Other));
    assert_eq!(outcome, Err(RedirectGetError::InvalidFormat));
}

#[test]
fn answer_with_empty_location_is_invalid_format() {
    let outcome = get_item_to_response("e.com", output_with(AttributeValue::S(String::new())));
    assert_eq!(outcome, Err(RedirectGetError::InvalidFormat));
}

#[test]
fn answer_with_string_location_is_the_redirect() {
    let outcome =
        get_item_to_response("example.com", output_with(AttributeValue::S(String::from("/x"))));
    assert_eq!(
        outcome,
        Ok(RedirectGetResponse {
            redirect: Redirect { host: String::from("example.com"), location: String::from("/x") },
        })
    );
}

#[test]
fn resolve_puts_a_failed_read_before_everything_else() {
    assert_eq!(resolve("example.com", StoreReply::Failed), Err(RedirectGetError::UnknownError));
    assert_eq!(resolve("", StoreReply::Failed), Err(RedirectGetError::UnknownError));
}

#[test]
fn resolve_judges_an_answer_by_its_record() {
    let reply = StoreReply::Answered(GetItemOutput { item: None });
    assert_eq!(resolve("example.com", reply), Err(RedirectGetError::HostNotFound));
    let reply = StoreReply::Answered(output_with(AttributeValue::S(String::from("https://e.org"))));
    assert_eq!(
        resolve("example.com", reply),
        Ok(RedirectGetResponse {
            redirect: Redirect {
                host: String::from("example.com"),
                location: String::from("https://e.org"),
            },
        })
    );
}

#[test]
fn same_input_gives_same_outcome() {
    let first = resolve("h", StoreReply::Answered(output_with(AttributeValue::S(String::from("/a")))));
    let second = resolve("h", StoreReply::Answered(output_with(AttributeValue::S(String::from("/a")))));
    assert_eq!(first, second);
}
