use sptty::error::Error;
use sptty::rest::{Content, Empty, Input, MayBeEmpty, Method, Output, RestClient};

/// A body that holds one decimal number.
#[derive(Debug, PartialEq, Eq)]
struct Number(u64);

impl Input for Number {
    fn to_json(&self) -> Result<Vec<u8>, Error> {
        Ok(self.0.to_string().into_bytes())
    }
}

impl Output for Number {
    fn from_json(b: &[u8]) -> Result<Self, Error> {
        let text = String::from_utf8(b.to_vec()).map_err(|e| Error::Parse(e.to_string()))?;
        text.trim().parse().map(Number).map_err(|_| Error::Parse(format!("no number: {}", text)))
    }
}

/// An input that cannot be encoded.
struct Broken;

impl Input for Broken {
    fn to_json(&self) -> Result<Vec<u8>, Error> {
        Err(Error::Parse("cannot encode".to_string()))
    }
}

fn client() -> RestClient {
    RestClient::new("https://api.spotify.com", "tok".to_string()).unwrap()
}

#[test]
fn empty_input_is_a_body_of_length_zero() {
    assert_eq!(Empty.to_json(), Ok(vec![]));
    assert_eq!(Empty.to_json().unwrap().len(), 0);
}

#[test]
fn empty_output_accepts_any_body() {
    assert_eq!(Empty::from_json(b""), Ok(Empty));
    assert_eq!(Empty::from_json(b"{\"a\":1}"), Ok(Empty));
    assert_eq!(Empty::from_json(b"not json at all"), Ok(Empty));
    assert_eq!(Empty::from_json(&[0xff, 0xfe]), Ok(Empty));
}

#[test]
fn maybe_empty_reads_no_body_as_empty() {
    assert_eq!(MayBeEmpty::<Number>::from_json(b""), Ok(MayBeEmpty::Empty));
}

#[test]
fn maybe_empty_reads_a_body_as_present() {
    assert_eq!(MayBeEmpty::<Number>::from_json(b"42"), Ok(MayBeEmpty::Present(Number(42))));
    assert_eq!(MayBeEmpty::<Number>::from_json(b"0"), Ok(MayBeEmpty::Present(Number(0))));
    assert_eq!(MayBeEmpty::<Number>::from_json(b" 7 "), Ok(MayBeEmpty::Present(Number(7))));
}

#[test]
fn maybe_empty_passes_a_decoding_failure_on() {
    assert_eq!(
        MayBeEmpty::<Number>::from_json(b"x"),
        Err(Error::Parse("no number: x".to_string()))
    );
    assert!(matches!(MayBeEmpty::<Number>::from_json(b" "), Err(Error::Parse(_))));
}

#[test]
fn maybe_empty_of_empty_tells_no_body_from_some_body() {
    assert_eq!(MayBeEmpty::<Empty>::from_json(b""), Ok(MayBeEmpty::Empty));
    assert_eq!(MayBeEmpty::<Empty>::from_json(b"null"), Ok(MayBeEmpty::Present(Empty)));
}

#[test]
fn wrap_keeps_value_and_failure() {
    assert_eq!(MayBeEmpty::wrap(Ok(Number(1))), Ok(MayBeEmpty::Present(Number(1))));
    assert_eq!(
        MayBeEmpty::<Number>::wrap(Err(Error::Parse("bad".to_string()))),
        Err(Error::Parse("bad".to_string()))
    );
}

#[test]
fn request_presents_the_token_and_states_the_length() {
    let request = client().request("/v1/me/player/devices", Method::Get, &Empty).unwrap();
    assert_eq!(request.method, Method::Get);
    assert_eq!(request.url, "https://api.spotify.com/v1/me/player/devices");
    assert_eq!(request.authorization, "Bearer tok");
    assert_eq!(request.content_length, 0);
    assert_eq!(request.body, Vec::<u8>::new());
}

#[test]
fn request_carries_the_encoded_input() {
    let request = client().request("/v1/me/player", Method::Put, &Number(1234)).unwrap();
    assert_eq!(request.method, Method::Put);
    assert_eq!(request.url, "https://api.spotify.com/v1/me/player");
    assert_eq!(request.body, b"1234".to_vec());
    assert_eq!(request.content_length, 4);
}

#[test]
fn request_keeps_the_method() {
    let post = client().request("/v1/me/player/next", Method::Post, &Empty).unwrap();
    assert_eq!(post.method, Method::Post);
}

#[test]
fn request_resolves_the_path_against_the_origin() {
    let client = RestClient::new("https://api.example/base/", "t".to_string()).unwrap();
    assert_eq!(
        client.request("tracks?limit=1", Method::Get, &Empty).unwrap().url,
        "https://api.example/base/tracks?limit=1"
    );
    assert_eq!(
        client.request("/v1/me", Method::Get, &Empty).unwrap().url,
        "https://api.example/v1/me"
    );
    assert_eq!(
        client.request("https://other.example/x/tracks", Method::Get, &Empty).unwrap().url,
        "https://other.example/x/tracks"
    );
}

#[test]
fn request_fails_where_the_path_does_not_resolve() {
    let r = client().request("//", Method::Get, &Empty);
    assert!(matches!(r, Err(Error::Parse(_))));
}

#[test]
fn request_fails_where_the_input_cannot_be_encoded() {
    let r = client().request("/v1/me", Method::Put, &Broken);
    assert_eq!(r, Err(Error::Parse("cannot encode".to_string())));
}

#[test]
fn an_unresolvable_path_fails_before_the_input_is_encoded() {
    let r = client().request("//", Method::Put, &Broken);
    assert_ne!(r, Err(Error::Parse("cannot encode".to_string())));
    assert!(r.is_err());
}

#[test]
fn prepare_takes_what_encoding_gave() {
    let url = "https://api.spotify.com/v1/me".to_string();
    let request = client().prepare(url.clone(), Method::Post, Ok(vec![1, 2, 3])).unwrap();
    assert_eq!(request.url, url);
    assert_eq!(request.content_length, 3);
    assert_eq!(request.body, vec![1, 2, 3]);
    assert_eq!(request.authorization, "Bearer tok");
    assert_eq!(
        client().prepare(url, Method::Post, Err(Error::Parse("bad".to_string()))),
        Err(Error::Parse("bad".to_string()))
    );
}

#[test]
fn new_needs_a_url() {
    assert_eq!(
        RestClient::new("api.spotify.com", "t".to_string()).unwrap_err(),
        Error::Config("relative URL without a base".to_string())
    );
    assert!(RestClient::new("https://api.spotify.com", "t".to_string()).is_ok());
}

#[test]
fn failure_carries_status_and_body() {
    let body = "{\"error\":{\"status\":404,\"message\":\"Device not found\"}}";
    let error = RestClient::failure("404 Not Found".to_string(), body.to_string());
    assert_eq!(
        error,
        Error::Api { status: "404 Not Found".to_string(), body: body.to_string() }
    );
    assert_eq!(error.message(), format!("failed to request(404 Not Found).: {}", body));
    assert!(error.message().contains(body));
}

#[test]
fn failure_keeps_a_body_of_any_shape() {
    for body in ["", "plain text", "line one\nline two", "ünïcödé ✔", "  spaced  "] {
        let error = RestClient::failure("500 Internal Server Error".to_string(), body.to_string());
        assert!(error.message().ends_with(body));
    }
}

#[test]
fn client_keeps_the_origin_as_the_parser_writes_it() {
    assert_eq!(client().base(), "https://api.spotify.com/");
    let client = RestClient::new("HTTPS://API.Spotify.com:443/v1/../", "t".to_string()).unwrap();
    assert_eq!(client.base(), "https://api.spotify.com/");
}

#[test]
fn a_refusal_is_read_as_text() {
    for status in [0u16, 199, 300, 400, 401, 404, 429, 500, 503] {
        assert!(RestClient::reads_text(status));
    }
    for status in [200u16, 201, 204, 299] {
        assert!(!RestClient::reads_text(status));
    }
}

#[test]
fn a_refusal_surfaces_with_the_exact_response_text() {
    let text = "{\"error\":{\"status\":401,\"message\":\"The access token expired\"}}";
    let r: Result<Number, Error> = RestClient::response(
        401,
        "401 Unauthorized".to_string(),
        Content::Text(text.to_string()),
    );
    let error = r.unwrap_err();
    assert_eq!(
        error,
        Error::Api { status: "401 Unauthorized".to_string(), body: text.to_string() }
    );
    assert!(error.message().contains(text));
    assert_eq!(error.message(), format!("failed to request(401 Unauthorized).: {}", text));
}

#[test]
fn a_refusal_surfaces_whatever_the_output_is() {
    let empty: Result<Empty, Error> =
        RestClient::response(500, "500 Internal Server Error".to_string(), Content::Text("boom".to_string()));
    assert_eq!(
        empty,
        Err(Error::Api { status: "500 Internal Server Error".to_string(), body: "boom".to_string() })
    );
    let maybe: Result<MayBeEmpty<Number>, Error> =
        RestClient::response(404, "404 Not Found".to_string(), Content::Text(String::new()));
    assert_eq!(
        maybe,
        Err(Error::Api { status: "404 Not Found".to_string(), body: String::new() })
    );
}

#[test]
fn a_success_is_decoded() {
    let number: Result<Number, Error> =
        RestClient::response(200, "200 OK".to_string(), Content::Bytes(b"17"));
    assert_eq!(number, Ok(Number(17)));
    let nothing: Result<MayBeEmpty<Number>, Error> =
        RestClient::response(204, "204 No Content".to_string(), Content::Bytes(b""));
    assert_eq!(nothing, Ok(MayBeEmpty::Empty));
    let broken: Result<Number, Error> =
        RestClient::response(200, "200 OK".to_string(), Content::Bytes(b"seventeen"));
    assert_eq!(broken, Err(Error::Parse("no number: seventeen".to_string())));
}

#[test]
fn a_body_in_the_wrong_form_is_unexpected() {
    let text: Result<Number, Error> =
        RestClient::response(200, "200 OK".to_string(), Content::Text("17".to_string()));
    assert_eq!(text, Err(Error::Unexpected));
    let bytes: Result<Number, Error> =
        RestClient::response(500, "500 Internal Server Error".to_string(), Content::Bytes(b"17"));
    assert_eq!(bytes, Err(Error::Unexpected));
}
