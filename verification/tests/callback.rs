use sptty::auth::callback::{find, listen_address, CallbackServer, Finished, Reply};
use sptty::error::Error;

fn pairs(items: &[(&str, &str)]) -> Vec<(String, String)> {
    items.iter().map(|(k, v)| (k.to_string(), v.to_string())).collect()
}

#[test]
fn matching_state_delivers_the_code_with_200() {
    let mut server = CallbackServer::new("S".to_string());
    let reply = server.serve("/callback?code=XYZ&state=S").unwrap();
    assert_eq!(reply, Reply::Deliver { code: "XYZ".to_string() });
    assert_eq!(reply.status(), 200);
    assert_eq!(reply.body(), "ok");
    assert!(!server.is_waiting());
}

#[test]
fn mismatched_state_fails_and_delivers_nothing() {
    let mut server = CallbackServer::new("S".to_string());
    assert_eq!(server.serve("/callback?code=XYZ&state=other"), Err(Error::StateMismatch));
    assert!(!server.is_waiting());
    assert_eq!(server.serve("/callback?code=XYZ&state=S"), Ok(Reply::Ignore));
}

#[test]
fn request_without_code_is_answered_with_204() {
    let mut server = CallbackServer::new("S".to_string());
    let reply = server.serve("/callback?state=S").unwrap();
    assert_eq!(reply, Reply::Ignore);
    assert_eq!(reply.status(), 204);
    assert_eq!(reply.body(), "");
    assert!(server.is_waiting());
}

#[test]
fn request_without_state_is_answered_with_204() {
    let mut server = CallbackServer::new("S".to_string());
    assert_eq!(server.serve("/callback?code=XYZ"), Ok(Reply::Ignore));
    assert!(server.is_waiting());
}

#[test]
fn request_without_query_is_answered_with_204() {
    let mut server = CallbackServer::new("S".to_string());
    assert_eq!(server.serve("/favicon.ico"), Ok(Reply::Ignore));
    assert_eq!(server.serve("/"), Ok(Reply::Ignore));
    assert!(server.is_waiting());
}

#[test]
fn the_wait_goes_on_after_an_incomplete_request() {
    let mut server = CallbackServer::new("S".to_string());
    assert_eq!(server.serve("/favicon.ico"), Ok(Reply::Ignore));
    assert_eq!(server.serve("/callback?code=XYZ"), Ok(Reply::Ignore));
    assert_eq!(
        server.serve("/callback?code=XYZ&state=S"),
        Ok(Reply::Deliver { code: "XYZ".to_string() })
    );
}

#[test]
fn only_the_first_delivery_succeeds() {
    let mut server = CallbackServer::new("S".to_string());
    assert_eq!(
        server.serve("/callback?code=first&state=S"),
        Ok(Reply::Deliver { code: "first".to_string() })
    );
    assert_eq!(server.serve("/callback?code=second&state=S"), Ok(Reply::Ignore));
    assert_eq!(server.serve("/callback?code=third&state=wrong"), Ok(Reply::Ignore));
}

#[test]
fn an_absolute_target_is_read_like_a_path() {
    let mut server = CallbackServer::new("S0".to_string());
    assert_eq!(
        server.serve("http://127.0.0.1:4381/callback?code=code123&state=S0"),
        Ok(Reply::Deliver { code: "code123".to_string() })
    );
}

#[test]
fn values_are_percent_decoded() {
    let mut server = CallbackServer::new("a b".to_string());
    assert_eq!(
        server.serve("/callback?code=x%2Fy%3Dz+w&state=a%20b"),
        Ok(Reply::Deliver { code: "x/y=z w".to_string() })
    );
}

#[test]
fn the_last_of_repeated_names_counts() {
    let mut server = CallbackServer::new("S".to_string());
    assert_eq!(
        server.serve("/callback?code=one&state=bad&code=two&state=S"),
        Ok(Reply::Deliver { code: "two".to_string() })
    );
}

#[test]
fn the_last_state_decides_a_mismatch() {
    let mut server = CallbackServer::new("S".to_string());
    assert_eq!(server.serve("/callback?code=one&state=S&state=bad"), Err(Error::StateMismatch));
}

#[test]
fn state_is_compared_exactly() {
    let mut server = CallbackServer::new("State".to_string());
    assert_eq!(server.serve("/callback?code=c&state=state"), Err(Error::StateMismatch));
    let mut server = CallbackServer::new("S".to_string());
    assert_eq!(server.serve("/callback?code=c&state=S%20"), Err(Error::StateMismatch));
}

#[test]
fn an_unresolvable_target_fails_and_changes_nothing() {
    let mut server = CallbackServer::new("S".to_string());
    assert!(matches!(server.serve("//"), Err(Error::Parse(_))));
    assert!(server.is_waiting());
}

#[test]
fn answer_decides_on_the_pairs() {
    let mut server = CallbackServer::new("S".to_string());
    assert_eq!(server.answer(&pairs(&[("code", "c")])), Ok(Reply::Ignore));
    assert_eq!(server.answer(&pairs(&[])), Ok(Reply::Ignore));
    assert_eq!(
        server.answer(&pairs(&[("state", "S"), ("x", "y"), ("code", "c")])),
        Ok(Reply::Deliver { code: "c".to_string() })
    );
    assert_eq!(server.answer(&pairs(&[("state", "S"), ("code", "c")])), Ok(Reply::Ignore));
}

#[test]
fn find_gives_the_last_value_of_a_name() {
    let query = pairs(&[("a", "1"), ("b", "2"), ("a", "3")]);
    assert_eq!(find(&query, "a"), Some("3".to_string()));
    assert_eq!(find(&query, "b"), Some("2".to_string()));
    assert_eq!(find(&query, "c"), None);
    assert_eq!(find(&pairs(&[]), "a"), None);
}

#[test]
fn find_tells_names_apart_by_case() {
    let query = pairs(&[("Code", "1")]);
    assert_eq!(find(&query, "code"), None);
}

#[test]
fn listen_address_is_host_and_port_of_the_redirect_uri() {
    assert_eq!(
        listen_address("http://127.0.0.1:4381/callback"),
        Ok(("127.0.0.1".to_string(), 4381))
    );
    assert_eq!(listen_address("http://localhost:8888/"), Ok(("localhost".to_string(), 8888)));
}

#[test]
fn listen_address_falls_back_to_port_80() {
    assert_eq!(listen_address("http://localhost/callback"), Ok(("localhost".to_string(), 80)));
    assert_eq!(listen_address("http://127.0.0.1:80/callback"), Ok(("127.0.0.1".to_string(), 80)));
    assert_eq!(listen_address("https://localhost/callback"), Ok(("localhost".to_string(), 80)));
}

#[test]
fn listen_address_writes_an_ipv6_host_in_brackets() {
    assert_eq!(listen_address("http://[::1]:4381/callback"), Ok(("[::1]".to_string(), 4381)));
}

#[test]
fn listen_address_lowers_the_case_of_a_domain() {
    assert_eq!(listen_address("http://LocalHost:1/"), Ok(("localhost".to_string(), 1)));
}

#[test]
fn listen_address_needs_a_url() {
    assert_eq!(
        listen_address("127.0.0.1:4381"),
        Err(Error::Config("relative URL without a base".to_string()))
    );
    assert!(matches!(listen_address(""), Err(Error::Config(_))));
    assert_eq!(
        listen_address("http://127.0.0.1:99999/"),
        Err(Error::Config("invalid port number".to_string()))
    );
}

#[test]
fn listen_address_needs_a_host() {
    assert_eq!(
        listen_address("data:text/plain,hello"),
        Err(Error::Config("redirect URI without a host".to_string()))
    );
}

#[test]
fn a_code_that_was_handed_over_is_the_result() {
    assert_eq!(Finished::Handoff(Some("XYZ".to_string())).conclude(), Ok("XYZ".to_string()));
}

#[test]
fn a_handoff_without_code_is_a_state_mismatch() {
    assert_eq!(Finished::Handoff(None).conclude(), Err(Error::StateMismatch));
}

#[test]
fn a_connection_that_ended_in_order_served_no_code() {
    assert_eq!(Finished::Served(Ok(())).conclude(), Err(Error::ServerClosed));
    assert_eq!(Error::ServerClosed.message(), "failed to serve code.");
}

#[test]
fn a_connection_that_failed_fails_with_its_failure() {
    assert_eq!(
        Finished::Served(Err(Error::Network("reset".to_string()))).conclude(),
        Err(Error::Network("reset".to_string()))
    );
    assert_eq!(Finished::Served(Err(Error::StateMismatch)).conclude(), Err(Error::StateMismatch));
}

#[test]
fn whatever_arrives_at_most_one_code_is_delivered() {
    let targets = [
        "/callback?code=a&state=S",
        "/callback?code=b&state=S",
        "/callback?code=c&state=wrong",
        "/callback?code=d",
        "/callback?state=S",
        "/",
    ];
    for length in 0..5u32 {
        for mut number in 0..targets.len().pow(length) {
            let mut server = CallbackServer::new("S".to_string());
            let mut delivered = 0;
            let mut stopped = false;
            for _ in 0..length {
                let target = targets[number % targets.len()];
                number /= targets.len();
                let waiting_before = server.is_waiting();
                match server.serve(target) {
                    Ok(Reply::Deliver { .. }) => {
                        assert!(waiting_before);
                        assert!(!stopped);
                        delivered += 1;
                        stopped = true;
                    }
                    Ok(Reply::Ignore) => assert_eq!(server.is_waiting(), waiting_before),
                    Err(error) => {
                        assert_eq!(error, Error::StateMismatch);
                        assert!(waiting_before);
                        stopped = true;
                    }
                }
                assert_eq!(server.is_waiting(), !stopped);
            }
            assert!(delivered <= 1);
        }
    }
}
