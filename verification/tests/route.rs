//! How requests are rewritten.
use axum::http::header::{HeaderMap, HeaderValue, AUTHORIZATION};
use gateway::error::{Error, ErrorKind};
use gateway::route::{make_absolute, replace_credentials, Forward, HeadersFull, RouteRequest};

fn request(route: &str) -> RouteRequest {
    RouteRequest {
        route: route.to_string(),
        target_ip: "172.17.0.2".to_string(),
        control_key: "Aladdin".to_string(),
    }
}

/// The request without any headers, rewritten; `None` if its route is no URI.
fn rewritten(route: &str) -> Option<Forward> {
    let request = request(route);
    if request.routable() {
        Some(request.rewrite(&mut HeaderMap::new()).unwrap())
    } else {
        None
    }
}

#[test]
fn request_goes_to_the_control_port() {
    assert_eq!(
        rewritten("/status"),
        Some(Forward {
            uri: "/status".to_string(),
            target_url: "http://172.17.0.2:8001".to_string(),
            client_ip: "127.0.0.1",
        })
    );
}

#[test]
fn leading_slash_is_added_once() {
    assert_eq!(make_absolute("status".to_string()), "/status");
    assert_eq!(make_absolute("/status".to_string()), "/status");
    assert_eq!(make_absolute("".to_string()), "/");
    assert_eq!(make_absolute("//status".to_string()), "//status");
    assert_eq!(rewritten("status").unwrap().uri, "/status");
    assert_eq!(rewritten("").unwrap().uri, "/");
    assert_eq!(rewritten("//a/b").unwrap().uri, "//a/b");
}

#[test]
fn query_is_kept_and_fragment_is_not() {
    assert_eq!(rewritten("projects?name=a&x=?y").unwrap().uri, "/projects?name=a&x=?y");
    assert_eq!(rewritten("projects?name=a#top").unwrap().uri, "/projects?name=a");
    assert_eq!(rewritten("projects#t\u{fc}p ?x").unwrap().uri, "/projects");
    assert_eq!(rewritten("projects?").unwrap().uri, "/projects?");
}

#[test]
fn each_character_has_its_place() {
    for c in (0u8..=255).map(char::from) {
        let in_path = c == '!'
            || ('$'..=';').contains(&c)
            || c == '='
            || c == '?'
            || c == '#'
            || ('@'..='_').contains(&c)
            || ('a'..='z').contains(&c)
            || c == '|'
            || c == '~'
            || c == '"'
            || c == '{'
            || c == '}';
        let in_query = c == '!'
            || c == '#'
            || ('$'..=';').contains(&c)
            || c == '='
            || ('?'..='~').contains(&c);
        assert_eq!(rewritten(&format!("/a{}b", c)).is_some(), in_path, "path {:?}", c);
        assert_eq!(rewritten(&format!("/a?{}b", c)).is_some(), in_query, "query {:?}", c);
    }
}

#[test]
fn invalid_route_is_refused() {
    assert_eq!(rewritten("/a b"), None);
    assert_eq!(rewritten("/\u{e9}"), None);
    let longest = format!("/{}", "a".repeat(65533));
    assert_eq!(rewritten(&longest).unwrap().uri, longest);
    assert_eq!(rewritten(&format!("{}a", longest)), None);
}

#[test]
fn credentials_of_the_project_take_the_place_of_others() {
    let mut headers = HeaderMap::new();
    headers.append(AUTHORIZATION, HeaderValue::from_static("Bearer one"));
    headers.append("accept", HeaderValue::from_static("text/html"));
    headers.append(AUTHORIZATION, HeaderValue::from_static("Bearer two"));
    headers.append("accept", HeaderValue::from_static("text/plain"));
    request("/").rewrite(&mut headers).unwrap();
    let credentials: Vec<_> = headers.get_all(AUTHORIZATION).iter().collect();
    // the user name is the key, the password is empty
    assert_eq!(credentials, vec!["Basic QWxhZGRpbjo="]);
    assert!(credentials[0].is_sensitive());
    let accept: Vec<_> = headers.get_all("accept").iter().collect();
    assert_eq!(accept, vec!["text/html", "text/plain"]);
    assert_eq!(headers.len(), 3);
}

#[test]
fn credentials_are_the_key_and_a_colon_in_base64() {
    for (key, value) in [
        ("", "Basic Og=="),
        ("a", "Basic YTo="),
        ("ab", "Basic YWI6"),
        ("abc", "Basic YWJjOg=="),
        ("\u{e9}~", "Basic w6l+Og=="),
    ] {
        let mut headers = HeaderMap::new();
        let request = RouteRequest { control_key: key.to_string(), ..request("/") };
        request.rewrite(&mut headers).unwrap();
        assert_eq!(headers[AUTHORIZATION], value);
    }
}

#[test]
fn given_credentials_are_the_only_ones() {
    let mut headers = HeaderMap::new();
    assert!(replace_credentials(&mut headers, HeaderValue::from_static("first")));
    assert_eq!(headers.get_all(AUTHORIZATION).iter().count(), 1);
    assert!(replace_credentials(&mut headers, HeaderValue::from_static("second")));
    assert_eq!(headers.get_all(AUTHORIZATION).iter().collect::<Vec<_>>(), vec!["second"]);
}

#[test]
fn full_headers_are_refused() {
    let mut headers = HeaderMap::new();
    for i in 0..24576 {
        let name = axum::http::header::HeaderName::from_bytes(format!("x-{}", i).as_bytes());
        headers.append(name.unwrap(), HeaderValue::from_static("x"));
    }
    assert_eq!(request("/").rewrite(&mut headers), Err(HeadersFull));
    assert_eq!(headers.len(), 24576);
}

#[test]
fn many_headers_are_taken() {
    let mut headers = HeaderMap::new();
    for i in 0..6553 {
        let name = axum::http::header::HeaderName::from_bytes(format!("x-{}", i).as_bytes());
        headers.append(name.unwrap(), HeaderValue::from_static("x"));
    }
    assert!(request("/").rewrite(&mut headers).is_ok());
    assert_eq!(headers.len(), 6554);
}

#[test]
fn silent_project_is_unavailable() {
    let forward = rewritten("/status").unwrap();
    let answer: Result<u16, &str> = Err("connection refused");
    assert_eq!(
        forward.finish(answer),
        Err(Error::from_kind(ErrorKind::ProjectUnavailable))
    );
    let forward = rewritten("/status").unwrap();
    let answer: Result<u16, &str> = Ok(200);
    assert_eq!(forward.finish(answer), Ok(200));
}
