use std::str::FromStr;

use web_server::http_method::HTTPMethod;
use web_server::method::{InvalidMethodError, Method, Verb};
use web_server::status::Status;
use web_server::version::Version;

fn all_lines() -> Vec<&'static str> {
    vec![
        "GET /", "POST /form", "UPDATE /item/3", "PATCH /a?b=c", "DELETE /x", "HEAD /h",
        "OPTIONS *", "CONNECT host:443", "TRACE /t",
    ]
}

#[test]
fn method_render_of_parse_gives_the_line() {
    for line in all_lines() {
        let m = Method::try_from_line(line).unwrap();
        assert_eq!(m.to_string(), line);
    }
}

#[test]
fn method_parse_of_render_gives_the_method() {
    let built = vec![
        Method::get("/").unwrap(),
        Method::post("/p").unwrap(),
        Method::update("/u").unwrap(),
        Method::patch("/pa").unwrap(),
        Method::delete("/d").unwrap(),
        Method::head("/h").unwrap(),
        Method::options("/o").unwrap(),
        Method::connect("/c").unwrap(),
        Method::trace("/t").unwrap(),
    ];
    for m in built {
        let again = Method::try_from_line(&m.to_string()).unwrap();
        assert!(again == m);
    }
}

#[test]
fn method_verb_is_case_insensitive() {
    let m = Method::try_from_line("gEt /index").unwrap();
    assert_eq!(m.verb(), Verb::Get);
    assert_eq!(m.uri(), "/index");
    assert_eq!(m.to_string(), "GET /index");
}

#[test]
fn method_keeps_only_the_first_two_parts() {
    let m = Method::try_from_line("POST /submit HTTP/1.1").unwrap();
    assert_eq!(m.verb(), Verb::Post);
    assert_eq!(m.uri(), "/submit");
}

#[test]
fn method_unknown_verb_is_rejected() {
    match Method::try_from_line("NOT /") {
        Err(InvalidMethodError::InvalidVerbError(v)) => assert_eq!(v, "NOT"),
        other => panic!("unexpected {:?}", other),
    }
    assert!(Method::from_str("PUTS /").is_err());
}

#[test]
fn method_blank_uri_is_rejected() {
    for line in ["GET", "GET ", "GET  /", "GET \t"] {
        match Method::try_from_line(line) {
            Err(InvalidMethodError::InvalidURIError(_)) => {}
            other => panic!("unexpected {:?} for {:?}", other, line),
        }
    }
}

#[test]
fn method_blank_uri_is_reported_before_unknown_verb() {
    match Method::try_from_line("NOPE ") {
        Err(InvalidMethodError::InvalidURIError(u)) => assert_eq!(u, ""),
        other => panic!("unexpected {:?}", other),
    }
}

#[test]
fn method_get_of_empty_uri_gives_no_method() {
    match Method::get("") {
        Err(InvalidMethodError::InvalidURIError(u)) => assert_eq!(u, ""),
        other => panic!("unexpected {:?}", other),
    }
    assert!(Method::delete("   ").is_err());
    assert!(Method::head("\u{3000}").is_err());
}

#[test]
fn method_error_messages() {
    let e = Method::try_from_line("NOT /").unwrap_err();
    assert_eq!(e.to_string(), "Invalid Method: 'NOT'");
    let e = Method::get(" ").unwrap_err();
    assert_eq!(e.to_string(), "Invalid URI: ' '");
}

#[test]
fn method_equality_is_by_verb_and_uri() {
    assert!(Method::get("/a").unwrap() == Method::get("/a").unwrap());
    assert!(Method::get("/a").unwrap() != Method::post("/a").unwrap());
    assert!(Method::get("/a").unwrap() != Method::get("/b").unwrap());
    let c = Method::get("/a").unwrap().clone();
    assert!(c == Method::get("/a").unwrap());
}

#[test]
fn version_round_trip() {
    for text in ["HTTP/1", "HTTP/1.1", "HTTP/2", "HTTP/3"] {
        let v = Version::try_from_line(text).unwrap();
        assert_eq!(v.to_string(), text);
    }
    for v in [Version::http_1(), Version::http_1_1(), Version::http_2(), Version::http_3()] {
        assert_eq!(Version::try_from_line(&v.to_string()).unwrap(), v);
    }
}

#[test]
fn version_minor_defaults_to_zero() {
    assert_eq!(Version::try_from_line("HTTP/1.0").unwrap(), Version::http_1());
    assert_eq!(Version::try_from_line("HTTP/2.0").unwrap(), Version::http_2());
    assert_eq!(Version::try_from_line("http/1.1").unwrap(), Version::http_1_1());
    assert_eq!(Version::try_from_line("HTTP/1.0").unwrap().to_string(), "HTTP/1");
}

#[test]
fn version_unknown_is_rejected() {
    let e = Version::try_from_line("1.0").unwrap_err();
    assert_eq!(e.to_string(), "Invalid HTTP version: '1.0'");
    for text in ["HTTP/4", "HTTP/1.2", "HTTP/", "", "HTTP/11", "HTTP/2.1", "HTTPS/1"] {
        assert!(Version::try_from_line(text).is_err(), "{}", text);
    }
    assert!(Version::from_str("HTTP/9").is_err());
}

#[test]
fn version_default_is_one_one() {
    assert_eq!(Version::default(), Version::http_1_1());
    assert_eq!(Version::default().major_minor(), ('1', '1'));
}

#[test]
fn status_round_trip() {
    let all = [
        Status::ok(),
        Status::bad_request(),
        Status::not_found(),
        Status::internal_error(),
        Status::service_unavailable(),
    ];
    for s in all {
        assert_eq!(Status::parse(&s.to_string()), Some(s));
    }
    assert_eq!(Status::ok().to_string(), "200 OK");
    assert_eq!(Status::not_found().to_string(), "404 NOT FOUND");
    assert_eq!(Status::internal_error().to_string(), "500 INTERNAL ERROR");
    assert_eq!(Status::service_unavailable().to_string(), "503 SERVICE UNAVAILABLE");
    assert_eq!(Status::bad_request().to_string(), "400 BAD REQUEST");
    assert_eq!(Status::parse("200 ok"), None);
    assert_eq!(Status::parse("201 CREATED"), None);
}

#[test]
fn status_codes_and_order() {
    assert_eq!(Status::ok().code(), 200);
    assert_eq!(Status::service_unavailable().reason(), "SERVICE UNAVAILABLE");
    assert!(Status::ok() < Status::not_found());
    assert!(Status::internal_error() < Status::service_unavailable());
}

#[test]
fn http_method_route_keys() {
    let m = HTTPMethod::GET("/slow".to_string());
    assert_eq!(m.method(), "GET");
    assert_eq!(m.uri(), "/slow");
    assert_eq!(m.to_string(), "GET_/slow");
    assert_eq!(HTTPMethod::OPTIONS("*".to_string()).to_string(), "OPTIONS_*");
    assert_eq!(HTTPMethod::convert("post", "/a"), "POST_/a");
    assert_eq!(HTTPMethod::convert("dé", "/"), "DÉ_/");
    assert_eq!(HTTPMethod::convert("straße", "/s"), "STRASSE_/s");
    assert_eq!(HTTPMethod::route_key("GET", "/x"), "GET_/x");
}

#[test]
fn method_verb_upper_cased_by_unicode_rules() {
    let m = Method::try_from_line("poſt /a").unwrap();
    assert_eq!(m.verb(), Verb::Post);
    assert_eq!(m.to_string(), "POST /a");
    assert_eq!(Method::try_from_line("poﬆ /b").unwrap().verb(), Verb::Post);
    assert_eq!(Method::try_from_line("optıons *").unwrap().verb(), Verb::Options);
    assert!(Method::try_from_line("poſt /a HTTP/1.1").unwrap() == Method::post("/a").unwrap());
}

#[test]
fn verb_from_upper_is_exact() {
    assert_eq!(Verb::from_upper("DELETE"), Some(Verb::Delete));
    assert_eq!(Verb::from_upper("delete"), None);
    assert_eq!(Verb::from_upper("PUT"), None);
    assert_eq!(Verb::from_upper(""), None);
}

#[test]
fn version_from_upper_is_exact() {
    assert_eq!(Version::from_upper("HTTP/3"), Some(Version::http_3()));
    assert_eq!(Version::from_upper("HTTP/1.0"), Some(Version::http_1()));
    assert_eq!(Version::from_upper("http/3"), None);
    assert_eq!(Version::from_upper("HTTP/3.1"), None);
}
