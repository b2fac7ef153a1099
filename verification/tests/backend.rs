use fenrir_rs::auth::{authorization_header, encode_credentials};
use fenrir_rs::noop::NoopBackend;
use fenrir_rs::request::push_request;
use fenrir_rs::reqwest::{ReqwestBackend, RetryDecision, MAX_RETRIES};
use fenrir_rs::ureq::{UreqBackend, REQUEST_TIMEOUT_SECS};
use fenrir_rs::{
    AuthenticationMethod, Backend, Delivery, Endpoint, HttpMethod, NetworkingBackend, SendOutcome,
};

fn status(code: u16) -> SendOutcome {
    SendOutcome::Response { status: code }
}

fn no_response() -> SendOutcome {
    SendOutcome::NoResponse {
        reason: "connection refused".to_string(),
    }
}

fn ureq_backend(endpoint: &str, authentication: AuthenticationMethod) -> UreqBackend {
    UreqBackend {
        endpoint: Endpoint::parse(endpoint).unwrap(),
        authentication,
        credentials: encode_credentials("username", "password"),
    }
}

#[test]
fn basic_credentials_are_the_base64_of_name_colon_password() {
    assert_eq!(
        encode_credentials("username", "password"),
        "dXNlcm5hbWU6cGFzc3dvcmQ="
    );
    assert_eq!(encode_credentials("foo", "bar"), "Zm9vOmJhcg==");
    assert_eq!(encode_credentials("", ""), "Og==");
    assert_eq!(encode_credentials("a", "b"), "YTpi");
}

#[test]
fn the_authorization_header_carries_the_credentials_as_they_are() {
    assert_eq!(
        authorization_header(&encode_credentials("username", "password")),
        "Basic dXNlcm5hbWU6cGFzc3dvcmQ="
    );
    assert_eq!(authorization_header(""), "Basic ");
}

#[test]
fn an_endpoint_is_kept_as_the_url_it_parses_to() {
    assert_eq!(
        Endpoint::parse("https://loki.example.com").unwrap().as_str(),
        "https://loki.example.com/"
    );
    assert_eq!(
        Endpoint::parse("HTTP://LOCALHOST:3100/base").unwrap().as_str(),
        "http://localhost:3100/base"
    );
    assert_eq!(Endpoint::local().as_str(), "http://localhost:3100");
    assert_eq!(
        Endpoint::local().duplicate().as_str(),
        Endpoint::local().as_str()
    );
}

#[test]
fn text_that_is_no_url_is_no_endpoint() {
    assert!(Endpoint::parse("not a url").is_err());
    assert!(Endpoint::parse("").is_err());
    assert!(Endpoint::parse("/only/a/path").is_err());
}

#[test]
fn the_push_api_lies_at_a_fixed_path_of_the_endpoint() {
    assert_eq!(
        Endpoint::local().push_url().unwrap(),
        "http://localhost:3100/loki/api/v1/push"
    );
    assert_eq!(
        Endpoint::parse("https://loki.example.com/some/base?x=1")
            .unwrap()
            .push_url()
            .unwrap(),
        "https://loki.example.com/loki/api/v1/push"
    );
    assert!(Endpoint::parse("mailto:logs@example.com")
        .unwrap()
        .push_url()
        .is_err());
}

#[test]
fn a_push_request_has_the_content_type_and_the_body() {
    let request = push_request(
        &Endpoint::local(),
        AuthenticationMethod::NoAuth,
        "ignored",
        vec![1, 2, 3],
        Some(7),
    )
    .unwrap();
    assert_eq!(request.method, HttpMethod::Post);
    assert_eq!(request.url, "http://localhost:3100/loki/api/v1/push");
    assert_eq!(
        request.headers,
        vec![(
            "Content-Type".to_string(),
            "application/json; charset=utf-8".to_string()
        )]
    );
    assert_eq!(request.body, vec![1, 2, 3]);
    assert_eq!(request.timeout_secs, Some(7));
}

#[test]
fn basic_authentication_adds_the_authorization_header() {
    let backend = ureq_backend("https://loki.example.com", AuthenticationMethod::Basic);
    let request = backend.request(b"{}".to_vec()).unwrap();
    assert_eq!(request.url, "https://loki.example.com/loki/api/v1/push");
    assert_eq!(
        request.headers,
        vec![
            (
                "Content-Type".to_string(),
                "application/json; charset=utf-8".to_string()
            ),
            (
                "Authorization".to_string(),
                "Basic dXNlcm5hbWU6cGFzc3dvcmQ=".to_string()
            ),
        ]
    );
    assert_eq!(request.body, b"{}".to_vec());
    assert_eq!(request.timeout_secs, Some(10));
    assert_eq!(REQUEST_TIMEOUT_SECS, 10);
}

#[test]
fn the_blocking_backend_reports_what_it_holds() {
    let backend = ureq_backend("https://loki.example.com", AuthenticationMethod::Basic);
    assert_eq!(backend.internal_type(), NetworkingBackend::Ureq);
    assert_eq!(backend.authentication_method(), AuthenticationMethod::Basic);
    assert_eq!(
        backend.credentials(),
        Some("dXNlcm5hbWU6cGFzc3dvcmQ=".to_string())
    );
    let bare = UreqBackend {
        endpoint: Endpoint::local(),
        authentication: AuthenticationMethod::NoAuth,
        credentials: String::new(),
    };
    assert_eq!(bare.credentials(), None);
}

#[test]
fn the_background_backend_reports_what_it_holds() {
    let backend = ReqwestBackend {
        endpoint: Endpoint::local(),
        authentication: AuthenticationMethod::Basic,
        credentials: "Zm9vOmJhcg==".to_string(),
        runtime_handle: None,
    };
    assert_eq!(backend.internal_type(), NetworkingBackend::Reqwest);
    assert_eq!(backend.authentication_method(), AuthenticationMethod::Basic);
    assert_eq!(backend.credentials(), Some("Zm9vOmJhcg==".to_string()));
    let request = backend.request(vec![9]).unwrap();
    assert_eq!(request.timeout_secs, None);
    assert_eq!(request.headers[1].1, "Basic Zm9vOmJhcg==");
    let bare = ReqwestBackend {
        endpoint: Endpoint::local(),
        authentication: AuthenticationMethod::NoAuth,
        credentials: String::new(),
        runtime_handle: None,
    };
    assert_eq!(bare.credentials(), None);
    assert_eq!(bare.request(Vec::new()).unwrap().headers.len(), 1);
}

#[test]
fn the_blocking_backend_takes_every_status_of_success_and_no_other() {
    assert_eq!(UreqBackend::judge(status(200)), Ok(()));
    assert_eq!(UreqBackend::judge(status(204)), Ok(()));
    assert_eq!(UreqBackend::judge(status(299)), Ok(()));
    assert_eq!(
        UreqBackend::judge(status(199)),
        Err("http status: 199".to_string())
    );
    assert_eq!(
        UreqBackend::judge(status(300)),
        Err("http status: 300".to_string())
    );
    assert_eq!(
        UreqBackend::judge(status(400)),
        Err("http status: 400".to_string())
    );
    assert_eq!(
        UreqBackend::judge(status(500)),
        Err("http status: 500".to_string())
    );
    assert_eq!(
        UreqBackend::judge(no_response()),
        Err("connection refused".to_string())
    );
}

#[test]
fn a_client_error_is_not_sent_again() {
    assert_eq!(
        ReqwestBackend::after_attempt(0, &status(400)),
        RetryDecision::Abandon
    );
    assert_eq!(
        ReqwestBackend::after_attempt(0, &status(404)),
        RetryDecision::Abandon
    );
    assert_eq!(
        ReqwestBackend::after_attempt(2, &status(499)),
        RetryDecision::Abandon
    );
}

#[test]
fn a_server_error_is_sent_again_three_times_and_then_given_up() {
    assert_eq!(MAX_RETRIES, 3);
    let mut retry_count = 0;
    let mut requests = 0;
    loop {
        requests += 1;
        match ReqwestBackend::after_attempt(retry_count, &status(500)) {
            RetryDecision::Retry => retry_count += 1,
            RetryDecision::Abandon => break,
            RetryDecision::Delivered => panic!("a server error is no delivery"),
        }
    }
    assert_eq!(requests, 4);
    assert_eq!(retry_count, 3);
}

#[test]
fn a_missing_answer_is_sent_again_like_a_server_error() {
    assert_eq!(
        ReqwestBackend::after_attempt(0, &no_response()),
        RetryDecision::Retry
    );
    assert_eq!(
        ReqwestBackend::after_attempt(2, &no_response()),
        RetryDecision::Retry
    );
    assert_eq!(
        ReqwestBackend::after_attempt(3, &no_response()),
        RetryDecision::Abandon
    );
    assert_eq!(
        ReqwestBackend::after_attempt(0, &status(302)),
        RetryDecision::Retry
    );
}

#[test]
fn a_success_ends_the_task_whenever_it_comes() {
    assert_eq!(
        ReqwestBackend::after_attempt(0, &status(200)),
        RetryDecision::Delivered
    );
    assert_eq!(
        ReqwestBackend::after_attempt(3, &status(204)),
        RetryDecision::Delivered
    );
}

#[test]
fn the_noop_backend_takes_every_batch_and_holds_nothing() {
    let backend = NoopBackend {};
    assert_eq!(backend.send(Vec::new()), Ok(()));
    assert_eq!(backend.send(b"{\"streams\":[]}".to_vec()), Ok(()));
    assert_eq!(backend.send(vec![0; 4096]), Ok(()));
    assert_eq!(backend.internal_type(), NetworkingBackend::Noop);
    assert_eq!(
        backend.authentication_method(),
        AuthenticationMethod::NoAuth
    );
    assert_eq!(backend.credentials(), None);
    assert!(matches!(
        Backend::Noop(NoopBackend {}).send(vec![1, 2, 3]),
        Ok(Delivery::Discarded)
    ));
}

#[test]
fn each_backend_leaves_its_own_kind_of_delivery() {
    let blocking = Backend::Ureq(ureq_backend(
        "https://loki.example.com",
        AuthenticationMethod::NoAuth,
    ));
    assert!(matches!(
        blocking.send(vec![1]),
        Ok(Delivery::Blocking(_))
    ));
    let background = Backend::Reqwest(ReqwestBackend {
        endpoint: Endpoint::local(),
        authentication: AuthenticationMethod::NoAuth,
        credentials: String::new(),
        runtime_handle: None,
    });
    assert!(matches!(
        background.send(vec![1]),
        Ok(Delivery::Background(_))
    ));
    let stuck = Backend::Ureq(ureq_backend(
        "mailto:logs@example.com",
        AuthenticationMethod::NoAuth,
    ));
    assert!(stuck.send(vec![1]).is_err());
}
