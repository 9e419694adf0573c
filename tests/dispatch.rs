use web_server::job::Job;
use web_server::method::Method;
use web_server::pool::{Admission, WorkerPool};
use web_server::request::{Request, RequestLineError};
use web_server::response::Response;
use web_server::server::{Dispatch, WebServer};
use web_server::status::Status;
use web_server::version::Version;

type Handler = fn(Request<u32>) -> Response<u32>;

fn slow(request: Request<u32>) -> Response<u32> {
    let mut response = Response::from_request(request, Status::ok());
    response.add_content("slow done");
    response
}

fn index(request: Request<u32>) -> Response<u32> {
    let mut response = Response::from_request(request, Status::ok());
    response.add_content("index");
    response
}

fn not_found(request: Request<u32>) -> Response<u32> {
    Response::not_found(request, "<h1>Not found</h1>")
}

fn server(capacity: usize, backlog: usize) -> WebServer<u32, Handler> {
    let mut s: WebServer<u32, Handler> =
        WebServer::new(capacity, backlog, web_server::server::Debug::False, not_found as Handler);
    s.add_listener(Method::get("/slow").unwrap(), slow as Handler)
        .add_listener(Method::get("/").unwrap(), index as Handler);
    s
}

fn request(line: &str, conn: u32) -> Request<u32> {
    Request::from_line(line, conn).unwrap()
}

fn execute(job: Job<u32, Handler>) -> Response<u32> {
    (job.listener)(job.request)
}

#[test]
fn saturation_scenario_two_slots_one_waiting() {
    let mut s = server(2, 1);
    let mut outcomes = Vec::new();
    for conn in 0..4u32 {
        outcomes.push(s.handle(request("GET /slow HTTP/1.1", conn)));
    }
    let mut outcomes = outcomes.into_iter();
    let first = match outcomes.next().unwrap() {
        Dispatch::Run(job) => execute(job),
        other => panic!("unexpected {:?}", other),
    };
    let second = match outcomes.next().unwrap() {
        Dispatch::Run(job) => execute(job),
        other => panic!("unexpected {:?}", other),
    };
    assert!(matches!(outcomes.next().unwrap(), Dispatch::Queued));
    let fourth = match outcomes.next().unwrap() {
        Dispatch::Rejected(response) => response,
        other => panic!("unexpected {:?}", other),
    };
    assert_eq!(fourth.status(), Status::service_unavailable());
    assert_eq!(
        fourth.to_string(),
        "HTTP/1.1 503 SERVICE UNAVAILABLE\r\nContent-Length: 0\r\n\r\n"
    );
    assert_eq!(fourth.into_parts().1, 3);
    assert_eq!(first.status(), Status::ok());
    assert_eq!(second.status(), Status::ok());
    assert_eq!(s.workers().busy(), 2);
    assert_eq!(s.workers().backlog_len(), 1);

    assert!(s.drain_backlog().is_empty());
    let drained = s.job_done();
    assert_eq!(drained.len(), 1);
    let third = execute(drained.into_iter().next().unwrap());
    assert_eq!(third.status(), Status::ok());
    assert_eq!(third.contents(), "slow done");
    assert_eq!(third.into_parts().1, 2);
    assert_eq!(s.workers().busy(), 2);
    assert_eq!(s.workers().backlog_len(), 0);
    assert_eq!(s.request_count(), 4);
}

#[test]
fn not_found_for_unregistered_method() {
    let mut s = server(1, 0);
    match s.handle(request("DELETE /x HTTP/1.1", 7)) {
        Dispatch::Run(job) => {
            let response = execute(job);
            assert_eq!(response.status(), Status::not_found());
            assert_eq!(response.contents(), "<h1>Not found</h1>");
            assert_eq!(
                response.to_string(),
                "HTTP/1.1 404 NOT FOUND\r\nContent-Length: 18\r\n\r\n<h1>Not found</h1>"
            );
        }
        other => panic!("unexpected {:?}", other),
    }
}

#[test]
fn registered_method_gets_its_handler() {
    let s = server(1, 0);
    let h = s.listener_for(&Method::get("/").unwrap());
    let response = h(request("GET / HTTP/1.1", 1));
    assert_eq!(response.contents(), "index");
    assert!(s.is_registered(&Method::get("/slow").unwrap()));
    assert!(!s.is_registered(&Method::post("/slow").unwrap()));
}

#[test]
fn backlog_is_first_in_first_out() {
    let mut s = server(1, 3);
    assert!(matches!(s.handle(request("GET / HTTP/1.1", 0)), Dispatch::Run(_)));
    for conn in 1..4u32 {
        assert!(matches!(s.handle(request("GET / HTTP/1.1", conn)), Dispatch::Queued));
    }
    let mut order = Vec::new();
    for _ in 0..3 {
        for job in s.job_done() {
            order.push(execute(job).into_parts().1);
        }
    }
    assert_eq!(order, vec![1, 2, 3]);
}

#[test]
fn every_request_gets_exactly_one_answer() {
    let mut s = server(2, 2);
    let mut answered: Vec<u32> = Vec::new();
    let mut running = 0usize;
    for conn in 0..10u32 {
        match s.handle(request("GET /slow HTTP/1.1", conn)) {
            Dispatch::Run(job) => {
                running += 1;
                answered.push(execute(job).into_parts().1);
            }
            Dispatch::Queued => {}
            Dispatch::Rejected(response) => answered.push(response.into_parts().1),
        }
        if conn % 3 == 2 && running > 0 {
            running -= 1;
            for job in s.job_done() {
                running += 1;
                answered.push(execute(job).into_parts().1);
            }
        }
    }
    while s.workers().backlog_len() > 0 {
        running -= 1;
        for job in s.job_done() {
            running += 1;
            answered.push(execute(job).into_parts().1);
        }
    }
    answered.sort();
    assert_eq!(answered, (0..10u32).collect::<Vec<_>>());
}

#[test]
fn pool_decisions_at_saturation() {
    let mut pool: WorkerPool<u8> = WorkerPool::new(3, 2);
    let mut kinds = Vec::new();
    for job in 0..6u8 {
        kinds.push(match pool.execute(job) {
            Admission::Run(_) => 'r',
            Admission::Queued => 'q',
            Admission::Rejected(j) => {
                assert_eq!(j, 5);
                'x'
            }
        });
    }
    assert_eq!(kinds, vec!['r', 'r', 'r', 'q', 'q', 'x']);
    assert!(!pool.is_any_available());
    pool.release();
    pool.release();
    assert!(pool.is_any_available());
    assert_eq!(pool.drain_backlog(), vec![3, 4]);
    assert_eq!(pool.busy(), 3);
    assert_eq!(pool.capacity(), 3);
    assert_eq!(pool.backlog_limit(), 2);
}

#[test]
fn zero_backlog_rejects_at_once() {
    let mut pool: WorkerPool<u8> = WorkerPool::new(1, 0);
    assert!(matches!(pool.execute(1), Admission::Run(1)));
    assert!(matches!(pool.execute(2), Admission::Rejected(2)));
}

#[test]
fn request_line_parsing() {
    let r = request("GET /a HTTP/1.1", 5);
    assert!(*r.method() == Method::get("/a").unwrap());
    assert_eq!(r.version(), Version::http_1_1());
    let r = request("post /b  http/2", 6);
    assert!(*r.method() == Method::post("/b").unwrap());
    assert_eq!(r.version(), Version::http_2());
    let (m, v, c) = request("HEAD / HTTP/1.0", 9).take_content();
    assert!(m == Method::head("/").unwrap());
    assert_eq!(v, Version::http_1());
    assert_eq!(c, 9);
}

#[test]
fn request_line_errors_hand_the_connection_back() {
    match Request::from_line("BREW /pot HTTP/1.1", 4u32) {
        Err((RequestLineError::Method(_), c)) => assert_eq!(c, 4),
        other => panic!("unexpected {:?}", other),
    }
    match Request::from_line("GET /pot HTTP/9", 5u32) {
        Err((RequestLineError::Version(e), c)) => {
            assert_eq!(c, 5);
            assert_eq!(e.to_string(), "Invalid HTTP version: 'HTTP/9'");
        }
        other => panic!("unexpected {:?}", other),
    }
    match Request::from_line("GET /pot", 6u32) {
        Err((RequestLineError::Version(e), _)) => assert_eq!(e.to_string(), "Invalid HTTP version: ''"),
        other => panic!("unexpected {:?}", other),
    }
    match Request::from_line("", 6u32) {
        Err((RequestLineError::Method(_), _)) => {}
        other => panic!("unexpected {:?}", other),
    }
}

#[test]
fn response_wire_text() {
    let mut r = Response::new(Version::http_1_1(), Status::ok(), ());
    r.add_content("hello");
    assert_eq!(r.to_string(), "HTTP/1.1 200 OK\r\nContent-Length: 5\r\n\r\nhello");
    let mut r = Response::new(Version::http_2(), Status::bad_request(), ());
    r.add_content("é");
    assert_eq!(r.to_string(), "HTTP/2 400 BAD REQUEST\r\nContent-Length: 2\r\n\r\né");
    let r = Response::new(Version::http_1(), Status::service_unavailable(), ());
    assert_eq!(r.to_string(), "HTTP/1 503 SERVICE UNAVAILABLE\r\nContent-Length: 0\r\n\r\n");
    let mut r = Response::new(Version::http_3(), Status::internal_error(), ());
    r.add_content(&"x".repeat(1234));
    assert!(r.to_string().starts_with("HTTP/3 500 INTERNAL ERROR\r\nContent-Length: 1234\r\n\r\nxx"));
}

#[test]
fn debug_flag_and_counter() {
    assert_eq!(web_server::server::Debug::from(true), web_server::server::Debug::True);
    assert_eq!(web_server::server::Debug::from(false), web_server::server::Debug::False);
    let mut s: WebServer<u32, Handler> =
        WebServer::new(1, 0, web_server::server::Debug::from(true), not_found as Handler);
    assert!(s.is_debug());
    assert_eq!(s.request_count(), 0);
    let _ = s.handle(request("GET / HTTP/1.1", 0));
    assert_eq!(s.request_count(), 1);
}

#[test]
fn unparsable_line_gets_bad_request() {
    let (error, conn) = Request::from_line("BREW /pot HTTP/1.1", 8u32).unwrap_err();
    let response = Response::bad_request(&error, conn);
    assert_eq!(response.status(), Status::bad_request());
    assert_eq!(response.version(), Version::http_1_1());
    assert_eq!(response.contents(), "Invalid Method: 'BREW'");
    assert_eq!(
        response.to_string(),
        "HTTP/1.1 400 BAD REQUEST\r\nContent-Length: 22\r\n\r\nInvalid Method: 'BREW'"
    );
    assert_eq!(response.into_parts().1, 8);
    let (error, _) = Request::from_line("GET / HTTP/7", 0u32).unwrap_err();
    assert_eq!(error.to_string(), "Invalid HTTP version: 'HTTP/7'");
}

#[test]
fn finished_job_starts_the_oldest_waiting_one() {
    let mut s = server(1, 2);
    assert!(matches!(s.handle(request("GET / HTTP/1.1", 0)), Dispatch::Run(_)));
    assert!(matches!(s.handle(request("GET /slow HTTP/1.1", 1)), Dispatch::Queued));
    assert!(matches!(s.handle(request("GET / HTTP/1.1", 2)), Dispatch::Queued));
    let started = s.job_done();
    assert_eq!(started.len(), 1);
    let response = execute(started.into_iter().next().unwrap());
    assert_eq!(response.contents(), "slow done");
    assert_eq!(response.into_parts().1, 1);
    assert_eq!(s.workers().busy(), 1);
    assert_eq!(s.workers().backlog_len(), 1);
}

#[test]
fn built_in_answers_for_not_found_and_unavailable() {
    let r = Response::not_found(request("HEAD /gone HTTP/2", 3), "gone");
    assert_eq!(r.to_string(), "HTTP/2 404 NOT FOUND\r\nContent-Length: 4\r\n\r\ngone");
    assert_eq!(r.into_parts().1, 3);
    let r = Response::service_unavailable(request("GET / HTTP/1", 4));
    assert_eq!(r.to_string(), "HTTP/1 503 SERVICE UNAVAILABLE\r\nContent-Length: 0\r\n\r\n");
    assert_eq!(r.into_parts().1, 4);
}

#[test]
fn request_line_verb_upper_cased_by_unicode_rules() {
    let r = request("poſt /a HTTP/1.1", 1);
    assert!(*r.method() == Method::post("/a").unwrap());
    assert_eq!(r.version(), Version::http_1_1());
}
