use aitch::middlewares::{
    log_line, with_context, with_error_handling, with_logging, SimpleRouter,
};
use aitch::{
    box_handler, handler_fn, Body, BodyStream, Error, ErrorKind, Handler, Method, Request,
    Responder, Response, ResponseBuilder, StatusCode, Uri,
};
use std::sync::{Arc, Mutex};

fn get(path: &str) -> Request<BodyStream> {
    Request::new(Method::Get, Uri::parse(path).unwrap(), ().into_stream())
}

fn text(resp: Response<BodyStream>) -> String {
    String::from_stream(resp.into_body()).unwrap()
}

fn named(name: &'static str) -> impl Handler<(), Resp = Result<Response<String>, Error>> {
    handler_fn(move |_: Request<()>, resp: ResponseBuilder| resp.body(name.to_owned()))
}

fn routed(router: &SimpleRouter, path: &str) -> Option<String> {
    router.handler(&Uri::parse(path).unwrap()).map(|(pattern, _)| pattern.clone())
}

#[test]
fn longest_prefix_wins() {
    let mut router = SimpleRouter::new();
    router.register_handler("/", named("root"));
    router.register_handler("/handler2", named("2"));
    router.register_handler("/handler11", named("11"));

    assert_eq!(routed(&router, "/handler11"), Some("/handler11".to_owned()));
    assert_eq!(routed(&router, "/handler11/more"), Some("/handler11".to_owned()));
    assert_eq!(routed(&router, "/handler1"), Some("/".to_owned()));
    assert_eq!(routed(&router, "/handler2"), Some("/handler2".to_owned()));
    assert_eq!(routed(&router, "/handler22?x=/handler11"), Some("/handler2".to_owned()));
    assert_eq!(routed(&router, "/other"), Some("/".to_owned()));

    let out = router.handle(get("/handler11"), ResponseBuilder::new()).unwrap();
    assert_eq!(text(out), "11");
    let out = router.handle(get("/handler1"), ResponseBuilder::new()).unwrap();
    assert_eq!(text(out), "root");
}

#[test]
fn order_of_registration_does_not_matter() {
    let mut router = SimpleRouter::new();
    router.register_handler("/path/ab", named("ab"));
    router.register_handler("/path/a", named("a"));
    router.register_handler("/path", named("path"));
    assert_eq!(routed(&router, "/path/abc/"), Some("/path/ab".to_owned()));
    assert_eq!(routed(&router, "/path/a/"), Some("/path/a".to_owned()));
    assert_eq!(routed(&router, "/path/x"), Some("/path".to_owned()));

    let mut router = SimpleRouter::new();
    router.register_handler("/path", named("path"));
    router.register_handler("/path/a", named("a"));
    router.register_handler("/path/ab", named("ab"));
    assert_eq!(routed(&router, "/path/abc/"), Some("/path/ab".to_owned()));
    assert_eq!(routed(&router, "/path/a/"), Some("/path/a".to_owned()));
    assert_eq!(routed(&router, "/path/x"), Some("/path".to_owned()));
}

#[test]
fn unregistered_path_is_not_found() {
    let mut router = SimpleRouter::new();
    assert!(router.handler(&Uri::parse("/unregistered").unwrap()).is_none());
    router.register_handler("/handler2", named("2"));
    router.register_handler("/handler11", named("11"));
    assert!(router.handler(&Uri::parse("/unregistered").unwrap()).is_none());
    assert!(router.handler(&Uri::parse("/handler").unwrap()).is_none());

    let out = router.handle(get("/unregistered"), ResponseBuilder::new()).unwrap();
    assert_eq!(out.status().as_u16(), 404);
    assert_eq!(out.headers().len(), 0);
    assert_eq!(text(out), "");
}

#[test]
fn not_found_keeps_what_the_builder_has() {
    let router = SimpleRouter::new();
    let out =
        router.handle(get("/"), ResponseBuilder::new().header("X-Seen", "yes")).unwrap();
    assert_eq!(out.status().as_u16(), 404);
    assert_eq!(out.headers().name_at(0), "x-seen");
    let out = router.handle(get("/"), ResponseBuilder::new().header("bad name", "yes"));
    assert_eq!(out.err(), Some(Error { kind: ErrorKind::InvalidHeaderName }));
}

#[test]
fn patterns_are_registered_once() {
    let mut router = SimpleRouter::new();
    assert!(!router.is_registered("/a"));
    router.register_handler("/a", named("a"));
    assert!(router.is_registered("/a"));
    assert!(!router.is_registered("/A"));
    assert!(!router.is_registered("/a/"));
    assert!(!router.is_registered("/"));
}

#[test]
fn a_pattern_is_not_registered_twice() {
    let mut router = SimpleRouter::new();
    assert!(router.try_register_handler("/a", named("first")));
    assert!(!router.try_register_handler("/a", named("second")));
    assert!(router.try_register_handler("/a/b", named("third")));
    let out = router.handle(get("/a"), ResponseBuilder::new()).unwrap();
    assert_eq!(text(out), "first");
    let out = router.handle(get("/a/b/c"), ResponseBuilder::new()).unwrap();
    assert_eq!(text(out), "third");
}

#[test]
fn patterns_are_measured_in_bytes() {
    let mut router = SimpleRouter::new();
    router.register_handler("/caf", named("short"));
    router.register_handler("/caf%C3%A9", named("long"));
    assert_eq!(routed(&router, "/caf%C3%A9/menu"), Some("/caf%C3%A9".to_owned()));
    assert_eq!(routed(&router, "/caf%C3/menu"), Some("/caf".to_owned()));
}

#[test]
fn routers_nest() {
    let mut inner = SimpleRouter::new();
    inner.register_handler("/api/users", named("users"));
    let mut outer = SimpleRouter::new();
    outer.register_handler("/api", inner);
    outer.register_handler("/", named("root"));

    let out = outer.handle(get("/api/users/7"), ResponseBuilder::new()).unwrap();
    assert_eq!(text(out), "users");
    let out = outer.handle(get("/api/other"), ResponseBuilder::new()).unwrap();
    assert_eq!(out.status().as_u16(), 404);
    let out = outer.handle(get("/home"), ResponseBuilder::new()).unwrap();
    assert_eq!(text(out), "root");
}

#[test]
fn boxed_handler_answers_as_the_handler_does() {
    let echo = |req: Request<String>, resp: ResponseBuilder| {
        resp.status(203).header("X-Echo", "1").body(req.into_body())
    };
    let direct = handler_fn(echo)
        .handle(
            Request::new(Method::Post, Uri::parse("/").unwrap(), "some body".to_owned()),
            ResponseBuilder::new(),
        )
        .into_response()
        .unwrap();
    let boxed = box_handler(handler_fn(echo))
        .handle(
            Request::new(
                Method::Post,
                Uri::parse("/").unwrap(),
                "some body".to_owned().into_stream(),
            ),
            ResponseBuilder::new(),
        )
        .unwrap();

    assert_eq!(boxed.status(), direct.status());
    assert_eq!(boxed.status().as_u16(), 203);
    assert_eq!(boxed.headers().len(), direct.headers().len());
    assert_eq!(boxed.headers().name_at(0), direct.headers().name_at(0));
    assert_eq!(boxed.headers().value_at(0), direct.headers().value_at(0));
    let boxed: Vec<u8> = Vec::from_stream(boxed.into_body()).unwrap();
    let direct: Vec<u8> = Vec::from_stream(direct.into_body()).unwrap();
    assert_eq!(boxed, direct);
    assert_eq!(boxed, b"some body".to_vec());
}

#[test]
fn boxed_handler_fails_where_the_body_is_unreadable() {
    let boxed = box_handler(handler_fn(|req: Request<String>, resp: ResponseBuilder| {
        resp.body(req.into_body())
    }));
    let body: Vec<u8> = vec![0xff];
    let out = boxed.handle(
        Request::new(Method::Post, Uri::parse("/").unwrap(), body.into_stream()),
        ResponseBuilder::new(),
    );
    assert_eq!(out.err(), Some(Error { kind: ErrorKind::Utf8 }));
}

#[test]
fn boxed_handler_hands_on_the_failure_of_the_handler() {
    let boxed = box_handler(handler_fn(|_: Request<()>, _: ResponseBuilder| {
        Err::<Response<()>, Error>(Error::new(ErrorKind::Transport))
    }));
    let out = boxed.handle(get("/"), ResponseBuilder::new());
    assert_eq!(out.err(), Some(Error { kind: ErrorKind::Transport }));
}

#[test]
fn context_is_given_with_every_request() {
    let handler = with_context(
        Arc::new("Hello from a world with context!".to_owned()),
        |ctx: Arc<String>, _: Request<()>, resp: ResponseBuilder| resp.body((*ctx).clone()),
    );
    for _ in 0..2 {
        let out = handler
            .handle(Request::new(Method::Get, Uri::parse("/").unwrap(), ()), ResponseBuilder::new())
            .unwrap();
        assert_eq!(out.body(), "Hello from a world with context!");
    }
}

#[test]
fn failures_are_answered_by_the_function() {
    let failing = handler_fn(|req: Request<String>, resp: ResponseBuilder| {
        if req.body() == "fail" {
            Err(Error::new(ErrorKind::Transport))
        } else {
            resp.body(req.into_body())
        }
    });
    let handler = with_error_handling(failing, |error: Error| {
        ResponseBuilder::new().status(502).body(error.description())
    });

    let out = handler
        .handle(
            Request::new(Method::Get, Uri::parse("/").unwrap(), "fine".to_owned()),
            ResponseBuilder::new(),
        )
        .unwrap();
    assert_eq!(out.status().as_u16(), 200);
    assert_eq!(text(out), "fine");

    let out = handler
        .handle(
            Request::new(Method::Get, Uri::parse("/").unwrap(), "fail".to_owned()),
            ResponseBuilder::new(),
        )
        .unwrap();
    assert_eq!(out.status().as_u16(), 502);
    assert_eq!(text(out), "transport failure");
}

#[test]
fn failures_of_the_function_stay_failures() {
    let failing = handler_fn(|_: Request<()>, _: ResponseBuilder| {
        Err::<Response<()>, Error>(Error::new(ErrorKind::Transport))
    });
    let handler = with_error_handling(failing, |_: Error| {
        Err::<Response<()>, Error>(Error::new(ErrorKind::Json))
    });
    let out = handler
        .handle(Request::new(Method::Get, Uri::parse("/").unwrap(), ()), ResponseBuilder::new());
    assert_eq!(out.err(), Some(Error { kind: ErrorKind::Json }));
}

#[test]
fn answered_requests_are_logged() {
    let lines: Arc<Mutex<Vec<String>>> = Arc::new(Mutex::new(Vec::new()));
    let sink = {
        let lines = lines.clone();
        move |line: String| lines.lock().unwrap().push(line)
    };
    let handler = with_logging(
        handler_fn(|req: Request<()>, resp: ResponseBuilder| {
            if req.uri().path() == "/fail" {
                Err(Error::new(ErrorKind::Transport))
            } else if req.uri().path() == "/missing" {
                resp.status(404).body(())
            } else {
                resp.body(())
            }
        }),
        sink,
    );

    let request = |method: Method, path: &str| Request::new(method, Uri::parse(path).unwrap(), ());
    let out = handler.handle(request(Method::Get, "/"), ResponseBuilder::new()).unwrap();
    assert_eq!(out.status().as_u16(), 200);
    let out = handler
        .handle(request(Method::Post, "/path/doesnt/matter?in=this"), ResponseBuilder::new())
        .unwrap();
    assert_eq!(out.status().as_u16(), 200);
    let out = handler.handle(request(Method::Get, "/fail"), ResponseBuilder::new());
    assert_eq!(out.err(), Some(Error { kind: ErrorKind::Transport }));
    let out = handler
        .handle(request(Method::Extension("PURGE".to_owned()), "/missing"), ResponseBuilder::new())
        .unwrap();
    assert_eq!(out.status().as_u16(), 404);

    assert_eq!(
        *lines.lock().unwrap(),
        vec![
            "GET / 200".to_owned(),
            "POST /path/doesnt/matter 200".to_owned(),
            "PURGE /missing 404".to_owned()
        ]
    );
}

#[test]
fn log_lines_spell_method_path_and_status() {
    let uri = Uri::parse("/a/b?c=d").unwrap();
    assert_eq!(log_line(&Method::Get, &uri, StatusCode::ok()), "GET /a/b 200");
    assert_eq!(
        log_line(&Method::Delete, &uri, StatusCode::from_u16(100).unwrap()),
        "DELETE /a/b 100"
    );
    assert_eq!(
        log_line(&Method::Extension("X".to_owned()), &uri, StatusCode::from_u16(599).unwrap()),
        "X /a/b 599"
    );
}

#[test]
fn pending_computation_runs_when_it_is_resolved() {
    let ran = Arc::new(Mutex::new(false));
    let flag = ran.clone();
    let responder = aitch::pending(move || {
        *flag.lock().unwrap() = true;
        ResponseBuilder::new().status(202).body("later".to_owned())
    });
    assert!(!*ran.lock().unwrap());
    let out = responder.into_response().unwrap();
    assert!(*ran.lock().unwrap());
    assert_eq!(out.status().as_u16(), 202);
    assert_eq!(text(out), "later");
}

#[test]
fn handlers_may_return_pending_computations() {
    let handler = handler_fn(|req: Request<String>, resp: ResponseBuilder| {
        aitch::pending(move || resp.body(req.into_body()))
    });
    let out = box_handler(handler)
        .handle(
            Request::new(Method::Post, Uri::parse("/").unwrap(), "deferred".to_owned().into_stream()),
            ResponseBuilder::new(),
        )
        .unwrap();
    assert_eq!(text(out), "deferred");
}

#[test]
fn responses_resolve_to_themselves() {
    let resp = ResponseBuilder::new().status(201).header("X-A", "b").body(vec![1u8, 2]).unwrap();
    let out = resp.into_response().unwrap();
    assert_eq!(out.status().as_u16(), 201);
    assert_eq!(out.headers().name_at(0), "x-a");
    assert_eq!(Vec::<u8>::from_stream(out.into_body()), Ok(vec![1, 2]));

    let failed: Result<Response<()>, Error> = Err(Error::new(ErrorKind::Json));
    assert_eq!(failed.into_response().err(), Some(Error { kind: ErrorKind::Json }));
}
