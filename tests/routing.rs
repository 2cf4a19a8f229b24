use std::cell::RefCell;
use std::rc::Rc;

use rss_server::status::{NOT_FOUND, OK};
use rss_server::{Action, Event, HttpError, Resolution, RouteOutcome, RouteResolver, RouterService};

/// A candidate that claims one path and answers with fixed content.
struct SampleRouter {
    content: String,
    path: String,
    /// Status of a hard rejection of every other path, when not "not found".
    reject_with: u16,
    /// Status its dispatch fails with, if it fails.
    fail_with: Option<u16>,
    log: Rc<RefCell<Vec<String>>>,
}

impl SampleRouter {
    fn new(path: &str, content: &str, log: &Rc<RefCell<Vec<String>>>) -> SampleRouter {
        SampleRouter {
            content: content.to_owned(),
            path: path.to_owned(),
            reject_with: NOT_FOUND,
            fail_with: None,
            log: Rc::clone(log),
        }
    }

    fn route(&self, path: &str) -> RouteOutcome {
        self.log.borrow_mut().push(format!("probe {}", self.content));
        if self.path == path {
            RouteOutcome::Matched(OK)
        } else {
            RouteOutcome::Rejected(self.reject_with)
        }
    }

    fn dispatch(&self, status: u16) -> Result<(u16, String), HttpError<String>> {
        self.log.borrow_mut().push(format!("dispatch {}", self.content));
        match self.fail_with {
            Some(code) => Err(HttpError::new(self.path.clone(), code)),
            None => Ok((status, self.content.clone())),
        }
    }
}

/// Renders the numeric status as the body.
struct SampleErrorHandler {
    log: Rc<RefCell<Vec<String>>>,
}

impl SampleErrorHandler {
    fn dispatch(&self, error: HttpError<String>) -> (u16, String) {
        self.log.borrow_mut().push(format!("fallback {}", error.status_code));
        (error.status_code, format!("{}", error.status_code))
    }
}

type Service = RouterService<SampleRouter, SampleErrorHandler>;

fn new_log() -> Rc<RefCell<Vec<String>>> {
    Rc::new(RefCell::new(Vec::new()))
}

fn get_routers(log: &Rc<RefCell<Vec<String>>>) -> Vec<SampleRouter> {
    vec![
        SampleRouter::new("/page1", "page1", log),
        SampleRouter::new("/page2", "page2", log),
        SampleRouter::new("/page3", "page3", log),
    ]
}

fn get_site_service(log: &Rc<RefCell<Vec<String>>>) -> Service {
    RouterService::new(get_routers(log), SampleErrorHandler { log: Rc::clone(log) })
}

/// Runs one request through the engine; returns the response and the actions.
fn serve(service: &Service, path: &str) -> ((u16, String), Vec<Action>) {
    let mut handling = service.handle();
    let mut action = handling.action();
    let mut actions = vec![action];
    let mut response = None;
    let mut failure = None;
    loop {
        let event = match action {
            Action::Probe(i) => Event::Probed(service.router(i).route(path)),
            Action::Dispatch(i, status) => match service.router(i).dispatch(status) {
                Ok(res) => {
                    response = Some(res);
                    Event::Dispatched
                }
                Err(error) => {
                    let code = error.status_code;
                    failure = Some(error);
                    Event::DispatchFailed(code)
                }
            },
            Action::Fallback(status) => {
                let error = failure.take().unwrap_or_else(|| HttpError::new(path.to_owned(), status));
                response = Some(service.error_handler().dispatch(error));
                Event::Rendered
            }
            Action::Respond => break,
        };
        action = handling.on_event(event);
        actions.push(action);
    }
    (response.unwrap(), actions)
}

fn test_resolver_to_page(page: &str, mut resolver: RouteResolver<SampleRouter>) {
    let path = format!("/{}", page);
    let outcome = resolver.get_router().unwrap().route(&path);
    assert_eq!(outcome, RouteOutcome::Matched(OK));
    let status = match resolver.route(outcome) {
        Ok(status) => status,
        Err(status) => panic!("No route found for {}: {}", path, status),
    };
    assert_eq!(status, OK);
    assert!(matches!(resolver.state(), Resolution::Found(_, OK)));
    let (_, body) = resolver.get_router().unwrap().dispatch(status).ok().unwrap();
    assert_eq!(body, page, "Expetted: \"{}\", got \"{}\"", page, body);
}

#[test]
fn test_resolver_to_page1() {
    let log = new_log();
    let routes = Rc::new(get_routers(&log));
    let resolver = RouteResolver::new(&routes);
    test_resolver_to_page("page1", resolver);
}

#[test]
fn test_resolver_to_page2() {
    let log = new_log();
    let routes = Rc::new(get_routers(&log));
    let mut resolver = RouteResolver::new(&routes);
    resolver = resolver.next().ok().unwrap();
    test_resolver_to_page("page2", resolver);
}

#[test]
fn test_resolver_to_page3() {
    let log = new_log();
    let routes = Rc::new(get_routers(&log));
    let mut resolver = RouteResolver::new(&routes);
    resolver = resolver.next().ok().unwrap();
    resolver = resolver.next().ok().unwrap();
    test_resolver_to_page("page3", resolver);
}

#[test]
fn test_resolver_max_resolvers() {
    let log = new_log();
    let routes = Rc::new(get_routers(&log));
    let n_resolvers = routes.len();
    let mut resolver = RouteResolver::new(&routes);
    for _ in 0..n_resolvers - 1 {
        resolver = resolver.next().ok().unwrap();
    }
    assert_eq!(resolver.state(), Resolution::Seeking(n_resolvers - 1));
    assert!(resolver.get_router().is_some());
    let resolver = resolver.next();
    assert!(resolver.is_err());
    assert!(resolver.err().unwrap().get_router().is_none());
}

fn test_router_service_to_page(page: &str) {
    let log = new_log();
    let router_service = get_site_service(&log);
    let ((status, body), _) = serve(&router_service, &format!("/{}", page));
    assert_eq!(status, OK);
    assert_eq!(body, page, "Expetted: \"{}\", got \"{}\"", page, body);
}

#[test]
fn test_router_service_to_page1() {
    test_router_service_to_page("page1");
}

#[test]
fn test_router_service_to_page2() {
    test_router_service_to_page("page2");
}

#[test]
fn test_router_service_to_page3() {
    test_router_service_to_page("page3");
}

#[test]
fn test_router_service_to_page_not_found() {
    let log = new_log();
    let router_service = get_site_service(&log);
    let ((status, body), _) = serve(&router_service, "/notFound");
    assert_eq!(status, NOT_FOUND);
    let expected = format!("{}", NOT_FOUND);
    assert_eq!(body, expected, "Expetted: \"{}\", got \"{}\"", expected, body);
}

fn test_resource(payload: Vec<(&str, u16, &str)>) {
    let log = new_log();
    let service = get_site_service(&log);
    for (page, exp_status, exp_body) in payload {
        let ((status, body), _) = serve(&service, &format!("/{}", page));
        assert_eq!(status, exp_status);
        assert_eq!(body, exp_body);
    }
}

#[test]
fn test_page1() {
    test_resource(vec![("page1", OK, "page1")]);
}

#[test]
fn test_page2() {
    test_resource(vec![("page2", OK, "page2")]);
}

#[test]
fn test_page3() {
    test_resource(vec![("page3", OK, "page3")]);
}

#[test]
fn test_page_not_found() {
    let expected = format!("{}", NOT_FOUND);
    test_resource(vec![("notAValidPage", NOT_FOUND, expected.as_str())]);
}

#[test]
fn test_page_multiple_resources() {
    let expected = format!("{}", NOT_FOUND);
    test_resource(vec![
        ("page3", OK, "page3"),
        ("page3", OK, "page3"),
        ("notAValidPage", NOT_FOUND, expected.as_str()),
        ("page1", OK, "page1"),
    ]);
}

#[test]
fn first_claim_dispatches_and_stops() {
    let log = new_log();
    let mut routers = get_routers(&log);
    routers[1].reject_with = 403;
    let service = RouterService::new(routers, SampleErrorHandler { log: Rc::clone(&log) });
    let ((status, body), actions) = serve(&service, "/page3");
    assert_eq!((status, body.as_str()), (403, "page2"));
    assert_eq!(
        actions,
        vec![Action::Probe(0), Action::Probe(1), Action::Dispatch(1, 403), Action::Respond]
    );
    assert_eq!(*log.borrow(), vec!["probe page1", "probe page2", "dispatch page2"]);
}

#[test]
fn empty_list_falls_back_with_not_found() {
    let log = new_log();
    let service: Service = RouterService::new(Vec::new(), SampleErrorHandler { log: Rc::clone(&log) });
    assert_eq!(service.len(), 0);
    let ((status, body), actions) = serve(&service, "/page1");
    assert_eq!((status, body.as_str()), (404, "404"));
    assert_eq!(actions, vec![Action::Fallback(404), Action::Respond]);
}

#[test]
fn all_miss_probes_each_once_in_order() {
    let log = new_log();
    let service = get_site_service(&log);
    let (_, actions) = serve(&service, "/elsewhere");
    assert_eq!(
        actions,
        vec![
            Action::Probe(0),
            Action::Probe(1),
            Action::Probe(2),
            Action::Fallback(404),
            Action::Respond
        ]
    );
    assert_eq!(
        *log.borrow(),
        vec!["probe page1", "probe page2", "probe page3", "fallback 404"]
    );
}

#[test]
fn failed_dispatch_falls_back_once() {
    let log = new_log();
    let mut routers = get_routers(&log);
    routers[0].fail_with = Some(500);
    let service = RouterService::new(routers, SampleErrorHandler { log: Rc::clone(&log) });
    let ((status, body), actions) = serve(&service, "/page1");
    assert_eq!((status, body.as_str()), (500, "500"));
    assert_eq!(
        actions,
        vec![Action::Probe(0), Action::Dispatch(0, 200), Action::Fallback(500), Action::Respond]
    );
    assert_eq!(*log.borrow(), vec!["probe page1", "dispatch page1", "fallback 500"]);
}

#[test]
fn cursor_advances_and_request_is_bounded() {
    let log = new_log();
    let service = get_site_service(&log);
    for path in ["/page1", "/page2", "/page3", "/none"] {
        let (_, actions) = serve(&service, path);
        assert!(actions.len() <= service.len() + 3);
        let probed: Vec<usize> = actions
            .iter()
            .filter_map(|a| match a {
                Action::Probe(i) => Some(*i),
                _ => None,
            })
            .collect();
        assert!(probed.windows(2).all(|w| w[0] < w[1]));
    }
}

#[test]
fn scenario_page2_and_missing() {
    let log = new_log();
    let service = get_site_service(&log);
    let ((status, body), _) = serve(&service, "/page2");
    assert_eq!((status, body.as_str()), (200, "page2"));
    let dispatched: Vec<String> =
        log.borrow().iter().filter(|l| l.starts_with("dispatch")).cloned().collect();
    assert_eq!(dispatched, vec!["dispatch page2"]);
    let ((status, body), _) = serve(&service, "/missing");
    assert_eq!((status, body.as_str()), (404, "404"));
    assert_eq!(log.borrow().last().unwrap(), "fallback 404");
}

#[test]
fn interleaved_requests_resolve_independently() {
    let log = new_log();
    let service = get_site_service(&log);
    let mut first = service.handle();
    let mut third = service.handle();
    let mut a = first.action();
    let mut b = third.action();
    // Step the two requests in turn, each against its own path.
    while a != Action::Respond || b != Action::Respond {
        if let Action::Probe(i) = a {
            a = first.on_event(Event::Probed(service.router(i).route("/page1")));
        } else if let Action::Dispatch(_, _) = a {
            a = first.on_event(Event::Dispatched);
        }
        if let Action::Probe(i) = b {
            b = third.on_event(Event::Probed(service.router(i).route("/page3")));
        } else if let Action::Dispatch(_, _) = b {
            b = third.on_event(Event::Dispatched);
        }
    }
    assert_eq!(first.current_stage(), rss_server::Stage::Done);
    assert_eq!(third.current_stage(), rss_server::Stage::Done);
    let ((s1, b1), _) = serve(&service, "/page1");
    let ((s3, b3), _) = serve(&service, "/page3");
    assert_eq!((s1, b1.as_str(), s3, b3.as_str()), (200, "page1", 200, "page3"));
}

#[test]
fn events_out_of_turn_change_nothing() {
    let log = new_log();
    let service = get_site_service(&log);
    let mut handling = service.handle();
    assert_eq!(handling.on_event(Event::Dispatched), Action::Probe(0));
    assert_eq!(handling.on_event(Event::Rendered), Action::Probe(0));
    assert_eq!(handling.on_event(Event::Probed(RouteOutcome::Matched(201))), Action::Dispatch(0, 201));
    assert_eq!(handling.on_event(Event::Probed(RouteOutcome::Matched(200))), Action::Dispatch(0, 201));
    assert_eq!(handling.on_event(Event::Dispatched), Action::Respond);
    assert_eq!(handling.on_event(Event::Rendered), Action::Respond);
}

#[test]
fn route_keeps_the_cursor_and_next_moves_it() {
    let log = new_log();
    let routes = Rc::new(get_routers(&log));
    let mut resolver = RouteResolver::new(&routes);
    assert_eq!(resolver.route(RouteOutcome::Rejected(NOT_FOUND)), Err(NOT_FOUND));
    assert_eq!(resolver.state(), Resolution::Seeking(0));
    let mut resolver = resolver.next().ok().unwrap();
    assert_eq!(resolver.state(), Resolution::Seeking(1));
    assert_eq!(resolver.route(RouteOutcome::Rejected(403)), Err(403));
    assert_eq!(resolver.state(), Resolution::Found(1, 403));
    assert_eq!(resolver.get_router().unwrap().content, "page2");
}

#[test]
fn next_moves_on_from_a_found_candidate_until_used_up() {
    let log = new_log();
    let routes = Rc::new(get_routers(&log));
    let mut resolver = RouteResolver::new(&routes);
    assert_eq!(resolver.route(RouteOutcome::Matched(OK)), Ok(OK));
    assert_eq!(resolver.state(), Resolution::Found(0, OK));
    let resolver = resolver.next().ok().unwrap();
    assert_eq!(resolver.state(), Resolution::Seeking(1));
    let resolver = resolver.next().ok().unwrap();
    let used_up = resolver.next().err().unwrap();
    assert_eq!(used_up.state(), Resolution::Exhausted);
    assert!(used_up.get_router().is_none());
    let again = used_up.next().err().unwrap();
    assert_eq!(again.state(), Resolution::Exhausted);
}
