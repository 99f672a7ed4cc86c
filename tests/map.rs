use std::cell::Cell;
use std::rc::Rc;
use std::task::{Context, Waker};

use service_map::{MapService, MapServiceFactory, Poll, Pollable, Service, ServiceFactory};

/// An in-flight result that resolves to its value after `delay` pending polls.
struct Later<T> {
    delay: u32,
    value: Option<T>,
}

fn ready<T>(value: T) -> Later<T> {
    Later { delay: 0, value: Some(value) }
}

impl<T> Pollable for Later<T> {
    type Output = T;

    fn poll(&mut self, cx: &mut Context<'_>) -> Poll<T> {
        if self.delay > 0 {
            self.delay -= 1;
            cx.waker().wake_by_ref();
            Poll::Pending
        } else {
            Poll::Ready(self.value.take().expect("polled after completion"))
        }
    }
}

fn run<P: Pollable>(mut op: P) -> P::Output {
    let mut cx = Context::from_waker(Waker::noop());
    loop {
        if let Poll::Ready(out) = op.poll(&mut cx) {
            return out;
        }
    }
}

#[derive(Clone)]
struct Srv;

impl Service<()> for Srv {
    type Response = ();
    type Error = ();
    type Future = Later<Result<(), ()>>;

    fn poll_ready(&mut self, _: &mut Context<'_>) -> Poll<Result<(), ()>> {
        Poll::Ready(Ok(()))
    }

    fn call(&mut self, _: ()) -> Self::Future {
        ready(Ok(()))
    }
}

/// A service whose readiness and calls are scripted.
#[derive(Clone)]
struct Scripted {
    ready: Poll<Result<(), String>>,
    delay: u32,
    checks: Rc<Cell<u32>>,
}

impl Service<i64> for Scripted {
    type Response = i64;
    type Error = String;
    type Future = Later<Result<i64, String>>;

    fn poll_ready(&mut self, _: &mut Context<'_>) -> Poll<Result<(), String>> {
        self.checks.set(self.checks.get() + 1);
        self.ready.clone()
    }

    fn call(&mut self, req: i64) -> Self::Future {
        let value = if req < 0 { Err(format!("negative: {}", req)) } else { Ok(req) };
        Later { delay: self.delay, value: Some(value) }
    }
}

fn scripted(ready: Poll<Result<(), String>>, delay: u32) -> Scripted {
    Scripted { ready, delay, checks: Rc::new(Cell::new(0)) }
}

struct SrvFactory;

impl ServiceFactory<()> for SrvFactory {
    type Response = ();
    type Error = ();
    type Config = ();
    type Service = Srv;
    type InitError = ();
    type Future = Later<Result<Srv, ()>>;

    fn new_service(&self, _: ()) -> Self::Future {
        ready(Ok(Srv))
    }
}

/// A factory that fails for a configuration of zero, and builds after `cfg - 1` pending polls
/// otherwise.
#[derive(Clone)]
struct ScriptedFactory;

impl ServiceFactory<i64> for ScriptedFactory {
    type Response = i64;
    type Error = String;
    type Config = u32;
    type Service = Scripted;
    type InitError = u32;
    type Future = Later<Result<Scripted, u32>>;

    fn new_service(&self, cfg: u32) -> Self::Future {
        if cfg == 0 {
            Later { delay: 0, value: Some(Err(404)) }
        } else {
            Later { delay: cfg - 1, value: Some(Ok(scripted(Poll::Ready(Ok(())), 0))) }
        }
    }
}

fn noop_cx() -> Context<'static> {
    Context::from_waker(Waker::noop())
}

#[test]
fn test_poll_ready() {
    let mut srv = MapService::new(Srv, |_| "ok");
    let res = srv.poll_ready(&mut noop_cx());
    assert_eq!(res, Poll::Ready(Ok(())));
}

#[test]
fn test_call() {
    let mut srv = MapService::new(Srv, |_| "ok");
    let res = run(srv.call(()));
    assert!(res.is_ok());
    assert_eq!(res.unwrap(), "ok");
}

#[test]
fn test_new_service() {
    let new_srv = MapServiceFactory::new(SrvFactory, |_| "ok");
    let mut srv = run(new_srv.new_service(())).unwrap();
    let res = run(srv.call(()));
    assert!(res.is_ok());
    assert_eq!(res.unwrap(), ("ok"));
}

#[test]
fn readiness_pending_passes_through() {
    let mut srv = MapService::new(scripted(Poll::Pending, 0), |v: i64| v * 2);
    assert_eq!(srv.poll_ready(&mut noop_cx()), Poll::Pending);
}

#[test]
fn readiness_error_passes_through() {
    let inner = scripted(Poll::Ready(Err("busy".to_string())), 0);
    let checks = inner.checks.clone();
    let mut srv = MapService::new(inner, |v: i64| v * 2);
    assert_eq!(srv.poll_ready(&mut noop_cx()), Poll::Ready(Err("busy".to_string())));
    assert_eq!(checks.get(), 1);
}

#[test]
fn success_is_transformed() {
    let mut srv = MapService::new(scripted(Poll::Ready(Ok(())), 0), |v: i64| v * 2 + 1);
    assert_eq!(run(srv.call(20)), Ok(41));
}

#[test]
fn error_passes_through_without_application() {
    let applied = Rc::new(Cell::new(0u32));
    let counter = applied.clone();
    let mut srv = MapService::new(scripted(Poll::Ready(Ok(())), 0), move |v: i64| {
        counter.set(counter.get() + 1);
        v + 1
    });
    assert_eq!(run(srv.call(-3)), Err("negative: -3".to_string()));
    assert_eq!(applied.get(), 0);
}

#[test]
fn function_applied_once_after_pending_polls() {
    let applied = Rc::new(Cell::new(0u32));
    let counter = applied.clone();
    let mut srv = MapService::new(scripted(Poll::Ready(Ok(())), 3), move |v: i64| {
        counter.set(counter.get() + 1);
        v * 10
    });
    let mut fut = srv.call(7);
    let mut cx = noop_cx();
    for _ in 0..3 {
        assert_eq!(fut.poll(&mut cx), Poll::Pending);
        assert_eq!(applied.get(), 0);
    }
    assert_eq!(fut.poll(&mut cx), Poll::Ready(Ok(70)));
    assert_eq!(applied.get(), 1);
}

#[test]
fn call_does_not_apply_eagerly() {
    let applied = Rc::new(Cell::new(0u32));
    let counter = applied.clone();
    let mut srv = MapService::new(scripted(Poll::Ready(Ok(())), 0), move |v: i64| {
        counter.set(counter.get() + 1);
        v
    });
    let fut = srv.call(5);
    assert_eq!(applied.get(), 0);
    assert_eq!(run(fut), Ok(5));
    assert_eq!(applied.get(), 1);
}

#[test]
fn clone_is_independent() {
    let srv = MapService::new(scripted(Poll::Ready(Ok(())), 0), |v: i64| v - 1);
    let mut copy = srv.clone();
    let mut srv = srv;
    assert_eq!(run(copy.call(10)), Ok(9));
    assert_eq!(run(srv.call(0)), Ok(-1));
}

#[test]
fn future_new_applies_function_to_success() {
    let fut = service_map::MapFuture::<Srv, _, (), u8>::new(ready(Ok(())), |_| 9u8);
    assert_eq!(run(fut), Ok(9));
}

#[test]
fn construction_propagates_function() {
    let factory = MapServiceFactory::new(ScriptedFactory, |v: i64| format!("<{}>", v));
    let mut srv = run(factory.new_service(3)).unwrap();
    assert_eq!(srv.poll_ready(&mut noop_cx()), Poll::Ready(Ok(())));
    assert_eq!(run(srv.call(12)), Ok("<12>".to_string()));
    assert_eq!(run(srv.call(-1)), Err("negative: -1".to_string()));
}

#[test]
fn construction_pending_then_ready() {
    let factory = MapServiceFactory::new(ScriptedFactory, |v: i64| v);
    let mut fut = factory.new_service(2);
    let mut cx = noop_cx();
    assert!(matches!(fut.poll(&mut cx), Poll::Pending));
    assert!(matches!(fut.poll(&mut cx), Poll::Ready(Ok(_))));
}

#[test]
fn construction_failure_passes_through() {
    let factory = MapServiceFactory::new(ScriptedFactory, |v: i64| v);
    assert!(matches!(run(factory.new_service(0)), Err(404)));
}

#[test]
fn factory_clone_constructs_alike() {
    let factory = MapServiceFactory::new(ScriptedFactory, |v: i64| v * v);
    let copy = factory.clone();
    let mut a = run(factory.new_service(1)).unwrap();
    let mut b = run(copy.new_service(1)).unwrap();
    assert_eq!(run(a.call(6)), Ok(36));
    assert_eq!(run(b.call(6)), Ok(36));
}
