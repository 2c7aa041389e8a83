use std::convert::Infallible;

use hyper_service::service::Readiness;
use hyper_service::util::{service_fn, shared};

#[test]
fn shared_answers_with_held_value_for_any_request() {
    let mut s = shared(String::from("hello"));
    assert!(s.poll_ready().is_ready());
    let a: Result<String, Infallible> = s.call(1u32);
    let b: Result<String, Infallible> = s.call("other request");
    assert_eq!(a.ok(), Some(String::from("hello")));
    assert_eq!(b.ok(), Some(String::from("hello")));
}

#[test]
fn shared_readiness_is_repeatable() {
    let mut s = shared(5u64);
    for _ in 0..3 {
        assert!(matches!(s.poll_ready(), Readiness::Ready));
    }
    assert_eq!(s.call(()).ok(), Some(5u64));
}

#[test]
fn shared_clone_holds_same_value() {
    let s = shared(vec![1u8, 2, 3]);
    let mut c = s.clone();
    assert_eq!(c.call(0u8).ok(), Some(vec![1u8, 2, 3]));
}

#[test]
fn service_fn_passes_handler_result_through() {
    let mut s = service_fn(|req: u32| -> Result<u32, String> {
        if req % 2 == 0 {
            Ok(req * 10)
        } else {
            Err(format!("odd request {}", req))
        }
    });
    assert!(s.poll_ready().is_ready());
    assert_eq!(s.call(4), Ok(40));
    assert_eq!(s.call(3), Err(String::from("odd request 3")));
}

#[test]
fn service_fn_readiness_is_repeatable() {
    let mut s = service_fn(|req: u8| req);
    assert!(s.poll_ready().is_ready());
    assert!(s.poll_ready().is_ready());
    assert_eq!(s.call(9), 9);
}

#[test]
fn service_fn_handler_may_keep_state() {
    let mut count: u32 = 0;
    let mut s = service_fn(move |req: u32| {
        count += 1;
        req + count
    });
    assert_eq!(s.call(10), 11);
    assert_eq!(s.call(10), 12);
}

#[test]
fn service_fn_copy_and_clone() {
    let s = service_fn(|req: u8| req + 1);
    let mut a = s;
    let mut b = s.clone();
    assert_eq!(a.call(1), 2);
    assert_eq!(b.call(2), 3);
}

#[test]
fn readiness_variants() {
    let r: Readiness<String> = Readiness::NotReady;
    assert!(!r.is_ready());
    let f: Readiness<String> = Readiness::Failed(String::from("gone"));
    assert!(!f.is_ready());
}

#[test]
fn service_fn_describes_itself() {
    let s = service_fn(|req: u8| req);
    assert_eq!(s.describe(), "impl Service");
}
