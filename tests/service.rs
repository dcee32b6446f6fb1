use snowpity_tg::platform::Platform;
use snowpity_tg::query::PostId;
use snowpity_tg::service::{fan_out, Action, Event, Service, MAX_IN_FLIGHT};

fn post(media: u64) -> PostId {
    PostId { platform: Platform::Derpibooru, media }
}

#[test]
fn coalesces_identical_requests() {
    let mut s: Service<u32> = Service::new();
    let mut spawned = 0;
    for slot in 0..10u32 {
        if s.process_request(post(7), slot) {
            spawned += 1;
        }
    }
    assert_eq!(spawned, 1);
    assert_eq!(s.total_in_flight(), 10);
    let slots = s.dispatch_response(post(7));
    assert_eq!(slots, (0..10).collect::<Vec<u32>>());
    assert_eq!(s.total_in_flight(), 0);
}

#[test]
fn distinct_posts_each_spawn() {
    let mut s: Service<u32> = Service::new();
    assert!(s.process_request(post(1), 1));
    assert!(s.process_request(post(2), 2));
    assert!(!s.process_request(post(1), 3));
    assert_eq!(s.dispatch_response(post(2)), vec![2]);
    assert_eq!(s.dispatch_response(post(1)), vec![1, 3]);
    assert!(s.process_request(post(1), 4));
}

#[test]
fn backpressure_stops_intake_past_the_limit() {
    let mut s: Service<u32> = Service::new();
    for i in 0..MAX_IN_FLIGHT as u64 {
        assert!(s.accepts_requests());
        assert!(s.process_request(post(i), i as u32));
    }
    assert_eq!(s.total_in_flight(), 40);
    assert!(s.accepts_requests());
    assert!(s.process_request(post(40), 40));
    assert!(!s.accepts_requests());
    s.dispatch_response(post(3));
    assert!(s.accepts_requests());
}

#[test]
fn events_drive_the_loop() {
    let mut s: Service<&str> = Service::new();
    assert!(matches!(s.handle_event(Event::Request { post: post(5), slot: "a" }), Action::Spawn(p) if p == post(5)));
    assert!(matches!(s.handle_event(Event::Request { post: post(5), slot: "b" }), Action::Coalesced));
    match s.handle_event(Event::Completed { post: post(5) }) {
        Action::Deliver(slots) => assert_eq!(slots, vec!["a", "b"]),
        _ => panic!("expected a delivery"),
    }
    assert!(matches!(s.handle_event(Event::Closed), Action::Exit));
}

#[test]
fn pending_posts_are_known() {
    let mut s: Service<u8> = Service::new();
    assert!(!s.is_pending(post(9)));
    s.process_request(post(9), 0);
    assert!(s.is_pending(post(9)));
    s.dispatch_response(post(9));
    assert!(!s.is_pending(post(9)));
}

#[test]
fn every_waiter_gets_the_same_reply() {
    let mut s: Service<u32> = Service::new();
    for slot in 0..10u32 {
        s.process_request(post(7), slot);
    }
    let reply = String::from("cdn-xyz");
    let pairs = fan_out(s.dispatch_response(post(7)), &reply);
    assert_eq!(pairs.len(), 10);
    for (i, (slot, r)) in pairs.iter().enumerate() {
        assert_eq!(*slot, i as u32);
        assert!(std::ptr::eq(*r, &reply));
    }
}
