use std::rc::Rc;
use sync_primitives::channels::one_shot_typed::Channel;
use sync_primitives::channels::Fault;

#[test]
fn one_shot_typed_simple_roundtrip() {
    let (ts, mut tr) = Channel::<i32>::new();

    ts.send(&mut tr, 55);

    assert!(tr.is_ready());

    let v = tr.receive();
    assert_eq!(55, v);
}

#[test]
fn one_shot_typed_new_is_not_ready() {
    let (_ts, tr) = Channel::<i32>::new();
    assert!(!tr.is_ready());
}

#[test]
fn one_shot_typed_receive_before_send_is_premature() {
    let (_ts, tr) = Channel::<i32>::new();
    assert_eq!(Err(Fault::PrematureReceive), tr.try_receive());
}

#[test]
fn one_shot_typed_try_receive_after_send() {
    let (ts, mut tr) = Channel::<String>::new();
    ts.send(&mut tr, String::from("x"));
    assert_eq!(Ok(String::from("x")), tr.try_receive());
}

#[test]
fn one_shot_typed_hands_over_unchanged_many_times() {
    for round in 0..10_000u64 {
        let (ts, mut tr) = Channel::<(i32, u64)>::new();
        ts.send(&mut tr, (55, round));
        assert_eq!((55, round), tr.receive());
    }
}

#[test]
fn one_shot_typed_unreceived_message_is_dropped_once_with_the_handles() {
    let witness = Rc::new(5);
    {
        let (ts, mut tr) = Channel::<Rc<i32>>::new();
        ts.send(&mut tr, Rc::clone(&witness));
        assert_eq!(2, Rc::strong_count(&witness));
    }
    assert_eq!(1, Rc::strong_count(&witness));
}
