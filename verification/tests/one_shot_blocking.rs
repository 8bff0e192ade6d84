use std::rc::Rc;
use sync_primitives::channels::one_shot_blocking::Channel;

#[test]
fn one_shot_blocking_simple_roundtrip() {
    let (ts, mut tr) = Channel::<i32>::new(());

    ts.send(&mut tr, 55);

    let v = tr.receive();
    assert_eq!(55, v);
}

#[test]
fn one_shot_blocking_early_receiver_is_sent_back_to_sleep_and_served_later() {
    let (ts, tr) = Channel::<i32>::new("consumer");
    // The receiver is there first, and wakes twice for no reason.
    let tr = match tr.try_receive() {
        Ok(_) => panic!("nothing was sent yet"),
        Err(receiver) => receiver,
    };
    let mut tr = match tr.try_receive() {
        Ok(_) => panic!("nothing was sent yet"),
        Err(receiver) => receiver,
    };
    let woken = ts.send(&mut tr, 55);
    assert_eq!("consumer", woken);
    match tr.try_receive() {
        Ok(v) => assert_eq!(55, v),
        Err(_) => panic!("the message was sent"),
    }
}

#[test]
fn one_shot_blocking_sender_wakes_the_party_named_at_creation() {
    let (first, mut first_end) = Channel::<u8>::new(17u64);
    let (second, mut second_end) = Channel::<u8>::new(23u64);
    assert_eq!(23, second.send(&mut second_end, 2));
    assert_eq!(17, first.send(&mut first_end, 1));
    assert_eq!(1, first_end.receive());
    assert_eq!(2, second_end.receive());
}

#[test]
fn one_shot_blocking_unreceived_message_is_dropped_once_with_the_handles() {
    let witness = Rc::new(5);
    {
        let (ts, mut tr) = Channel::<Rc<i32>>::new(());
        ts.send(&mut tr, Rc::clone(&witness));
        assert_eq!(2, Rc::strong_count(&witness));
    }
    assert_eq!(1, Rc::strong_count(&witness));
}

#[test]
fn one_shot_blocking_is_ready_follows_the_flag() {
    let (ts, mut tr) = Channel::<i32>::new(());
    assert!(!tr.is_ready());
    ts.send(&mut tr, 55);
    assert!(tr.is_ready());
    assert_eq!(55, tr.receive());
}

#[test]
fn one_shot_blocking_hands_over_unchanged_many_times() {
    for round in 0..10_000u64 {
        let (ts, tr) = Channel::<(i32, u64)>::new(round);
        let mut tr = match tr.try_receive() {
            Ok(_) => panic!("nothing was sent yet"),
            Err(receiver) => receiver,
        };
        assert_eq!(round, ts.send(&mut tr, (55, round)));
        assert_eq!((55, round), tr.receive());
    }
}
