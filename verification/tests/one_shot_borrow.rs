use std::rc::Rc;
use sync_primitives::channels::one_shot_borrow::Channel;
use sync_primitives::channels::Fault;

#[test]
fn one_shot_borrow_simple_roundtrip() {
    let mut chan = Channel::new_channel();
    let (ts, mut tr) = Channel::<i32>::new(&mut chan);

    ts.send(&mut tr, 55);

    assert!(tr.is_ready());

    let v = tr.receive();

    assert_eq!(55, v);
}

#[test]
fn one_shot_borrow_new_is_not_ready() {
    let mut chan = Channel::<i32>::new_channel();
    let (_ts, tr) = Channel::new(&mut chan);
    assert!(!tr.is_ready());
}

#[test]
fn one_shot_borrow_receive_before_send_is_premature() {
    let mut chan = Channel::<i32>::new_channel();
    let (_ts, tr) = Channel::new(&mut chan);
    assert_eq!(Err(Fault::PrematureReceive), tr.try_receive());
}

#[test]
fn one_shot_borrow_slot_serves_one_channel_after_the_other() {
    let mut chan = Channel::<i32>::new_channel();
    for round in 0..10_000 {
        let (ts, mut tr) = Channel::new(&mut chan);
        assert!(!tr.is_ready());
        ts.send(&mut tr, 55 + round);
        assert_eq!(Ok(55 + round), tr.try_receive());
    }
}

#[test]
fn one_shot_borrow_new_empties_a_slot_that_was_left_full() {
    let witness = Rc::new(5);
    let mut chan = Channel::<Rc<i32>>::new_channel();
    {
        let (ts, mut tr) = Channel::new(&mut chan);
        ts.send(&mut tr, Rc::clone(&witness));
    }
    assert_eq!(2, Rc::strong_count(&witness));
    {
        let (_ts, tr) = Channel::new(&mut chan);
        assert!(!tr.is_ready());
        assert_eq!(1, Rc::strong_count(&witness));
    }
}

#[test]
fn one_shot_borrow_unreceived_message_is_dropped_once_with_the_slot() {
    let witness = Rc::new(5);
    {
        let mut chan = Channel::<Rc<i32>>::new_channel();
        let (ts, mut tr) = Channel::new(&mut chan);
        ts.send(&mut tr, Rc::clone(&witness));
        assert_eq!(2, Rc::strong_count(&witness));
    }
    assert_eq!(1, Rc::strong_count(&witness));
}
