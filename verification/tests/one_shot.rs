use std::rc::Rc;
use sync_primitives::channels::one_shot::OneShotChannel;
use sync_primitives::channels::Fault;

#[test]
fn one_shot_simple_roundtrip() {
    let mut channel = OneShotChannel::<i32>::new();

    channel.enqueue(55);

    assert!(channel.is_ready());

    let v = channel.dequeue();
    assert_eq!(55, v);
}

#[test]
fn one_shot_new_is_not_ready() {
    let channel = OneShotChannel::<i32>::new();
    assert!(!channel.is_ready());
}

#[test]
fn one_shot_second_send_is_a_double_send() {
    let mut channel = OneShotChannel::<i32>::new();
    assert_eq!(Ok(()), channel.try_enqueue(1));
    assert_eq!(Err(Fault::DoubleSend), channel.try_enqueue(2));
    // The first message is untouched.
    assert!(channel.is_ready());
    assert_eq!(Ok(1), channel.try_dequeue());
}

#[test]
fn one_shot_receive_before_send_is_premature() {
    let mut channel = OneShotChannel::<i32>::new();
    assert_eq!(Err(Fault::PrematureReceive), channel.try_dequeue());
    assert!(!channel.is_ready());
    channel.enqueue(3);
    assert_eq!(Ok(3), channel.try_dequeue());
    assert_eq!(Err(Fault::PrematureReceive), channel.try_dequeue());
}

#[test]
fn one_shot_takes_the_next_message_once_drained() {
    let mut channel = OneShotChannel::<String>::new();
    channel.enqueue(String::from("first"));
    assert_eq!("first", channel.dequeue());
    assert!(!channel.is_ready());
    assert_eq!(Ok(()), channel.try_enqueue(String::from("second")));
    assert!(channel.is_ready());
    assert_eq!("second", channel.dequeue());
}

#[test]
fn one_shot_hands_over_unchanged_many_times() {
    let mut channel = OneShotChannel::<i32>::new();
    for _ in 0..10_000 {
        channel.enqueue(55);
        assert_eq!(55, channel.dequeue());
    }
    let mut channel = OneShotChannel::<(u64, Vec<u8>)>::new();
    for round in 0..10_000u64 {
        channel.enqueue((round, vec![round as u8; 3]));
        assert_eq!((round, vec![round as u8; 3]), channel.dequeue());
    }
}

#[test]
fn one_shot_unreceived_message_is_dropped_once_with_the_channel() {
    let witness = Rc::new(5);
    {
        let mut channel = OneShotChannel::<Rc<i32>>::new();
        channel.enqueue(Rc::clone(&witness));
        assert_eq!(2, Rc::strong_count(&witness));
    }
    assert_eq!(1, Rc::strong_count(&witness));
}

#[test]
fn one_shot_received_message_is_not_dropped_with_the_channel() {
    let witness = Rc::new(5);
    let kept;
    {
        let mut channel = OneShotChannel::<Rc<i32>>::new();
        channel.enqueue(Rc::clone(&witness));
        kept = channel.dequeue();
        assert_eq!(2, Rc::strong_count(&witness));
    }
    assert_eq!(2, Rc::strong_count(&witness));
    drop(kept);
    assert_eq!(1, Rc::strong_count(&witness));
}

#[test]
fn one_shot_refused_message_is_dropped_once() {
    let witness = Rc::new(5);
    let mut channel = OneShotChannel::<Rc<i32>>::new();
    channel.enqueue(Rc::new(0));
    assert_eq!(Err(Fault::DoubleSend), channel.try_enqueue(Rc::clone(&witness)));
    assert_eq!(1, Rc::strong_count(&witness));
}
