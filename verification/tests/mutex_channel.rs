use sync_primitives::channels::mutex_channel::MutexChannel;

#[test]
fn mutex_channel_simple_channel_test() {
    let mut channel = MutexChannel::<i32>::new();
    let mut sum = 0;
    for i in 0..6 {
        // The consumer is there first and finds nothing.
        assert_eq!(None, channel.try_dequeue());
        channel.enqueue(i);
        let n = channel.dequeue();
        sum += n;
    }

    assert_eq!(15, sum);
}

#[test]
fn mutex_channel_new_is_empty() {
    let mut channel = MutexChannel::<u8>::new();
    assert_eq!(None, channel.try_dequeue());
}

#[test]
fn mutex_channel_hands_out_in_the_order_of_arrival() {
    let mut channel = MutexChannel::<&str>::new();
    channel.enqueue("a");
    channel.enqueue("b");
    channel.enqueue("c");
    assert_eq!("a", channel.dequeue());
    channel.enqueue("d");
    assert_eq!("b", channel.dequeue());
    assert_eq!(Some("c"), channel.try_dequeue());
    assert_eq!(Some("d"), channel.try_dequeue());
    assert_eq!(None, channel.try_dequeue());
}

#[test]
fn mutex_channel_woken_consumer_may_find_the_message_gone() {
    let mut channel = MutexChannel::<i32>::new();
    channel.enqueue(9);
    // Two consumers were woken; the first takes the message.
    assert_eq!(Some(9), channel.try_dequeue());
    assert_eq!(None, channel.try_dequeue());
    channel.enqueue(10);
    assert_eq!(Some(10), channel.try_dequeue());
}

#[test]
fn mutex_channel_has_no_bound() {
    let mut channel = MutexChannel::<usize>::new();
    for i in 0..10_000 {
        channel.enqueue(i);
    }
    for i in 0..10_000 {
        assert_eq!(i, channel.dequeue());
    }
    assert_eq!(None, channel.try_dequeue());
}
