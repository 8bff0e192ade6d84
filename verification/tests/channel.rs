use sync_primitives::channel::Channel;

#[test]
fn channel_simple_channel_test() {
    let mut channel = Channel::<i32>::new();
    let mut sum = 0;
    for i in 0..6 {
        // The consumer is there first and finds nothing.
        assert_eq!(None, channel.try_dequeue());
        channel.enqueue(i);
        let n = channel.dequeue();
        sum += n;
    }

    assert_eq!(15, sum);
}

#[test]
fn channel_new_is_empty() {
    let mut channel = Channel::<u8>::new();
    assert_eq!(None, channel.try_dequeue());
    assert_eq!(None, channel.try_dequeue());
}

#[test]
fn channel_hands_out_in_the_order_of_arrival() {
    let mut channel = Channel::<&str>::new();
    channel.enqueue("a");
    channel.enqueue("b");
    channel.enqueue("c");
    assert_eq!("a", channel.dequeue());
    channel.enqueue("d");
    assert_eq!("b", channel.dequeue());
    assert_eq!(Some("c"), channel.try_dequeue());
    assert_eq!(Some("d"), channel.try_dequeue());
    assert_eq!(None, channel.try_dequeue());
}

#[test]
fn channel_keeps_each_producers_order_and_loses_nothing() {
    // Two producers, told apart by the first component, take turns unevenly.
    let sent: [(u8, u32); 7] = [(0, 0), (1, 0), (1, 1), (0, 1), (0, 2), (1, 2), (0, 3)];
    let mut channel = Channel::<(u8, u32)>::new();
    let mut got: Vec<(u8, u32)> = Vec::new();
    for (round, item) in sent.iter().enumerate() {
        channel.enqueue(*item);
        if round % 3 == 2 {
            got.push(channel.dequeue());
        }
    }
    while let Some(item) = channel.try_dequeue() {
        got.push(item);
    }
    assert_eq!(sent.to_vec(), got);
    let of_first: Vec<u32> = got.iter().filter(|item| item.0 == 0).map(|item| item.1).collect();
    let of_second: Vec<u32> = got.iter().filter(|item| item.0 == 1).map(|item| item.1).collect();
    assert_eq!(vec![0, 1, 2, 3], of_first);
    assert_eq!(vec![0, 1, 2], of_second);
}

#[test]
fn channel_has_no_bound() {
    let mut channel = Channel::<usize>::new();
    for i in 0..10_000 {
        channel.enqueue(i);
    }
    for i in 0..10_000 {
        assert_eq!(i, channel.dequeue());
    }
    assert_eq!(None, channel.try_dequeue());
}
