use coop_runtime::poll::Poll;
use coop_runtime::sync::mpsc::{
    channel, sync_channel, RecvError, RecvTimeoutError, SendError, TryRecvError, TrySendError,
};
use coop_runtime::time::{Duration, Instant};

#[test]
fn values_arrive_in_the_order_in_which_they_were_sent() {
    let (sender, receiver, mut shared) = channel();
    assert_eq!(shared.senders(), 1);
    assert!(shared.has_receiver());
    for i in 0..100u32 {
        assert!(sender.send(&mut shared, i).is_ok());
    }
    assert_eq!(shared.len(), 100);
    for i in 0..100u32 {
        assert!(matches!(receiver.recv(&mut shared), Poll::Ready(Ok(v)) if v == i));
    }
    assert!(matches!(receiver.recv(&mut shared), Poll::Pending));
}

#[test]
fn each_sender_sees_its_own_order_kept() {
    let (first, receiver, mut shared) = channel();
    let second = first.clone(&mut shared);
    assert_eq!(shared.senders(), 2);
    let mut seed: u32 = 7;
    let mut next = [0u32, 0u32];
    let mut seen = [0u32, 0u32];
    for _ in 0..500 {
        seed = seed.wrapping_mul(1103515245).wrapping_add(12345);
        match (seed >> 16) % 3 {
            0 => {
                first.send(&mut shared, (0usize, next[0])).unwrap();
                next[0] += 1;
            }
            1 => {
                second.send(&mut shared, (1usize, next[1])).unwrap();
                next[1] += 1;
            }
            _ => {
                if let Poll::Ready(Ok((who, item))) = receiver.recv(&mut shared) {
                    assert_eq!(item, seen[who]);
                    seen[who] += 1;
                }
            }
        }
    }
    assert!(seen[0] > 0 && seen[1] > 0);
}

#[test]
fn a_receive_fails_once_no_sender_is_left_and_nothing_is_queued() {
    let (sender, receiver, mut shared) = channel();
    let clone = sender.clone(&mut shared);
    sender.send(&mut shared, 1u8).unwrap();
    clone.send(&mut shared, 2u8).unwrap();
    sender.drop(&mut shared);
    assert!(matches!(receiver.recv(&mut shared), Poll::Ready(Ok(1))));
    clone.drop(&mut shared);
    assert_eq!(shared.senders(), 0);
    assert!(matches!(receiver.try_recv(&mut shared), Ok(2)));
    assert!(matches!(receiver.recv(&mut shared), Poll::Ready(Err(RecvError))));
    assert!(matches!(receiver.try_recv(&mut shared), Err(TryRecvError::Disconnected)));
    assert!(matches!(
        receiver.recv_timeout(
            &mut shared,
            Instant::from_nanos(0),
            Duration::from_secs(1),
            Instant::from_nanos(0)
        ),
        Poll::Ready(Err(RecvTimeoutError::Disconnected))
    ));
}

#[test]
fn a_receive_without_waiting_tells_empty_from_disconnected() {
    let (sender, receiver, mut shared) = channel::<u8>();
    assert!(matches!(receiver.try_recv(&mut shared), Err(TryRecvError::Empty)));
    sender.send(&mut shared, 4).unwrap();
    assert!(matches!(receiver.try_recv(&mut shared), Ok(4)));
    assert!(matches!(receiver.try_recv(&mut shared), Err(TryRecvError::Empty)));
    sender.drop(&mut shared);
    assert!(matches!(receiver.try_recv(&mut shared), Err(TryRecvError::Disconnected)));
}

#[test]
fn a_send_fails_once_the_receiver_is_gone() {
    let (sender, receiver, mut shared) = channel();
    sender.send(&mut shared, String::from("kept")).unwrap();
    receiver.drop(&mut shared);
    assert!(!shared.has_receiver());
    match sender.send(&mut shared, String::from("back")) {
        Err(SendError(value)) => assert_eq!(value, "back"),
        Ok(()) => panic!("nobody is there to receive"),
    }
    assert_eq!(shared.len(), 1);
}

#[test]
fn a_receive_with_a_limit_times_out() {
    let (sender, receiver, mut shared) = channel();
    let start = Instant::from_nanos(100);
    let limit = Duration::from_nanos(50);
    assert!(matches!(
        receiver.recv_timeout(&mut shared, start, limit, Instant::from_nanos(149)),
        Poll::Pending
    ));
    sender.send(&mut shared, 1u8).unwrap();
    sender.send(&mut shared, 2u8).unwrap();
    assert!(matches!(
        receiver.recv_timeout(&mut shared, start, limit, Instant::from_nanos(149)),
        Poll::Ready(Ok(1))
    ));
    assert!(matches!(
        receiver.recv_timeout(&mut shared, start, limit, Instant::from_nanos(150)),
        Poll::Ready(Err(RecvTimeoutError::Timeout))
    ));
    assert_eq!(shared.len(), 1);
}

#[test]
fn a_bounded_channel_holds_one_more_than_its_bound() {
    let (sender, receiver, mut shared) = sync_channel(2);
    for i in 0..3u8 {
        let mut value = Some(i);
        assert!(matches!(sender.send(&mut shared, &mut value), Poll::Ready(Ok(()))));
        assert_eq!(value, None);
    }
    assert_eq!(shared.len(), 3);
    let mut fourth = Some(3u8);
    assert!(matches!(sender.send(&mut shared, &mut fourth), Poll::Pending));
    assert!(matches!(sender.send(&mut shared, &mut fourth), Poll::Pending));
    assert_eq!(fourth, Some(3));
    assert_eq!(shared.len(), 3);
    assert!(matches!(sender.try_send(&mut shared, 9), Err(TrySendError::Full(9))));
    assert!(matches!(receiver.recv(&mut shared), Poll::Ready(Ok(0))));
    assert!(matches!(sender.send(&mut shared, &mut fourth), Poll::Ready(Ok(()))));
    assert_eq!(fourth, None);
    assert!(matches!(sender.send(&mut shared, &mut fourth), Poll::Ready(Ok(()))));
    assert_eq!(shared.len(), 3);
}

#[test]
fn a_channel_with_the_bound_zero_holds_one_value() {
    let (sender, receiver, mut shared) = sync_channel(0);
    assert!(sender.try_send(&mut shared, 'a').is_ok());
    assert!(matches!(sender.try_send(&mut shared, 'b'), Err(TrySendError::Full('b'))));
    assert!(matches!(receiver.try_recv(&mut shared), Ok('a')));
    assert!(sender.try_send(&mut shared, 'c').is_ok());
}

#[test]
fn a_bounded_send_fails_once_the_receiver_is_gone() {
    let (sender, receiver, mut shared) = sync_channel(1);
    let clone = sender.clone(&mut shared);
    assert_eq!(shared.senders(), 2);
    receiver.drop(&mut shared);
    let mut value = Some(5u8);
    assert!(matches!(
        sender.send(&mut shared, &mut value),
        Poll::Ready(Err(SendError(5)))
    ));
    assert_eq!(value, None);
    assert!(matches!(
        clone.try_send(&mut shared, 6),
        Err(TrySendError::Disconnected(6))
    ));
    clone.drop(&mut shared);
    sender.drop(&mut shared);
    assert_eq!(shared.senders(), 0);
}
