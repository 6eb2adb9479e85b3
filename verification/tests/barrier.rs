use coop_runtime::poll::Poll;
use coop_runtime::sync::{Barrier, BarrierWaitResult, BarrierWaiter};

#[test]
fn nobody_leaves_before_all_have_arrived() {
    let mut barrier = Barrier::new(3);
    let mut waiters: Vec<BarrierWaiter> = (0..3).map(|_| BarrierWaiter::new()).collect();
    assert!(matches!(barrier.wait(&mut waiters[0]), Poll::Pending));
    assert_eq!(waiters[0].entry, Some((true, 0)));
    assert!(matches!(barrier.wait(&mut waiters[1]), Poll::Pending));
    assert_eq!(waiters[1].entry, Some((false, 0)));
    assert!(matches!(barrier.wait(&mut waiters[0]), Poll::Pending));
    assert!(matches!(barrier.wait(&mut waiters[1]), Poll::Pending));
    assert_eq!(barrier.generation(), 0);
    let last = barrier.wait(&mut waiters[2]);
    assert_eq!(barrier.generation(), 1);
    assert!(matches!(last, Poll::Ready(BarrierWaitResult(false))));
    assert!(matches!(barrier.wait(&mut waiters[0]), Poll::Ready(BarrierWaitResult(true))));
    assert!(matches!(barrier.wait(&mut waiters[1]), Poll::Ready(BarrierWaitResult(false))));
}

#[test]
fn one_of_every_round_leads() {
    let n = 4;
    let mut barrier = Barrier::new(n);
    let mut leaders_of_round = vec![0; 5];
    for round in 0..5 {
        let mut waiters: Vec<BarrierWaiter> = (0..n).map(|_| BarrierWaiter::new()).collect();
        for waiter in waiters.iter_mut() {
            let _ = barrier.wait(waiter);
        }
        for waiter in waiters.iter_mut() {
            match barrier.wait(waiter) {
                Poll::Ready(result) => {
                    if result.is_leader() {
                        leaders_of_round[round] += 1;
                    }
                }
                Poll::Pending => panic!("the round is full"),
            }
        }
        assert_eq!(barrier.generation(), round + 1);
    }
    assert_eq!(leaders_of_round, vec![1; 5]);
}

#[test]
fn a_barrier_for_one_lets_everybody_through_as_leader() {
    for n in [0usize, 1] {
        let mut barrier = Barrier::new(n);
        for round in 0..3 {
            let mut waiter = BarrierWaiter::new();
            assert!(matches!(
                barrier.wait(&mut waiter),
                Poll::Ready(BarrierWaitResult(true))
            ));
            assert_eq!(barrier.generation(), round + 1);
        }
    }
}

#[test]
fn a_late_party_belongs_to_the_next_round() {
    let mut barrier = Barrier::new(2);
    let mut a = BarrierWaiter::new();
    let mut b = BarrierWaiter::new();
    let mut c = BarrierWaiter::new();
    assert!(matches!(barrier.wait(&mut a), Poll::Pending));
    assert!(matches!(barrier.wait(&mut b), Poll::Ready(_)));
    assert!(matches!(barrier.wait(&mut c), Poll::Pending));
    assert_eq!(c.entry, Some((true, 1)));
    assert!(matches!(barrier.wait(&mut a), Poll::Ready(BarrierWaitResult(true))));
    assert!(matches!(barrier.wait(&mut c), Poll::Pending));
    let mut d = BarrierWaiter::new();
    assert!(matches!(barrier.wait(&mut d), Poll::Ready(BarrierWaitResult(false))));
    assert!(matches!(barrier.wait(&mut c), Poll::Ready(BarrierWaitResult(true))));
}
