use coop_runtime::io::{copy, AsyncRead, AsyncWrite, CopyProgress, Error, ErrorKind};
use coop_runtime::net::resolve;
use coop_runtime::poll::Poll;
use coop_runtime::runtime::{BlockOn, FutureQueue, Runtime, Turn, Wake, WorkerTurn};
use coop_runtime::sync::mpsc::{channel, sync_channel, Channel, Receiver, Sender, SyncSender};
use coop_runtime::sync::{Mutex, MutexGuard};
use coop_runtime::thread::{sleep, spawn, JoinHandle, PollHandle, Sleep};
use coop_runtime::time::{Duration, Instant};
use std::cell::RefCell;
use std::collections::VecDeque;
use std::rc::Rc;

/// One of two tasks that take turns at sending the numbers below 100.
struct Player {
    parity: u32,
    sender: Sender<u32>,
}

fn poll_player(player: &Player, next: &mut u32, shared: &mut Channel<u32>) -> Poll<()> {
    if *next >= 100 {
        return Poll::Ready(());
    }
    if *next % 2 == player.parity {
        player.sender.send(shared, *next).unwrap();
        *next += 1;
    }
    Poll::Pending
}

#[test]
fn two_tasks_that_take_turns_send_a_hundred_values_in_order() {
    let (sender, receiver, mut shared) = channel::<u32>();
    let mut next = 0u32;
    let mut received = Vec::new();
    let run: BlockOn<Player, ()> = Runtime::current().block_on();
    let mut run = match run {
        BlockOn::Current(run) => run,
        BlockOn::Threaded(_) => panic!("the executor runs on the current thread"),
    };
    let odd = Player { parity: 1, sender: sender.clone(&mut shared) };
    let even = Player { parity: 0, sender };
    let mut rounds = 0;
    assert!(matches!(run.turn(), Turn::PollRoot));
    let queue = FutureQueue::get_thread_local(run.local());
    queue.send(even);
    queue.send(odd);
    run.root_pending();
    loop {
        match run.turn() {
            Turn::PollRoot => {
                while let Poll::Ready(Ok(value)) = receiver.recv(&mut shared) {
                    received.push(value);
                }
                let outcome = if received.len() == 100 {
                    Poll::Ready(received.len())
                } else {
                    Poll::Pending
                };
                if let Some(count) = run.root_polled(outcome) {
                    assert_eq!(count, 100);
                    break;
                }
            }
            Turn::PollTask(player) => {
                let outcome = poll_player(&player, &mut next, &mut shared);
                run.task_polled(player, outcome);
            }
            Turn::Sleep(pause) => {
                assert_eq!(pause, Duration::from_millis(1));
                rounds += 1;
                assert!(rounds < 200);
            }
        }
    }
    assert_eq!(received, (0..100).collect::<Vec<u32>>());
}

/// A task of the threaded sum: a shard that adds its numbers to the sum, or
/// the root that waits for the shards.
enum Task {
    Shard(usize),
    Root,
}

struct Shard {
    from: u64,
    to: u64,
    guard: Option<MutexGuard>,
}

#[test]
fn four_shards_add_up_the_numbers_to_a_thousand() {
    let run: BlockOn<Task, u64> = Runtime::threaded(4).block_on();
    let run = match run {
        BlockOn::Threaded(run) => run,
        BlockOn::Current(_) => panic!("the executor is threaded"),
    };
    let (mut local, mut workers, mut cell) = run.into_parts();
    let mut sum = Mutex::new(0u64);
    let mut handles: Vec<JoinHandle<(), Shard>> = Vec::new();
    // Only the root is queued when the workers start.
    FutureQueue::get_thread_local(&mut local).send(Task::Root);
    let mut published = false;
    let mut result = None;
    let mut contended = 0;
    let mut turns = 0;
    while result.is_none() {
        turns += 1;
        assert!(turns < 10_000);
        for worker in workers.iter_mut() {
            let task = match worker.turn(FutureQueue::get_thread_local(&mut local)) {
                WorkerTurn::PollTask(task) => task,
                WorkerTurn::Wait(_) => continue,
            };
            let outcome = match &task {
                Task::Root => {
                    if handles.is_empty() {
                        for i in 0..4u64 {
                            let shard = Shard { from: i * 250 + 1, to: (i + 1) * 250, guard: None };
                            let (handle, wake) = spawn(&mut local, Task::Shard(i as usize), shard);
                            assert_eq!(wake, Wake::One);
                            handles.push(handle);
                        }
                        Poll::Pending
                    } else if published {
                        match cell.root_wait() {
                            Poll::Ready(()) => Poll::Ready(()),
                            Poll::Pending => Poll::Pending,
                        }
                    } else if handles.iter().all(|handle| matches!(handle.0, PollHandle::Ready(_))) {
                        for handle in handles.iter_mut() {
                            assert!(matches!(handle.poll(), Poll::Ready(())));
                        }
                        match sum.lock() {
                            Poll::Ready(guard) => {
                                let total = *guard.deref(&sum);
                                guard.unlock(&mut sum);
                                published = true;
                                cell.publish(total)
                            }
                            Poll::Pending => Poll::Pending,
                        }
                    } else {
                        Poll::Pending
                    }
                }
                Task::Shard(i) => {
                    let handle = &mut handles[*i];
                    let shard = handle.future().unwrap();
                    match shard.guard.take() {
                        // The first poll takes the lock and keeps it over a
                        // suspension; the second adds and gives it back.
                        None => match sum.lock() {
                            Poll::Ready(guard) => {
                                shard.guard = Some(guard);
                                Poll::Pending
                            }
                            Poll::Pending => {
                                contended += 1;
                                Poll::Pending
                            }
                        },
                        Some(mut guard) => {
                            let part: u64 = (shard.from..=shard.to).sum();
                            *guard.deref_mut(&mut sum) += part;
                            guard.unlock(&mut sum);
                            handle.advance(Poll::Ready(()))
                        }
                    }
                }
            };
            FutureQueue::get_thread_local(&mut local).polled(task, outcome);
        }
        if let Poll::Ready(total) = cell.join() {
            result = Some(total);
        }
    }
    assert_eq!(result, Some(500500));
    assert!(contended > 0);
}

/// The producer of the bounded channel: it sends the numbers below ten.
struct Producer {
    sender: SyncSender<u32>,
    next: u32,
    value: Option<u32>,
}

/// The consumer of the bounded channel: it pauses ten milliseconds before each
/// receive.
struct Consumer {
    receiver: Receiver<u32>,
    pause: Sleep,
    seen: Vec<(u32, u128)>,
}

#[test]
fn a_full_channel_holds_the_producer_back() {
    let milli = 1_000_000u128;
    let (sender, receiver, mut shared) = sync_channel::<u32>(2);
    let mut producer = Producer { sender, next: 0, value: Some(0) };
    let mut consumer = Consumer {
        receiver,
        pause: sleep(Instant::from_nanos(0), Duration::from_millis(10)),
        seen: Vec::new(),
    };
    let mut now = 0u128;
    let mut finished_at = None;
    let mut most_queued = 0;
    let mut held_back = 0;
    while consumer.seen.len() < 10 {
        assert!(now < 1_000 * milli);
        // The producer sends as long as the channel takes values.
        while producer.next < 10 {
            match producer.sender.send(&mut shared, &mut producer.value) {
                Poll::Ready(Ok(())) => {
                    producer.next += 1;
                    producer.value = Some(producer.next);
                    if producer.next == 10 {
                        finished_at = Some(now);
                    }
                }
                Poll::Ready(Err(_)) => panic!("the receiver is alive"),
                Poll::Pending => {
                    held_back += 1;
                    assert_eq!(shared.len(), 3);
                    break;
                }
            }
        }
        most_queued = most_queued.max(shared.len());
        // The consumer receives one value after each pause.
        if let Poll::Ready(()) = consumer.pause.poll(Instant::from_nanos(now)) {
            if let Poll::Ready(Ok(value)) = consumer.receiver.recv(&mut shared) {
                consumer.seen.push((value, now / milli));
            }
            consumer.pause = sleep(Instant::from_nanos(now), Duration::from_millis(10));
        }
        now += milli;
    }
    let values: Vec<u32> = consumer.seen.iter().map(|(value, _)| *value).collect();
    assert_eq!(values, (0..10).collect::<Vec<u32>>());
    assert_eq!(most_queued, 3);
    assert!(held_back > 0);
    // The tenth value fits only after the seventh receive, and a receive
    // follows a pause of more than ten milliseconds.
    let seventh = consumer.seen[6].1;
    assert!(seventh >= 70);
    assert!(finished_at.unwrap() / milli >= seventh);
}

/// One direction of a connection in memory.
struct Pipe {
    bytes: VecDeque<u8>,
    closed: bool,
}

#[derive(Clone)]
struct End(Rc<RefCell<Pipe>>);

fn pipe() -> End {
    End(Rc::new(RefCell::new(Pipe {
        bytes: VecDeque::new(),
        closed: false,
    })))
}

impl AsyncRead for End {
    fn read(&mut self, buf: &mut Vec<u8>) -> Poll<Result<usize, Error>> {
        let mut pipe = self.0.borrow_mut();
        if pipe.bytes.is_empty() && !pipe.closed && !buf.is_empty() {
            return resolve(Err(Error::new(
                ErrorKind::WouldBlock,
                "nothing to read yet",
            )));
        }
        let n = buf.len().min(pipe.bytes.len());
        for slot in buf.iter_mut().take(n) {
            *slot = pipe.bytes.pop_front().unwrap();
        }
        Poll::Ready(Ok(n))
    }
}

impl AsyncWrite for End {
    fn write(&mut self, buf: &[u8]) -> Poll<Result<usize, Error>> {
        let n = buf.len().min(2);
        self.0.borrow_mut().bytes.extend(&buf[..n]);
        Poll::Ready(Ok(n))
    }

    fn flush(&mut self) -> Poll<Result<(), Error>> {
        Poll::Ready(Ok(()))
    }
}

#[test]
fn an_echo_returns_hello_and_ends_when_the_client_closes() {
    let to_server = pipe();
    let to_client = pipe();
    // The server echoes what it reads until the client closes.
    let mut server_in = to_server.clone();
    let mut server_out = to_client.clone();
    let mut echo = CopyProgress::new();
    // The client sends "hello", reads five bytes back and closes.
    let mut client_out = to_server.clone();
    let mut client_in = to_client.clone();
    let mut written = 0;
    let mut answer = vec![0u8; 5];
    let mut read = 0;
    let mut sent = false;
    let mut received = false;
    let mut echoed = None;
    let mut rounds = 0;
    while echoed.is_none() {
        rounds += 1;
        assert!(rounds < 20);
        if !sent {
            sent = matches!(client_out.write_all(b"hello", &mut written), Poll::Ready(Ok(())));
        } else if !received {
            received = matches!(client_in.read_exact(&mut answer, &mut read), Poll::Ready(Ok(())));
            if received {
                to_server.0.borrow_mut().closed = true;
            }
        }
        if let Poll::Ready(result) = copy(&mut server_in, &mut server_out, &mut echo) {
            echoed = Some(result.unwrap());
        }
    }
    assert!(sent && received);
    assert_eq!(answer, b"hello");
    assert_eq!(echoed, Some(5));
    assert!(to_client.0.borrow().bytes.is_empty());
}
