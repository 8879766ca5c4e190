use serial_tcp_bridge::channel::{Channel, WaitOutcome};
use serial_tcp_bridge::chunk::Chunk;

fn chunk_of(bytes: &[u8]) -> Chunk {
    Chunk::from_read(bytes, bytes.len()).expect("bytes fit in a chunk")
}

#[test]
fn attentive_subscriber_observes_every_publish_in_order() {
    let mut channel = Channel::new();
    let mut sub = channel.subscribe();

    let published: [&[u8]; 3] = [b"one", b"two", b"three"];
    let mut observed: Vec<Vec<u8>> = Vec::new();
    for bytes in published.iter() {
        channel.publish(chunk_of(bytes));
        assert_eq!(channel.wait_for_change(&mut sub), WaitOutcome::Changed);
        observed.push(channel.get_data_copy());
        // No duplicate observation of the same value.
        assert_eq!(channel.wait_for_change(&mut sub), WaitOutcome::Pending);
    }
    assert_eq!(observed, vec![b"one".to_vec(), b"two".to_vec(), b"three".to_vec()]);
}

#[test]
fn missed_publishes_yield_only_the_most_recent() {
    let mut channel = Channel::new();
    let mut sub = channel.subscribe();

    // Catch up with the initial empty value first.
    assert_eq!(channel.wait_for_change(&mut sub), WaitOutcome::Changed);
    assert_eq!(channel.get_data_copy(), Vec::<u8>::new());

    // Three publishes while the subscriber is not polling.
    channel.publish(chunk_of(b"first"));
    channel.publish(chunk_of(b"second"));
    channel.publish(chunk_of(b"third"));

    // A single poll observes the latest value, never a stale one...
    assert_eq!(channel.wait_for_change(&mut sub), WaitOutcome::Changed);
    assert_eq!(channel.get_data_copy(), b"third".to_vec());
    // ...and the intermediate values are gone for good.
    assert_eq!(channel.wait_for_change(&mut sub), WaitOutcome::Pending);
}

#[test]
fn fresh_subscriber_first_wait_returns_initial_empty_chunk() {
    let channel = Channel::new();
    let mut sub = channel.subscribe();
    assert_eq!(channel.wait_for_change(&mut sub), WaitOutcome::Changed);
    assert_eq!(channel.get_data_copy(), Vec::<u8>::new());
    assert_eq!(channel.wait_for_change(&mut sub), WaitOutcome::Pending);
}

#[test]
fn closed_channel_reports_closed_once_caught_up() {
    let mut channel = Channel::new();
    let mut sub = channel.subscribe();
    channel.publish(chunk_of(b"last words"));
    channel.close();

    // The unseen value is still delivered before the closure is reported.
    assert_eq!(channel.wait_for_change(&mut sub), WaitOutcome::Changed);
    assert_eq!(channel.get_data_copy(), b"last words".to_vec());
    assert_eq!(channel.wait_for_change(&mut sub), WaitOutcome::Closed);
}

#[test]
fn publish_never_fails_with_zero_subscribers() {
    let mut channel = Channel::new();
    channel.publish(chunk_of(b"nobody is listening"));
    channel.publish(chunk_of(b"still fine"));
    let mut late = channel.subscribe();
    assert_eq!(channel.wait_for_change(&mut late), WaitOutcome::Changed);
    assert_eq!(channel.get_data_copy(), b"still fine".to_vec());
}
