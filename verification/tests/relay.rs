use revsocks::relay::RelayDirection;
use revsocks::relay::RelayEnd;
use revsocks::relay::RelayPair;

fn pattern(n: usize) -> Vec<u8> {
    (0..n).map(|i| (i % 251) as u8).collect()
}

#[test]
fn relay_single_byte() {
    let mut dir = RelayDirection::new();
    let chunk: Vec<u8> = vec![0xA5];
    assert_eq!(dir.forward_chunk(&chunk), chunk);
}

#[test]
fn relay_one_chunk_4096() {
    let mut dir = RelayDirection::new();
    let chunk = pattern(4096);
    assert_eq!(dir.forward_chunk(&chunk), chunk);
}

#[test]
fn relay_million_bytes_across_chunks() {
    // One million bytes split into uneven chunks: the outputs, concatenated,
    // are the input stream, unmodified and in order.
    let stream = pattern(1_000_000);
    let mut dir = RelayDirection::new();
    let mut received: Vec<u8> = Vec::new();
    let mut at: usize = 0;
    let sizes = [1usize, 4096, 65536, 100_000];
    let mut k: usize = 0;
    while at < stream.len() {
        let take = sizes[k % sizes.len()].min(stream.len() - at);
        let chunk: Vec<u8> = stream[at..at + take].to_vec();
        let out = dir.forward_chunk(&chunk);
        assert_eq!(out, chunk);
        received.extend_from_slice(&out);
        at += take;
        k += 1;
    }
    assert_eq!(received, stream);
}

#[test]
fn half_close_leaves_other_direction_operative() {
    let mut pair = RelayPair::new();
    let up: Vec<u8> = vec![1, 2, 3];
    assert_eq!(pair.forward_a_to_b(&up), up);
    // A-to-B reaches end of stream: its worker half-closes both its ends.
    let action = pair.finish_a_to_b(RelayEnd::Eof);
    assert!(action.shut_source_read);
    assert!(action.shut_dest_write);
    assert!(!pair.a_to_b.active);
    // The opposite direction keeps flowing until it completes on its own.
    assert!(pair.b_to_a.active);
    let down: Vec<u8> = vec![9, 8, 7, 6];
    assert_eq!(pair.forward_b_to_a(&down), down);
    let action = pair.finish_b_to_a(RelayEnd::TransportError);
    assert!(action.shut_source_read);
    assert!(action.shut_dest_write);
    assert!(!pair.b_to_a.active);
}
