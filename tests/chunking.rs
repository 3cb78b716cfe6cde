use solana_cli::chunk::{max_chunk_size, plan, WriteUnit};

fn payload(n: usize) -> Vec<u8> {
    (0..n).map(|i| (i * 7 + 3) as u8).collect()
}

#[test]
fn ten_bytes_in_chunks_of_four() {
    let data = payload(10);
    let units = plan(&data, 4);
    let shape: Vec<(u32, usize)> = units.iter().map(|u| (u.offset, u.bytes.len())).collect();
    assert_eq!(shape, vec![(0, 4), (4, 4), (8, 2)]);
    assert_eq!(units[0].bytes, data[0..4].to_vec());
    assert_eq!(units[1].bytes, data[4..8].to_vec());
    assert_eq!(units[2].bytes, data[8..10].to_vec());
}

#[test]
fn empty_payload_has_empty_plan() {
    assert!(plan(&[], 5).is_empty());
}

#[test]
fn exact_multiple_has_no_short_unit() {
    let data = payload(12);
    let units = plan(&data, 4);
    assert_eq!(units.len(), 3);
    assert!(units.iter().all(|u| u.bytes.len() == 4));
    assert_eq!(units[2].offset, 8);
}

#[test]
fn chunk_larger_than_payload() {
    let data = payload(3);
    let units = plan(&data, 100);
    assert_eq!(units, vec![WriteUnit { offset: 0, bytes: data.clone() }]);
}

#[test]
fn plan_partitions_payload() {
    for len in 0..40usize {
        for chunk in 1..12usize {
            let data = payload(len);
            let units = plan(&data, chunk);
            assert_eq!(units.len(), (len + chunk - 1) / chunk);
            let mut next = 0usize;
            let mut joined = Vec::new();
            for u in &units {
                assert_eq!(u.offset as usize, next);
                assert!(!u.bytes.is_empty() && u.bytes.len() <= chunk);
                next += u.bytes.len();
                joined.extend_from_slice(&u.bytes);
            }
            assert_eq!(next, len);
            assert_eq!(joined, data);
        }
    }
}

#[test]
fn capacity_is_limit_less_baseline_less_one() {
    assert_eq!(max_chunk_size(1232, 200), 1031);
    assert_eq!(max_chunk_size(100, 98), 1);
}

#[test]
fn capacity_saturates_at_zero() {
    assert_eq!(max_chunk_size(100, 99), 0);
    assert_eq!(max_chunk_size(100, 100), 0);
    assert_eq!(max_chunk_size(100, 5000), 0);
}

#[test]
fn planned_units_fit_the_limit() {
    let limit = 300usize;
    let baseline = 120usize;
    let chunk = max_chunk_size(limit, baseline);
    let units = plan(&payload(1000), chunk);
    assert!(units.iter().all(|u| baseline + u.bytes.len() + 1 <= limit));
}
