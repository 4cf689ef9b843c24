use rust_store::{
    fill_buffer, fill_ranges, get_strategy, part_ranges, plan_ranged_get, put_strategy, GetStrategy,
    PutStrategy, TransferError, PART_SIZE,
};

#[test]
fn part_ranges_cover_object_with_short_last_part() {
    assert_eq!(part_ranges(20, 8), vec![(0, 8), (8, 16), (16, 20)]);
}

#[test]
fn part_ranges_exact_multiple() {
    assert_eq!(part_ranges(16, 8), vec![(0, 8), (8, 16)]);
}

#[test]
fn part_ranges_smaller_than_one_part() {
    assert_eq!(part_ranges(5, 8), vec![(0, 5)]);
}

#[test]
fn part_ranges_empty_object() {
    assert_eq!(part_ranges(0, 8), Vec::<(usize, usize)>::new());
}

#[test]
fn part_ranges_real_part_size() {
    let r = part_ranges(2 * PART_SIZE + 1, PART_SIZE);
    assert_eq!(r, vec![(0, PART_SIZE), (PART_SIZE, 2 * PART_SIZE), (2 * PART_SIZE, 2 * PART_SIZE + 1)]);
}

#[test]
fn part_size_is_eight_mebibytes() {
    assert_eq!(PART_SIZE, 8 * 1024 * 1024);
}

#[test]
fn get_strategy_threshold() {
    assert_eq!(get_strategy(PART_SIZE - 1), GetStrategy::Single);
    assert_eq!(get_strategy(PART_SIZE), GetStrategy::Single);
    assert_eq!(get_strategy(PART_SIZE + 1), GetStrategy::Ranged);
}

#[test]
fn put_strategy_threshold() {
    assert_eq!(put_strategy(PART_SIZE - 1), PutStrategy::Single);
    assert_eq!(put_strategy(PART_SIZE), PutStrategy::Multipart);
    assert_eq!(put_strategy(PART_SIZE + 1), PutStrategy::Multipart);
}

#[test]
fn fill_buffer_copies_chunks_in_order() {
    let mut buf = [9u8; 8];
    let chunks = vec![vec![1u8, 2], vec![], vec![3, 4, 5]];
    assert_eq!(fill_buffer(&mut buf, &chunks), Ok(5));
    assert_eq!(buf, [1, 2, 3, 4, 5, 9, 9, 9]);
}

#[test]
fn fill_buffer_exact_fit() {
    let mut buf = [0u8; 4];
    let chunks = vec![vec![1u8, 2], vec![3, 4]];
    assert_eq!(fill_buffer(&mut buf, &chunks), Ok(4));
    assert_eq!(buf, [1, 2, 3, 4]);
}

#[test]
fn fill_buffer_too_small_keeps_prefix_and_rest() {
    let mut buf = [9u8; 5];
    let chunks = vec![vec![1u8, 2], vec![3, 4], vec![5, 6]];
    assert_eq!(fill_buffer(&mut buf, &chunks), Err(TransferError::BufferTooSmall));
    assert_eq!(buf, [1, 2, 3, 4, 9]);
}

#[test]
fn fill_buffer_first_chunk_too_large_writes_nothing() {
    let mut buf = [7u8; 3];
    let chunks = vec![vec![1u8, 2, 3, 4]];
    assert_eq!(fill_buffer(&mut buf, &chunks), Err(TransferError::BufferTooSmall));
    assert_eq!(buf, [7, 7, 7]);
}

#[test]
fn fill_buffer_empty_buffer_no_chunks() {
    let mut buf: [u8; 0] = [];
    let chunks: Vec<Vec<u8>> = vec![];
    assert_eq!(fill_buffer(&mut buf, &chunks), Ok(0));
}

#[test]
fn plan_ranged_get_refuses_small_buffer() {
    assert_eq!(plan_ranged_get(PART_SIZE + 2, PART_SIZE + 1), Err(TransferError::BufferTooSmall));
}

#[test]
fn plan_ranged_get_plans_parts() {
    let r = plan_ranged_get(PART_SIZE + 2, 3 * PART_SIZE).unwrap();
    assert_eq!(r, vec![(0, PART_SIZE), (PART_SIZE, PART_SIZE + 2)]);
}

#[test]
fn transfer_error_message() {
    assert_eq!(TransferError::BufferTooSmall.message(), "Supplied buffer was too small");
}

fn round_trip(n: usize) {
    let data: Vec<u8> = (0..n).map(|i| (i % 251) as u8).collect();
    let ranges = plan_ranged_get(n, n + 16).unwrap();
    let parts: Vec<Vec<u8>> = ranges.iter().map(|&(a, b)| data[a..b].to_vec()).collect();
    let mut buf = vec![0u8; n + 16];
    assert_eq!(fill_buffer(&mut buf, &parts), Ok(n));
    assert_eq!(&buf[..n], &data[..]);
    assert!(buf[n..].iter().all(|&b| b == 0));
}

#[test]
fn round_trip_below_threshold() {
    round_trip(PART_SIZE - 1);
}

#[test]
fn round_trip_at_threshold() {
    round_trip(PART_SIZE);
}

#[test]
fn round_trip_above_threshold() {
    round_trip(PART_SIZE + 1);
}

#[test]
fn round_trip_small() {
    round_trip(1);
}

#[test]
fn fill_ranges_places_parts_at_their_offsets() {
    let mut buf = vec![0u8; 2 * PART_SIZE + 8];
    let size = PART_SIZE + 3;
    let parts = vec![vec![1u8; PART_SIZE], vec![2u8, 3, 4]];
    assert_eq!(fill_ranges(&mut buf, size, &parts), Ok(size));
    assert!(buf[..PART_SIZE].iter().all(|&b| b == 1));
    assert_eq!(&buf[PART_SIZE..size], &[2, 3, 4]);
    assert!(buf[size..].iter().all(|&b| b == 0));
}

#[test]
fn fill_ranges_refuses_short_part() {
    let mut buf = [9u8; 4];
    let parts = vec![vec![1u8]];
    assert_eq!(fill_ranges(&mut buf, 2, &parts), Err(TransferError::PartMismatch));
    assert_eq!(buf, [9, 9, 9, 9]);
}

#[test]
fn fill_ranges_refuses_wrong_part_count() {
    let mut buf = [9u8; 4];
    let parts = vec![vec![1u8], vec![2u8]];
    assert_eq!(fill_ranges(&mut buf, 2, &parts), Err(TransferError::PartMismatch));
    assert_eq!(buf, [9, 9, 9, 9]);
}

#[test]
fn fill_ranges_refuses_object_larger_than_buffer() {
    let mut buf = [9u8; 2];
    let parts = vec![vec![1u8, 2, 3]];
    assert_eq!(fill_ranges(&mut buf, 3, &parts), Err(TransferError::BufferTooSmall));
    assert_eq!(buf, [9, 9]);
}

#[test]
fn fill_ranges_empty_object() {
    let mut buf = [9u8; 2];
    let parts: Vec<Vec<u8>> = vec![];
    assert_eq!(fill_ranges(&mut buf, 0, &parts), Ok(0));
    assert_eq!(buf, [9, 9]);
}
