use chuckle::chunkify::{chunkify, ChunkRemainder, RemainderStrategy};

#[test]
fn test_overflow() {
	let v = vec![1, 2, 3, 4, 5, 6, 7];
	let result = chunkify(v, 3, RemainderStrategy::Overflow);
	assert_eq!(result.chunks, vec![vec![1, 2, 3], vec![4, 5, 6, 7]]);
	assert_eq!(result.excluded, Vec::<i32>::new());
}

fn irange(start: i32, stop: i32) -> Vec<i32> {
	(start..=stop).collect::<Vec<i32>>()
}

#[test]
fn test_overflow_big() {
	// create a vec of usizes going from 1 to 35
	let v = irange(1, 35);
	let result = chunkify(v, 6, RemainderStrategy::Overflow);
	assert_eq!(
		result.chunks,
		vec![
			vec![1, 2, 3, 4, 5, 6, 31],
			vec![7, 8, 9, 10, 11, 12, 32],
			vec![13, 14, 15, 16, 17, 18, 33],
			vec![19, 20, 21, 22, 23, 24, 34],
			vec![25, 26, 27, 28, 29, 30, 35],
		]
	);
	assert_eq!(result.excluded, Vec::<i32>::new());
}

#[test]
fn test_exclude() {
	let v = vec![1, 2, 3, 4, 5, 6, 7];
	let result = chunkify(v, 3, RemainderStrategy::Exclude);
	assert_eq!(result.chunks, vec![vec![1, 2, 3], vec![4, 5, 6]]);
	assert_eq!(result.excluded, vec![7]);
}

#[test]
fn exclude_keeps_every_item_in_order() {
	let v = irange(1, 10);
	let result = chunkify(v.clone(), 4, RemainderStrategy::Exclude);
	let mut all: Vec<i32> = result.chunks.concat();
	all.extend(result.excluded.iter());
	assert_eq!(all, v);
	assert!(result.chunks.iter().all(|c| c.len() == 4));
}

#[test]
fn overflow_drops_surplus_when_remainder_exceeds_chunks() {
	// 5 items in chunks of 3: one chunk, two leftover items; only the last
	// leftover fits.
	let result = chunkify(vec![1, 2, 3, 4, 5], 3, RemainderStrategy::Overflow);
	assert_eq!(result.chunks, vec![vec![1, 2, 3, 5]]);
	assert!(result.excluded.is_empty());
}

#[test]
fn overflow_fewer_items_than_a_chunk_gives_no_chunk() {
	let result = chunkify(vec![1, 2], 3, RemainderStrategy::Overflow);
	assert!(result.chunks.is_empty());
	let result = chunkify(vec![1, 2], 3, RemainderStrategy::Exclude);
	assert!(result.chunks.is_empty());
	assert_eq!(result.excluded, vec![1, 2]);
}

#[test]
fn exact_multiple_has_no_remainder() {
	let result = chunkify(vec![1, 2, 3, 4], 2, RemainderStrategy::Overflow);
	assert_eq!(result.chunks, vec![vec![1, 2], vec![3, 4]]);
	let result = chunkify(Vec::<i32>::new(), 2, RemainderStrategy::Exclude);
	assert!(result.chunks.is_empty());
	assert!(result.excluded.is_empty());
	let r = ChunkRemainder::new(vec![vec![1]], vec![2]);
	assert_eq!(r.chunks, vec![vec![1]]);
	assert_eq!(r.excluded, vec![2]);
}
