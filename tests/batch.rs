use hg_viz::batch::{fill_chunk, merge_chunks, plan_batch, BatchError, BatchPlan, WORKERS};

#[test]
fn plan_for_exponent_ten_gives_1024_samples() {
    let plan = plan_batch(10).unwrap();
    assert_eq!(plan, BatchPlan { workers: 8, per_worker: 128 });
    let chunks: Vec<Vec<u32>> = (0..plan.workers).map(|_| fill_chunk(plan.per_worker, || 7u32)).collect();
    let batch = merge_chunks(chunks);
    assert_eq!(batch.len(), 1024);
}

#[test]
fn plan_for_smallest_exponent_gives_one_per_worker() {
    assert_eq!(plan_batch(3), Ok(BatchPlan { workers: WORKERS, per_worker: 1 }));
}

#[test]
fn plan_covers_slider_range() {
    for exponent in 8usize..=14 {
        let plan = plan_batch(exponent).unwrap();
        assert_eq!(plan.workers * plan.per_worker, 1usize << exponent);
    }
}

#[test]
fn exponent_two_is_rejected() {
    assert_eq!(plan_batch(2), Err(BatchError::ExponentTooSmall));
    assert_eq!(plan_batch(0), Err(BatchError::ExponentTooSmall));
}

#[test]
fn exponent_past_word_size_is_rejected() {
    let bits = usize::BITS as usize;
    assert_eq!(plan_batch(bits), Err(BatchError::ExponentTooLarge));
    assert_eq!(plan_batch(usize::MAX), Err(BatchError::ExponentTooLarge));
    let largest = plan_batch(bits - 1).unwrap();
    assert_eq!(largest.per_worker, 1usize << (bits - 4));
}

#[test]
fn fill_chunk_calls_draw_for_each_sample() {
    let chunk = fill_chunk(5, || (1i32, -1i32));
    assert_eq!(chunk, vec![(1, -1); 5]);
    let empty: Vec<u8> = fill_chunk(0, || 1u8);
    assert!(empty.is_empty());
}

#[test]
fn merge_keeps_chunk_order() {
    let merged = merge_chunks(vec![vec![1, 2], vec![], vec![3], vec![4, 5, 6]]);
    assert_eq!(merged, vec![1, 2, 3, 4, 5, 6]);
    let none: Vec<u8> = merge_chunks(Vec::new());
    assert!(none.is_empty());
}

#[test]
fn repeated_batches_have_equal_size() {
    let plan = plan_batch(9).unwrap();
    let first = merge_chunks((0..plan.workers).map(|_| fill_chunk(plan.per_worker, || 0.5f32)).collect());
    let second = merge_chunks((0..plan.workers).map(|_| fill_chunk(plan.per_worker, || -0.5f32)).collect());
    assert_eq!(first.len(), 512);
    assert_eq!(first.len(), second.len());
}
