use whisper_ware::assembler::{interleave, BlockAssembler, BLOCK_SIZE};
use whisper_ware::bridge::Frame;

fn frame(i: u32) -> Frame<u32> {
    Frame { left: 2 * i, right: 2 * i + 1 }
}

#[test]
fn blocks_are_submitted_whole_and_in_order() {
    let mut blocks_in = BlockAssembler::new(4, 0u32);
    let mut blocks: Vec<(Vec<u32>, Vec<u32>)> = Vec::new();
    for i in 0..10 {
        if blocks_in.push(frame(i)) {
            blocks.push((blocks_in.input_left().clone(), blocks_in.input_right().clone()));
        }
    }
    assert_eq!(blocks.len(), 2);
    assert_eq!(blocks[0], (vec![0, 2, 4, 6], vec![1, 3, 5, 7]));
    assert_eq!(blocks[1], (vec![8, 10, 12, 14], vec![9, 11, 13, 15]));
}

#[test]
fn multiple_of_block_size_gives_exact_block_count() {
    let mut blocks_in = BlockAssembler::new(BLOCK_SIZE, 0.0f32);
    let mut calls = 0;
    for i in 0..(3 * BLOCK_SIZE) {
        let s = i as f32;
        if blocks_in.push(Frame { left: s, right: -s }) {
            calls += 1;
            assert_eq!(blocks_in.input_left()[0], ((calls - 1) * BLOCK_SIZE) as f32);
            assert_eq!(blocks_in.input_right()[BLOCK_SIZE - 1], -(((calls * BLOCK_SIZE) - 1) as f32));
        }
    }
    assert_eq!(calls, 3);
}

#[test]
fn trailing_partial_block_is_not_submitted() {
    let mut blocks_in = BlockAssembler::new(3, 0u32);
    let submitted: usize = (0..8).filter(|i| blocks_in.push(frame(*i))).count();
    assert_eq!(submitted, 2);
}

#[test]
fn interleave_pairs_channels_in_sample_order() {
    let out = interleave(&vec![1, 2, 3], &vec![10, 20, 30]);
    let pairs: Vec<(i32, i32)> = out.iter().map(|f| (f.left, f.right)).collect();
    assert_eq!(pairs, vec![(1, 10), (2, 20), (3, 30)]);
}
