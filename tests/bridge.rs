use whisper_ware::assembler::BLOCK_SIZE;
use whisper_ware::bridge::{
    bridge, emit_frames, next_captured, next_render_frame, offer_captured, offer_processed,
    AudioFrame, Frame,
};
use whisper_ware::error::{ChannelFailure, ErrorKind};

const SILENCE: AudioFrame = Frame { left: 0, right: 0 };

fn bits(l: f32, r: f32) -> AudioFrame {
    Frame { left: l.to_bits(), right: r.to_bits() }
}

#[test]
fn bridge_capacity_is_four_blocks() {
    let (tx, rx) = bridge(BLOCK_SIZE);
    assert_eq!(tx.capacity(), 2048);
    assert_eq!(rx.capacity(), 4 * BLOCK_SIZE);
    let (tx, _rx) = bridge(3);
    assert_eq!(tx.capacity(), 12);
}

#[test]
fn full_output_bridge_is_a_fatal_error() {
    let (tx, _rx) = bridge(2);
    for i in 0..8 {
        assert!(offer_processed(&tx, bits(i as f32, 0.0)).is_ok());
    }
    assert!(matches!(
        offer_processed(&tx, bits(9.0, 0.0)),
        Err(ErrorKind::RenderStalled)
    ));
}

#[test]
fn capture_overflow_drops_frames_silently() {
    let (tx, rx) = bridge(2);
    for i in 0..100 {
        offer_captured(&tx, Frame { left: i, right: i });
    }
    let mut got = Vec::new();
    while let Ok(Some(f)) = rx.try_recv() {
        got.push(f.left);
    }
    assert_eq!(got, (0..8).collect::<Vec<u32>>());
}

#[test]
fn render_side_plays_silence_when_empty() {
    let (tx, rx) = bridge(1);
    let f = next_render_frame(&rx, SILENCE);
    assert_eq!((f.left, f.right), (0, 0));
    offer_captured(&tx, bits(0.5, -0.5));
    let f = next_render_frame(&rx, SILENCE);
    assert_eq!((f32::from_bits(f.left), f32::from_bits(f.right)), (0.5, -0.5));
}

#[test]
fn closed_bridge_reports_send_and_receive_errors() {
    let (tx, rx) = bridge(1);
    drop(rx);
    assert!(matches!(
        offer_processed(&tx, Frame { left: 1, right: 1 }),
        Err(ErrorKind::Send(ChannelFailure::HalfClosed))
    ));
    let (tx, rx) = bridge(1);
    offer_captured(&tx, Frame { left: 3, right: 4 });
    drop(tx);
    assert_eq!(next_captured(&rx).map(|f| (f.left, f.right)).ok(), Some((3, 4)));
    assert!(matches!(next_captured(&rx), Err(ErrorKind::Receive(_))));
}

#[test]
fn emit_stops_at_first_refusal() {
    let (tx, rx) = bridge(1);
    let frames: Vec<AudioFrame> = (0..6).map(|i| Frame { left: i, right: i }).collect();
    assert!(matches!(emit_frames(&tx, &frames), Err(ErrorKind::RenderStalled)));
    assert_eq!(rx.len(), 4);
    let (tx, rx) = bridge(2);
    assert!(emit_frames(&tx, &frames).is_ok());
    assert_eq!(rx.len(), 6);
}

#[test]
fn emitting_nothing_succeeds_even_when_full() {
    let (tx, _rx) = bridge(1);
    for i in 0..4 {
        offer_captured(&tx, Frame { left: i, right: i });
    }
    assert!(emit_frames(&tx, &Vec::<AudioFrame>::new()).is_ok());
}
