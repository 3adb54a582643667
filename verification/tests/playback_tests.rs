use liege::animation::{LiegeAnimation, PlayMode};
use liege::atlas::{Frame, LiegeSprite, Size};
use liege::playback::PlaybackClock;

fn dummy_sprite(x: i32) -> LiegeSprite {
    LiegeSprite {
        frame: Frame { x, y: 0, w: 9, h: 9 },
        rotated: false,
        trimmed: false,
        sprite_source_size: Frame { x: 0, y: 0, w: 9, h: 9 },
        source_size: Size { w: 9, h: 9 },
    }
}

fn clip(frame_count: usize, fps: u32, mode: PlayMode) -> LiegeAnimation {
    let mut frames = Vec::new();
    for i in 0..frame_count {
        frames.push(dummy_sprite(i as i32));
    }
    LiegeAnimation { frames, fps, mode }
}

#[test]
fn test_loop_clip_frame_indices() {
    // A looping 4-frame clip at 8 fps: cumulative elapsed 0.0, 0.124,
    // 0.126 and 0.374 seconds resolve frames 0, 0, 1 and 2.
    let c = clip(4, 8, PlayMode::Loop);
    let mut clock = PlaybackClock::new();
    assert_eq!(clock.frame_index(&c), 0);
    assert!(!clock.is_ended(&c));

    clock.update(124);
    assert_eq!(clock.frame_index(&c), 0);

    clock.update(2);
    assert_eq!(clock.frame_index(&c), 1);

    clock.update(248);
    assert_eq!(clock.frame_index(&c), 2);
    assert!(!clock.is_ended(&c));
}

#[test]
fn test_loop_clip_wraps() {
    let c = clip(4, 8, PlayMode::Loop);
    let mut clock = PlaybackClock::new();
    // 0.5 seconds at 8 fps is frame 4, which wraps to 0.
    clock.update(500);
    assert_eq!(clock.frame_index(&c), 0);
    clock.update(125);
    assert_eq!(clock.frame_index(&c), 1);
    assert!(!clock.is_ended(&c));
}

#[test]
fn test_once_clip_ends_exactly_at_completion() {
    // A once-mode 12-frame clip at 8 fps ends exactly at 12/8 = 1.5 s
    // and holds frame 11 thereafter.
    let c = clip(12, 8, PlayMode::Once);
    let mut clock = PlaybackClock::new();
    clock.update(1499);
    assert_eq!(clock.frame_index(&c), 11);
    assert!(!clock.is_ended(&c));

    clock.update(1);
    assert!(clock.is_ended(&c));
    assert_eq!(clock.frame_index(&c), 11);

    clock.update(10_000);
    assert!(clock.is_ended(&c));
    assert_eq!(clock.frame_index(&c), 11);
}

#[test]
fn test_negative_delta_never_moves_clock_backward() {
    let c = clip(4, 8, PlayMode::Loop);
    let mut clock = PlaybackClock::new();
    clock.update(250);
    assert_eq!(clock.frame_index(&c), 2);
    clock.update(-1000);
    assert_eq!(clock.frame_index(&c), 2);
    clock.update(0);
    assert_eq!(clock.frame_index(&c), 2);
}

#[test]
fn test_reset_zeroes_the_clock() {
    let c = clip(4, 8, PlayMode::Once);
    let mut clock = PlaybackClock::new();
    clock.update(700);
    assert_eq!(clock.frame_index(&c), 3);
    clock.reset();
    assert_eq!(clock.elapsed_ms, 0);
    assert_eq!(clock.frame_index(&c), 0);
}

#[test]
fn test_advance_combines_update_and_resolution() {
    let c = clip(12, 8, PlayMode::Once);
    let mut clock = PlaybackClock::new();
    let (idx, ended) = clock.advance(&c, 1000);
    assert_eq!(idx, 8);
    assert!(!ended);
    let (idx, ended) = clock.advance(&c, 500);
    assert_eq!(idx, 11);
    assert!(ended);
}

#[test]
fn test_resolve_returns_exact_frame() {
    let c = clip(4, 8, PlayMode::Loop);
    assert_eq!(c.resolve(2).frame.x, 2);
    assert_eq!(c.frame_count(), 4);
    let copy = c.duplicate();
    assert_eq!(copy.frames.len(), 4);
    assert_eq!(copy.resolve(3).frame.x, 3);
}
