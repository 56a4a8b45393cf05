use crash_site::animation::{
    fire_clips, frame_rate, player_clips, AnimClip, AnimateSprite, AnimationState, PAUSED_STATE,
};

fn sprite(clips: Vec<AnimClip>) -> AnimateSprite {
    AnimateSprite { default_fps: 12, anim_state: 0, clips }
}

#[test]
fn new_state_restarts_clip_zero_on_first_sync() {
    let cfg = sprite(vec![AnimClip { start: 4, end: 7, fps: 0 }]);
    let mut s = AnimationState::default();
    assert_eq!(s.frame(), 0);
    assert!(s.sync_if_changed(&cfg));
    assert_eq!(s.frame(), 4);
    assert!(!s.sync_if_changed(&cfg));
    assert_eq!(s.frame(), 4);
}

#[test]
fn sync_to_missing_clip_shows_frame_zero() {
    let cfg = sprite(vec![AnimClip { start: 4, end: 7, fps: 0 }]);
    let mut s = AnimationState::new();
    s.sync_if_changed(&cfg);
    s.set_anim_state(5);
    assert!(s.sync_if_changed(&cfg));
    assert_eq!(s.frame(), 0);
    assert_eq!(s.current_clip(&cfg), None);
}

#[test]
fn set_anim_state_takes_effect_at_sync() {
    let cfg = sprite(player_clips());
    let mut s = AnimationState::new();
    s.sync_if_changed(&cfg);
    s.set_anim_state(1);
    assert_eq!(s.anim_state(), 1);
    assert_eq!(s.current_clip(&cfg), Some(AnimClip { start: 0, end: 5, fps: 10 }));
    assert!(s.sync_if_changed(&cfg));
    assert_eq!(s.frame(), 0);
}

#[test]
fn pause_asks_for_clip_zero() {
    let mut s = AnimationState::new();
    s.set_anim_state(1);
    s.pause();
    assert_eq!(s.anim_state(), 0);
}

#[test]
fn paused_state_plays_nothing() {
    let mut clips = Vec::new();
    for _ in 0..1000 {
        clips.push(AnimClip { start: 0, end: 1, fps: 1 });
    }
    let cfg = sprite(clips);
    let mut s = AnimationState::new();
    s.set_anim_state(PAUSED_STATE);
    assert_eq!(s.playing_clip(&cfg), None);
    assert!(s.current_clip(&cfg).is_some());
    s.set_anim_state(3);
    assert!(s.playing_clip(&cfg).is_some());
}

#[test]
fn step_frame_advances_and_wraps() {
    let clip = AnimClip { start: 2, end: 4, fps: 0 };
    let cfg = sprite(vec![clip]);
    let mut s = AnimationState::new();
    s.sync_if_changed(&cfg);
    assert_eq!(s.frame(), 2);
    s.step_frame(clip);
    assert_eq!(s.frame(), 3);
    s.step_frame(clip);
    assert_eq!(s.frame(), 4);
    s.step_frame(clip);
    assert_eq!(s.frame(), 2);
}

#[test]
fn stray_frame_jumps_to_start() {
    let clip_a = AnimClip { start: 0, end: 6, fps: 0 };
    let clip_b = AnimClip { start: 10, end: 12, fps: 0 };
    let cfg = sprite(vec![clip_a]);
    let mut s = AnimationState::new();
    s.sync_if_changed(&cfg);
    s.step_frame(clip_a);
    assert_eq!(s.frame(), 1);
    s.step_frame(clip_b);
    assert_eq!(s.frame(), 10);
}

#[test]
fn clip_cycles_after_its_length() {
    let clip = AnimClip { start: 0, end: 6, fps: 10 };
    let cfg = sprite(vec![clip]);
    let mut s = AnimationState::new();
    s.sync_if_changed(&cfg);
    s.step_frame(clip);
    s.step_frame(clip);
    let f = s.frame();
    for _ in 0..7 {
        s.step_frame(clip);
        assert!(s.frame() <= 6);
    }
    assert_eq!(s.frame(), f);
}

#[test]
fn single_frame_clip_stays() {
    let clip = AnimClip { start: 0, end: 0, fps: 0 };
    let cfg = sprite(vec![clip]);
    let mut s = AnimationState::new();
    s.sync_if_changed(&cfg);
    s.step_frame(clip);
    assert_eq!(s.frame(), 0);
}

#[test]
fn frame_rate_falls_back_to_default() {
    assert_eq!(frame_rate(AnimClip { start: 0, end: 0, fps: 0 }, 10), 10);
    assert_eq!(frame_rate(AnimClip { start: 0, end: 5, fps: 8 }, 10), 8);
}

#[test]
fn clip_tables() {
    assert_eq!(fire_clips(), vec![AnimClip { start: 0, end: 6, fps: 10 }]);
    assert_eq!(
        player_clips(),
        vec![AnimClip { start: 0, end: 0, fps: 0 }, AnimClip { start: 0, end: 5, fps: 10 }]
    );
}
