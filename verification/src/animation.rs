//! Sprite animation: which clip of a sprite sheet plays and which frame of it
//! is shown.  The host accumulates elapsed seconds and asks for one frame
//! step each time a frame's worth of time has passed.

use vstd::prelude::*;
use vstd::arithmetic::div_mod::{lemma_add_mod_noop, lemma_small_mod, lemma_mod_self_0, lemma_mod_bound};

verus! {

/// The animation state number that means "paused": no clip plays.
pub const PAUSED_STATE: u32 = 999;

/// A run of frames `start..=end` of a sprite sheet, played at `fps` frames per
/// second (0 means the sprite's default rate).
#[derive(Clone, Copy, Debug, PartialEq, Eq, Structural)]
pub struct AnimClip {
    pub start: u32,
    pub end: u32,
    pub fps: u32,
}

/// An animated sprite's configuration: its clips, indexed by animation state,
/// and the frame rate of clips that give none.
pub struct AnimateSprite {
    pub default_fps: u32,
    pub anim_state: u32,
    pub clips: Vec<AnimClip>,
}

/// What an animation state holds: the frame shown, the clip asked for, and the
/// clip whose frames are being shown.
pub struct AnimationView {
    pub frame: u32,
    pub anim_state: u32,
    pub last_anim_state: u32,
}

/// Frame and clip bookkeeping of an animated sprite.
pub struct AnimationState {
    frame: u32,
    anim_state: u32,
    last_anim_state: u32,
}

impl View for AnimationState {
    type V = AnimationView;

    closed spec fn view(&self) -> AnimationView {
        AnimationView {
            frame: self.frame,
            anim_state: self.anim_state,
            last_anim_state: self.last_anim_state,
        }
    }
}

/// The clip numbered `idx`, if there is one.
pub open spec fn clip_at(clips: Seq<AnimClip>, idx: u32) -> Option<AnimClip> {
    if idx < clips.len() {
        Some(clips[idx as int])
    } else {
        None
    }
}

/// The state after it has caught up with a change of clip: when the clip
/// asked for differs from the one shown, the new clip restarts at its first
/// frame (frame 0 where no such clip exists).
pub open spec fn synced(s: AnimationView, clips: Seq<AnimClip>) -> AnimationView {
    if s.anim_state != s.last_anim_state {
        AnimationView {
            frame: match clip_at(clips, s.anim_state) {
                Some(c) => c.start,
                None => 0,
            },
            anim_state: s.anim_state,
            last_anim_state: s.anim_state,
        }
    } else {
        s
    }
}

/// The frame that follows `frame` in `clip`: the next one, or back to the
/// start after the last one or from a frame outside the clip.
pub open spec fn next_frame(frame: u32, clip: AnimClip) -> u32 {
    if frame < clip.start || frame > clip.end {
        clip.start
    } else if frame == clip.end {
        clip.start
    } else {
        (frame + 1) as u32
    }
}

/// The frame shown after `n` frame steps from `frame`.
pub open spec fn frames_after(frame: u32, clip: AnimClip, n: nat) -> u32
    decreases n,
{
    if n == 0 {
        frame
    } else {
        next_frame(frames_after(frame, clip, (n - 1) as nat), clip)
    }
}

/// The number of frames in a well-formed clip.
pub open spec fn clip_len(clip: AnimClip) -> int {
    clip.end - clip.start + 1
}

/// Frames per second of `clip`, falling back to the sprite's default.
pub open spec fn rate_of(clip: AnimClip, default_fps: u32) -> u32 {
    if clip.fps == 0 { default_fps } else { clip.fps }
}

impl AnimationState {
    /// The state a sprite starts in: frame 0 of clip 0, with no clip shown
    /// yet, so that the first update starts clip 0 from its first frame.
    pub fn new() -> (r: AnimationState)
        ensures
            r@.frame == 0,
            r@.anim_state == 0,
            r@.last_anim_state == u32::MAX,
    {
        AnimationState { frame: 0, anim_state: 0, last_anim_state: u32::MAX }
    }

    /// The frame shown.
    pub fn frame(&self) -> (r: u32)
        ensures
            r == self@.frame,
    {
        self.frame
    }

    /// The clip asked for.
    pub fn anim_state(&self) -> (r: u32)
        ensures
            r == self@.anim_state,
    {
        self.anim_state
    }

    /// Asks for clip 0.
    pub fn pause(&mut self)
        ensures
            final(self)@.anim_state == 0,
            final(self)@.frame == old(self)@.frame,
            final(self)@.last_anim_state == old(self)@.last_anim_state,
    {
        self.anim_state = 0;
    }

    /// Asks for clip `animation`; it starts at the next update.
    pub fn set_anim_state(&mut self, animation: u32)
        ensures
            final(self)@.anim_state == animation,
            final(self)@.frame == old(self)@.frame,
            final(self)@.last_anim_state == old(self)@.last_anim_state,
    {
        self.anim_state = animation;
    }

    /// The configured clip for the clip asked for, if the sprite has one.
    pub fn current_clip(&self, config: &AnimateSprite) -> (r: Option<AnimClip>)
        ensures
            r == clip_at(config.clips@, self@.anim_state),
            self@.anim_state < config.clips@.len() ==> r == Some(config.clips@[self@.anim_state as int]),
            self@.anim_state >= config.clips@.len() ==> r is None,
    {
        let idx = self.anim_state as usize;
        if idx < config.clips.len() {
            Some(config.clips[idx])
        } else {
            None
        }
    }

    /// Catches up with a change of clip; returns whether the clip restarted,
    /// in which case the time accumulated towards the next frame is dropped.
    pub fn sync_if_changed(&mut self, config: &AnimateSprite) -> (r: bool)
        ensures
            final(self)@ == synced(old(self)@, config.clips@),
            r == (old(self)@.anim_state != old(self)@.last_anim_state),
            old(self)@.anim_state == old(self)@.last_anim_state ==> final(self)@ == old(self)@,
    {
        if self.anim_state != self.last_anim_state {
            match self.current_clip(config) {
                Some(clip) => {
                    self.frame = clip.start;
                },
                None => {
                    self.frame = 0;
                },
            }
            self.last_anim_state = self.anim_state;
            true
        } else {
            false
        }
    }

    /// The clip that plays: none while paused or when the sprite has no clip
    /// with the number asked for.
    pub fn playing_clip(&self, config: &AnimateSprite) -> (r: Option<AnimClip>)
        ensures
            r == (if self@.anim_state == PAUSED_STATE { None } else { clip_at(config.clips@, self@.anim_state) }),
    {
        if self.anim_state == PAUSED_STATE {
            None
        } else {
            self.current_clip(config)
        }
    }

    /// Shows the next frame of `clip`.
    pub fn step_frame(&mut self, clip: AnimClip)
        ensures
            final(self)@.frame == next_frame(old(self)@.frame, clip),
            final(self)@.anim_state == old(self)@.anim_state,
            final(self)@.last_anim_state == old(self)@.last_anim_state,
    {
        if self.frame < clip.start || self.frame > clip.end {
            self.frame = clip.start;
        } else if self.frame == clip.end {
            self.frame = clip.start;
        } else {
            self.frame = self.frame + 1;
        }
    }
}

impl Default for AnimationState {
    /// Same as [`AnimationState::new`].
    fn default() -> (r: AnimationState)
        ensures
            r@.frame == 0,
            r@.anim_state == 0,
            r@.last_anim_state == u32::MAX,
    {
        AnimationState::new()
    }
}

/// The fire's clips: one looping clip of frames 0 to 6 at 10 frames per second.
pub fn fire_clips() -> (r: Vec<AnimClip>)
    ensures
        r@ == seq![AnimClip { start: 0, end: 6, fps: 10 }],
{
    vec![AnimClip { start: 0, end: 6, fps: 10 }]
}

/// The player's clips: 0 stands still on frame 0, 1 walks through frames 0 to 5
/// at 10 frames per second.
pub fn player_clips() -> (r: Vec<AnimClip>)
    ensures
        r@ == seq![AnimClip { start: 0, end: 0, fps: 0 }, AnimClip { start: 0, end: 5, fps: 10 }],
{
    vec![AnimClip { start: 0, end: 0, fps: 0 }, AnimClip { start: 0, end: 5, fps: 10 }]
}

/// Frames per second at which `clip` plays on a sprite whose default rate is
/// `default_fps`.
pub fn frame_rate(clip: AnimClip, default_fps: u32) -> (r: u32)
    ensures
        r == rate_of(clip, default_fps),
        clip.fps != 0 ==> r == clip.fps,
        clip.fps == 0 ==> r == default_fps,
{
    if clip.fps == 0 {
        default_fps
    } else {
        clip.fps
    }
}

/// Catching up with a change of clip twice is the same as once, and after it
/// the clip shown is the clip asked for.
pub proof fn lemma_sync_idempotent(s: AnimationView, clips: Seq<AnimClip>)
    ensures
        synced(synced(s, clips), clips) == synced(s, clips),
        synced(s, clips).last_anim_state == s.anim_state,
        synced(s, clips).anim_state == s.anim_state,
{
}

/// While the clip asked for is the one shown, catching up changes nothing:
/// the frame keeps advancing from where it is, whatever the clips are.
pub proof fn lemma_sync_keeps_running_clip(s: AnimationView, clips: Seq<AnimClip>)
    requires
        s.anim_state == s.last_anim_state,
    ensures
        synced(s, clips) == s,
        synced(s, clips).frame == s.frame,
{
}

/// A clip that names its own rate plays at exactly that rate; only a clip
/// without one plays at the sprite's default rate.
pub proof fn lemma_rate_of_clip(clip: AnimClip, default_fps: u32)
    ensures
        clip.fps != 0 ==> rate_of(clip, default_fps) == clip.fps,
        clip.fps == 0 ==> rate_of(clip, default_fps) == default_fps,
{
}

/// The clip looked up for a number is the configured clip with that number,
/// unchanged, and there is none past the end of the configuration.
pub proof fn lemma_clip_lookup(clips: Seq<AnimClip>, idx: u32)
    ensures
        idx < clips.len() ==> clip_at(clips, idx) == Some(clips[idx as int]),
        idx >= clips.len() ==> clip_at(clips, idx) is None,
        clip_at(clips, idx) matches Some(c) ==> clips.contains(c),
{
    if idx < clips.len() {
        assert(clips[idx as int] == clips[idx as int]);
    }
}

/// A changed clip restarts at its first frame.
pub proof fn lemma_sync_restarts_clip(s: AnimationView, clips: Seq<AnimClip>)
    requires
        s.anim_state != s.last_anim_state,
        s.anim_state < clips.len(),
    ensures
        synced(s, clips).frame == clips[s.anim_state as int].start,
{
}

proof fn lemma_mod_succ(k: int, len: int)
    requires
        k >= 0,
        len > 0,
    ensures
        k % len < len - 1 ==> (k + 1) % len == k % len + 1,
        k % len == len - 1 ==> (k + 1) % len == 0,
{
    lemma_mod_bound(k, len);
    lemma_mod_bound(k + 1, len);
    if len == 1 {
    } else {
        lemma_add_mod_noop(k, 1, len);
        lemma_small_mod(1, len as nat);
        let r = k % len;
        if r + 1 < len {
            lemma_small_mod((r + 1) as nat, len as nat);
        } else {
            lemma_mod_self_0(len);
        }
    }
}

/// Frame steps walk around a well-formed clip: from a frame inside it, `n`
/// steps show frame `start + (frame - start + n) mod len`.
pub proof fn lemma_frames_wrap(frame: u32, clip: AnimClip, n: nat)
    requires
        clip.start <= clip.end,
        clip.start <= frame <= clip.end,
    ensures
        frames_after(frame, clip, n) == clip.start + (frame - clip.start + n) % clip_len(clip),
    decreases n,
{
    let len = clip_len(clip);
    if n == 0 {
        lemma_small_mod((frame - clip.start) as nat, len as nat);
    } else {
        lemma_frames_wrap(frame, clip, (n - 1) as nat);
        let k = frame - clip.start + n - 1;
        lemma_mod_succ(k, len);
        lemma_mod_bound(k, len);
    }
}

/// Steps never leave a well-formed clip, and after as many steps as the clip
/// has frames the same frame shows again.
pub proof fn lemma_frames_cycle(frame: u32, clip: AnimClip, n: nat)
    requires
        clip.start <= clip.end,
        clip.start <= frame <= clip.end,
    ensures
        clip.start <= frames_after(frame, clip, n) <= clip.end,
        frames_after(frame, clip, clip_len(clip) as nat) == frame,
{
    let len = clip_len(clip);
    lemma_frames_wrap(frame, clip, n);
    lemma_mod_bound(frame - clip.start + n, len);
    lemma_frames_wrap(frame, clip, len as nat);
    lemma_add_mod_noop(frame - clip.start, len, len);
    lemma_mod_self_0(len);
    lemma_small_mod((frame - clip.start) as nat, len as nat);
}

/// A frame outside the clip jumps to the clip's first frame in one step.
pub proof fn lemma_stray_frame_resets(frame: u32, clip: AnimClip)
    requires
        frame < clip.start || frame > clip.end,
    ensures
        next_frame(frame, clip) == clip.start,
{
}

} // verus!
