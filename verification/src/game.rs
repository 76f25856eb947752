//! The game orchestrator: one shared context driving every state machine.
//!
//! The host calls [`Game::apply_transitions`] at the tick boundary and
//! then [`Game::tick`] with the tick's input and physics observation.
//! Transition requests raised during a tick are queued in the pending
//! slots and applied atomically by the next `apply_transitions`, so
//! everything reading current state within a tick sees a single
//! consistent value; one-shot entry work (activating geometry, resetting
//! lives, showing overlays) runs exactly once, at the moment a request is
//! applied.
//!
//! Within a tick the machines run in priority order: swing input first,
//! then the physics event bridge, then the hole machine and lives tracker
//! consuming the event list, then the win-delay timer.

use vstd::prelude::*;

use crate::bridge::BallObservation;
use crate::bridge::LevelBounds;
use crate::bridge::ball_in_goal;
use crate::bridge::bridge_events;
use crate::bridge::bridge_spec;
use crate::bridge::out_of_bounds;
use crate::events::Effect;
use crate::events::GameEvent;
use crate::geom::Vec2i;
use crate::geom::in_box;
use crate::level::WIN_DELAY_MS;
use crate::level::level_resets_ball;
use crate::level::level_step;
use crate::level::level_transition;
use crate::level_data::Levels;
use crate::level_data::MAX_ANCHOR;
use crate::level_data::level_wf;
use crate::lives::Lives;
use crate::lives::LivesLeft;
use crate::states::AppState;
use crate::states::CourseState;
use crate::states::LevelState;
use crate::states::PhysicsState;
use crate::states::SwingState;
use crate::swing::LAUNCH_FACTOR;
use crate::swing::SwingController;
use crate::swing::lemma_power_range;
use crate::swing::power_level;

verus! {

/// Everything the host reports for one tick: elapsed presentation time,
/// pointer input in world half-units, the ball observation, the current
/// play bounds, and the debug pause toggle.
pub struct FrameInput {
    pub dt_ms: u32,
    pub pointer_pressed: bool,
    pub pointer_released: bool,
    pub pointer: Vec2i,
    pub ball: BallObservation,
    pub bounds: LevelBounds,
    pub toggle_pause: bool,
}

/// The shared game context: every machine's current state, the pending
/// transition requests, the lives tracker, the swing controller and the
/// pre-staged course geometry.
pub struct Game {
    pub app_state: AppState,
    pub course_state: CourseState,
    pub level_state: LevelState,
    pub physics_state: PhysicsState,
    pub swing: SwingController,
    pub lives: Lives,
    pub lives_left: LivesLeft,
    /// Index of the current hole within `levels`.
    pub level_index: usize,
    /// The course's pre-staged holes, built once at load time.
    pub levels: Levels,
    /// Remaining success delay while the hole is `Won`, in milliseconds.
    pub win_timer_ms: u32,
    /// The sleep flag seen last tick, for edge detection.
    pub prev_asleep: bool,
    /// Transition requests, applied at the next tick boundary.
    pub pending_app: Option<AppState>,
    pub pending_course: Option<CourseState>,
    pub pending_level: Option<LevelState>,
}

/// Tee anchor of the current hole.
pub open spec fn tee_of(g: Game, index: int) -> Vec2i {
    g.levels.0@[index].tee
}

/// Goal anchor of the current hole.
pub open spec fn goal_of(g: Game) -> Vec2i {
    g.levels.0@[g.level_index as int].goal_bottom_left
}

impl Game {
    /// The context is internally consistent: at least one hole, the
    /// current index in range, every hole well-formed, the swing anchor
    /// within coordinate bounds, a queued hole advance only when a
    /// further hole exists and never together with a queued menu entry,
    /// and no wind-up while the ball is (or is about to be) in play.
    pub open spec fn wf(self) -> bool {
        &&& 1 <= self.levels.0@.len()
        &&& self.level_index < self.levels.0@.len()
        &&& forall|i: int|
            0 <= i < self.levels.0@.len() ==> level_wf(#[trigger] self.levels.0@[i])
        &&& in_box(self.swing.anchor, MAX_ANCHOR)
        &&& self.pending_course == Some(CourseState::LoadNextLevel) ==> self.level_index + 1
            < self.levels.0@.len()
        &&& !(self.pending_app == Some(AppState::Menu) && self.pending_course == Some(
            CourseState::LoadNextLevel,
        ))
        &&& (self.level_state == LevelState::InPlay || self.pending_level == Some(
            LevelState::InPlay,
        )) ==> self.swing.state == SwingState::Idle
    }

    /// A fresh game over a built course: in the menu, hole 0 pending
    /// activation through the queued (re-)entry into `Menu`.
    pub fn new(levels: Levels, lives: Lives) -> (r: Game)
        requires
            1 <= levels.0@.len(),
            forall|i: int| 0 <= i < levels.0@.len() ==> level_wf(#[trigger] levels.0@[i]),
        ensures
            r.wf(),
            r.app_state == AppState::Menu,
            r.course_state == CourseState::Playing,
            r.level_state == LevelState::Playable,
            r.physics_state == PhysicsState::Running,
            r.swing.state == SwingState::Idle,
            r.lives == lives,
            r.lives_left.0 == lives.0,
            r.level_index == 0,
            r.levels == levels,
            r.win_timer_ms == 0,
            r.prev_asleep == false,
            r.pending_app == Some(AppState::Menu),
            r.pending_course is None,
            r.pending_level is None,
    {
        Game {
            app_state: AppState::Menu,
            course_state: CourseState::Playing,
            level_state: LevelState::Playable,
            physics_state: PhysicsState::Running,
            swing: SwingController::new(),
            lives,
            lives_left: LivesLeft(lives.0),
            level_index: 0,
            levels,
            win_timer_ms: 0,
            prev_asleep: false,
            pending_app: Some(AppState::Menu),
            pending_course: None,
            pending_level: None,
        }
    }
}

/// State after applying a pending request, or the current state if none
/// is queued.
pub open spec fn applied_app(g: Game) -> AppState {
    match g.pending_app {
        Some(a) => a,
        None => g.app_state,
    }
}

/// See `applied_app`.
pub open spec fn applied_course(g: Game) -> CourseState {
    match g.pending_course {
        Some(c) => c,
        None => g.course_state,
    }
}

/// See `applied_app`.
pub open spec fn applied_level(g: Game) -> LevelState {
    match g.pending_level {
        Some(l) => l,
        None => g.level_state,
    }
}

/// Hole index after the boundary: entering the menu rewinds to hole 0,
/// and entering the course's hole advance then moves one hole on.
pub open spec fn apply_level_index(g: Game) -> int {
    let base: int = if g.pending_app == Some(AppState::Menu) {
        0
    } else {
        g.level_index as int
    };
    if g.pending_course == Some(CourseState::LoadNextLevel) {
        base + 1
    } else {
        base
    }
}

/// Lives after the boundary: entering `Playing` restores the full count.
pub open spec fn apply_lives(g: Game) -> u32 {
    if g.pending_course == Some(CourseState::Playing) {
        g.lives.0
    } else {
        g.lives_left.0
    }
}

/// Course request raised by the boundary's own entry work, for the next
/// boundary.  Entering the hole's `LoadNext` decides between advancing
/// and winning the course; a failed hole fails the course; a completed
/// hole advance, or (re-)entering play from the menu, resumes `Playing`.
pub open spec fn apply_pending_course(g: Game) -> Option<CourseState> {
    if g.pending_level == Some(LevelState::LoadNext) {
        if apply_level_index(g) + 1 < g.levels.0@.len() {
            Some(CourseState::LoadNextLevel)
        } else {
            Some(CourseState::Won)
        }
    } else if g.pending_level == Some(LevelState::Failed) {
        Some(CourseState::Failed)
    } else if g.pending_course == Some(CourseState::LoadNextLevel) {
        Some(CourseState::Playing)
    } else if g.pending_app == Some(AppState::InGame) {
        Some(CourseState::Playing)
    } else {
        None
    }
}

/// Hole request raised by the boundary's own entry work: entering
/// `Playing`, or the menu, makes the (re)loaded hole playable.
pub open spec fn apply_pending_level(g: Game) -> Option<LevelState> {
    if g.pending_course == Some(CourseState::Playing) {
        Some(LevelState::Playable)
    } else if g.pending_app == Some(AppState::Menu) {
        Some(LevelState::Playable)
    } else {
        None
    }
}

/// Win-delay timer after the boundary: entering `Won` arms it.
pub open spec fn apply_win_timer(g: Game) -> u32 {
    if g.pending_level == Some(LevelState::Won) {
        WIN_DELAY_MS
    } else {
        g.win_timer_ms
    }
}

/// The one-shot effects the boundary emits, in machine priority order:
/// geometry (re)activation with a ball reset for the menu's hole 0 or an
/// advanced hole, the course-over overlay, and the bounciness cut on
/// winning a hole.
pub open spec fn apply_effects(g: Game) -> Seq<Effect> {
    (if g.pending_app == Some(AppState::Menu) {
        seq![
            Effect::ActivateLevel { index: 0 },
            Effect::ResetBall { tee: tee_of(g, 0) },
        ]
    } else {
        Seq::empty()
    }) + (if g.pending_course == Some(CourseState::LoadNextLevel) {
        seq![
            Effect::ActivateLevel { index: apply_level_index(g) as usize },
            Effect::ResetBall { tee: tee_of(g, apply_level_index(g)) },
        ]
    } else {
        Seq::empty()
    }) + (if g.pending_course == Some(CourseState::Won) {
        seq![Effect::ShowCourseOverlay { won: true }]
    } else if g.pending_course == Some(CourseState::Failed) {
        seq![Effect::ShowCourseOverlay { won: false }]
    } else {
        Seq::empty()
    }) + (if g.pending_level == Some(LevelState::Won) {
        seq![Effect::ReduceBallBounciness]
    } else {
        Seq::empty()
    })
}

impl Game {
    /// Applies every queued transition request atomically, running each
    /// state's one-shot entry work exactly once and returning its
    /// effects.  Requests raised by the entry work itself land in the
    /// pending slots for the next boundary.
    #[verifier::rlimit(100)]
    pub fn apply_transitions(&mut self) -> (effects: Vec<Effect>)
        requires
            old(self).wf(),
        ensures
            final(self).wf(),
            final(self).app_state == applied_app(*old(self)),
            final(self).course_state == applied_course(*old(self)),
            final(self).level_state == applied_level(*old(self)),
            final(self).level_index == apply_level_index(*old(self)),
            final(self).lives_left.0 == apply_lives(*old(self)),
            final(self).pending_app is None,
            final(self).pending_course == apply_pending_course(*old(self)),
            final(self).pending_level == apply_pending_level(*old(self)),
            final(self).win_timer_ms == apply_win_timer(*old(self)),
            effects@ == apply_effects(*old(self)),
            final(self).swing == old(self).swing,
            final(self).physics_state == old(self).physics_state,
            final(self).prev_asleep == old(self).prev_asleep,
            final(self).levels == old(self).levels,
            final(self).lives == old(self).lives,
    {
        let mut effects: Vec<Effect> = Vec::new();
        let pa = self.pending_app;
        let pc = self.pending_course;
        let pl = self.pending_level;
        self.pending_app = None;
        self.pending_course = None;
        self.pending_level = None;

        // Application machine.
        match pa {
            Some(AppState::Menu) => {
                self.app_state = AppState::Menu;
                self.level_index = 0;
                effects.push(Effect::ActivateLevel { index: 0 });
                effects.push(Effect::ResetBall { tee: self.levels.0[0].tee });
                self.pending_level = Some(LevelState::Playable);
            },
            Some(AppState::InGame) => {
                self.app_state = AppState::InGame;
                self.pending_course = Some(CourseState::Playing);
            },
            None => {},
        }

        // Course machine.
        match pc {
            Some(CourseState::Playing) => {
                self.course_state = CourseState::Playing;
                self.lives_left.reset(&self.lives);
                self.pending_level = Some(LevelState::Playable);
            },
            Some(CourseState::LoadNextLevel) => {
                self.course_state = CourseState::LoadNextLevel;
                let count = self.levels.0.len();
                proof {
                    assert(pc == Some(CourseState::LoadNextLevel));
                    assert(old(self).level_index + 1 < count);
                }
                self.level_index = self.level_index + 1;
                effects.push(Effect::ActivateLevel { index: self.level_index });
                effects.push(Effect::ResetBall { tee: self.levels.0[self.level_index].tee });
                self.pending_course = Some(CourseState::Playing);
            },
            Some(CourseState::Won) => {
                self.course_state = CourseState::Won;
                effects.push(Effect::ShowCourseOverlay { won: true });
            },
            Some(CourseState::Failed) => {
                self.course_state = CourseState::Failed;
                effects.push(Effect::ShowCourseOverlay { won: false });
            },
            None => {},
        }

        // Hole machine.
        match pl {
            Some(LevelState::Won) => {
                self.level_state = LevelState::Won;
                self.win_timer_ms = WIN_DELAY_MS;
                effects.push(Effect::ReduceBallBounciness);
            },
            Some(LevelState::LoadNext) => {
                self.level_state = LevelState::LoadNext;
                if self.level_index < self.levels.0.len() - 1 {
                    self.pending_course = Some(CourseState::LoadNextLevel);
                } else {
                    self.pending_course = Some(CourseState::Won);
                }
            },
            Some(LevelState::Failed) => {
                self.level_state = LevelState::Failed;
                self.pending_course = Some(CourseState::Failed);
            },
            Some(LevelState::Playable) => {
                self.level_state = LevelState::Playable;
            },
            Some(LevelState::InPlay) => {
                self.level_state = LevelState::InPlay;
            },
            None => {},
        }

        proof {
            assert(effects@ =~= apply_effects(*old(self)));
        }
        effects
    }
}

/// Folds one tick's event list through the hole machine and the lives
/// tracker, left to right: a ball-hit spends an attempt (never below
/// zero) before the hole machine sees the event; the third component
/// records whether any event called for a ball reset.
pub open spec fn consume_events_spec(s: LevelState, lives: u32, events: Seq<GameEvent>) -> (
    LevelState,
    u32,
    bool,
)
    decreases events.len(),
{
    if events.len() == 0 {
        (s, lives, false)
    } else {
        let e = events[0];
        let lives2: u32 = if e matches GameEvent::BallHit { .. } && lives > 0 {
            (lives - 1) as u32
        } else {
            lives
        };
        let s2 = level_transition(s, e, lives2);
        let rest = consume_events_spec(s2, lives2, events.drop_first());
        (rest.0, rest.1, level_resets_ball(s, e) || rest.2)
    }
}

/// Executable fold of a tick's events: the effective hole state, the
/// remaining lives, and whether the ball must be reset to the tee.
pub fn consume_events(s: LevelState, lives0: u32, events: &Vec<GameEvent>) -> (r: (
    LevelState,
    u32,
    bool,
))
    ensures
        r.0 == consume_events_spec(s, lives0, events@).0,
        r.1 == consume_events_spec(s, lives0, events@).1,
        r.2 == consume_events_spec(s, lives0, events@).2,
{
    let ghost total = consume_events_spec(s, lives0, events@);
    proof {
        assert(events@.skip(0) =~= events@);
    }
    let mut cur = s;
    let mut ll = LivesLeft(lives0);
    let mut reset = false;
    let mut i: usize = 0;
    while i < events.len()
        invariant
            i <= events@.len(),
            ({
                let rest = consume_events_spec(cur, ll.0, events@.skip(i as int));
                total.0 == rest.0 && total.1 == rest.1 && total.2 == (reset || rest.2)
            }),
            total == consume_events_spec(s, lives0, events@),
        decreases events@.len() - i,
    {
        let e = events[i];
        proof {
            assert(events@.skip(i as int)[0] == events@[i as int]);
            assert(events@.skip(i as int).drop_first() =~= events@.skip(i as int + 1));
        }
        match e {
            GameEvent::BallHit { .. } => {
                let _ = ll.react_to_ball_hit();
            },
            _ => {},
        }
        let st = level_step(cur, e, ll.0);
        reset = reset || st.1;
        cur = st.0;
        i = i + 1;
    }
    proof {
        assert(events@.skip(events@.len() as int) =~= Seq::<GameEvent>::empty());
    }
    (cur, ll.0, reset)
}

/// The physics run state a tick settles on: the debug toggle flips it.
pub open spec fn phys_after(g: Game, input: FrameInput) -> PhysicsState {
    if input.toggle_pause {
        toggled(g.physics_state)
    } else {
        g.physics_state
    }
}

/// The other physics run state.
pub open spec fn toggled(p: PhysicsState) -> PhysicsState {
    if p == PhysicsState::Running {
        PhysicsState::Paused
    } else {
        PhysicsState::Running
    }
}

/// Power of the wind-up from `anchor` with the pointer at `pointer`.
pub open spec fn windup_power(anchor: Vec2i, pointer: Vec2i) -> int {
    power_level(
        (anchor.x - pointer.x) * (anchor.x - pointer.x) + (anchor.y - pointer.y) * (anchor.y
            - pointer.y),
    )
}

/// The ball-hit event a tick raises: only in play, on release of a
/// wind-up with non-zero power; the payload is the launch speed.
pub open spec fn hit_events(g: Game, input: FrameInput) -> Seq<GameEvent> {
    if g.app_state == AppState::InGame && g.swing.state == SwingState::WindingUp
        && input.pointer_released && windup_power(g.swing.anchor, input.pointer) > 0 {
        seq![
            GameEvent::BallHit {
                speed: (windup_power(g.swing.anchor, input.pointer) * LAUNCH_FACTOR as int) as u32,
            },
        ]
    } else {
        Seq::empty()
    }
}

/// Every event of one tick, in priority order: the swing's hit event
/// first, then the bridge's events.
pub open spec fn tick_events(g: Game, input: FrameInput) -> Seq<GameEvent> {
    hit_events(g, input) + bridge_spec(
        g.level_state,
        input.ball,
        g.prev_asleep,
        input.bounds,
        goal_of(g),
    )
}

/// The fold of one tick's events from the current state.
pub open spec fn tick_outcome(g: Game, input: FrameInput) -> (LevelState, u32, bool) {
    consume_events_spec(g.level_state, g.lives_left.0, tick_events(g, input))
}

/// The pause-toggle effect of a tick, if any.
pub open spec fn pause_effects(g: Game, input: FrameInput) -> Seq<Effect> {
    if input.toggle_pause {
        if g.physics_state == PhysicsState::Running {
            seq![Effect::PausePhysics]
        } else {
            seq![Effect::UnpausePhysics]
        }
    } else {
        Seq::empty()
    }
}

/// The launch effect of a tick: the released swing's direction and power.
pub open spec fn launch_effects(g: Game, input: FrameInput) -> Seq<Effect> {
    if g.app_state == AppState::InGame && g.swing.state == SwingState::WindingUp
        && input.pointer_released && windup_power(g.swing.anchor, input.pointer) > 0 {
        seq![
            Effect::LaunchBall {
                dir: (Vec2i {
                    x: (g.swing.anchor.x - input.pointer.x) as i64,
                    y: (g.swing.anchor.y - input.pointer.y) as i64,
                }),
                power: windup_power(g.swing.anchor, input.pointer) as u8,
            },
        ]
    } else {
        Seq::empty()
    }
}

/// The ball-reset effect of a tick: raised exactly when the event fold
/// called for one (an out-of-bounds while in play).
pub open spec fn reset_effects(g: Game, input: FrameInput) -> Seq<Effect> {
    if g.app_state == AppState::InGame && tick_outcome(g, input).2 {
        seq![Effect::ResetBall { tee: tee_of(g, g.level_index as int) }]
    } else {
        Seq::empty()
    }
}

/// The bridge raises no ball-hit events: hits come from the swing alone.
proof fn lemma_bridge_no_hits(
    level_state: LevelState,
    obs: BallObservation,
    prev_asleep: bool,
    bounds: LevelBounds,
    goal_bottom_left: Vec2i,
)
    ensures
        forall|i: int|
            0 <= i < bridge_spec(level_state, obs, prev_asleep, bounds, goal_bottom_left).len()
                ==> !(#[trigger] bridge_spec(
                level_state,
                obs,
                prev_asleep,
                bounds,
                goal_bottom_left,
            )[i] matches GameEvent::BallHit { .. }),
{
}

/// Without a hit event the fold can only end in play if it started there:
/// every transition into `InPlay` is a ball-hit.
proof fn lemma_fold_without_hits(s: LevelState, lives: u32, events: Seq<GameEvent>)
    requires
        forall|i: int|
            0 <= i < events.len() ==> !(#[trigger] events[i] matches GameEvent::BallHit { .. }),
        consume_events_spec(s, lives, events).0 == LevelState::InPlay,
    ensures
        s == LevelState::InPlay,
    decreases events.len(),
{
    if events.len() > 0 {
        let e = events[0];
        let lives2: u32 = if e matches GameEvent::BallHit { .. } && lives > 0 {
            (lives - 1) as u32
        } else {
            lives
        };
        let s2 = level_transition(s, e, lives2);
        assert(forall|i: int|
            0 <= i < events.drop_first().len() ==> !(#[trigger] events.drop_first()[i]
                matches GameEvent::BallHit { .. }));
        lemma_fold_without_hits(s2, lives2, events.drop_first());
        assert(s == LevelState::InPlay);
    }
}

impl Game {
    /// Runs one tick, returning the effects the host must perform and the
    /// tick's domain events for audio and HUD collaborators.
    ///
    /// In the menu, only the pause toggle and the play click run: a
    /// pointer release requests `InGame`.  In game, the machines run in
    /// priority order — swing input, the physics event bridge, the event
    /// fold through the hole machine and lives tracker, then the
    /// win-delay timer — and a pointer release while the course-over
    /// overlay is shown requests the menu.  All raised transition
    /// requests wait for the next boundary.
    pub fn tick(&mut self, input: FrameInput) -> (r: (Vec<Effect>, Vec<GameEvent>))
        requires
            old(self).wf(),
            in_box(input.pointer, MAX_ANCHOR),
            in_box(input.ball.pos, MAX_ANCHOR),
        ensures
            final(self).wf(),
            r.0@ == pause_effects(*old(self), input) + launch_effects(*old(self), input)
                + reset_effects(*old(self), input),
            old(self).app_state == AppState::Menu ==> r.1@ == Seq::<GameEvent>::empty(),
            old(self).app_state == AppState::InGame ==> r.1@ == tick_events(*old(self), input),
            final(self).app_state == old(self).app_state,
            final(self).course_state == old(self).course_state,
            final(self).level_state == old(self).level_state,
            final(self).level_index == old(self).level_index,
            final(self).levels == old(self).levels,
            final(self).lives == old(self).lives,
            final(self).pending_course == old(self).pending_course,
            final(self).physics_state == (if input.toggle_pause {
                toggled(old(self).physics_state)
            } else {
                old(self).physics_state
            }),
            // Menu: only the play click.
            old(self).app_state == AppState::Menu ==> final(self).pending_app == (
            if input.pointer_released {
                Some(AppState::InGame)
            } else {
                old(self).pending_app
            }) && final(self).lives_left == old(self).lives_left && final(self).pending_level
                == old(self).pending_level && final(self).win_timer_ms == old(self).win_timer_ms
                && final(self).swing == old(self).swing && final(self).prev_asleep == old(
                self,
            ).prev_asleep,
            // In game: overlay click.
            old(self).app_state == AppState::InGame ==> final(self).pending_app == (
            if (old(self).course_state == CourseState::Won || old(self).course_state
                == CourseState::Failed) && input.pointer_released && old(self).pending_course
                != Some(CourseState::LoadNextLevel) {
                Some(AppState::Menu)
            } else {
                old(self).pending_app
            }),
            // In game: the swing controller.
            old(self).app_state == AppState::InGame && old(self).swing.state == SwingState::Idle
                ==> final(self).swing == (if input.pointer_pressed && old(self).level_state
                == LevelState::Playable && phys_after(*old(self), input) == PhysicsState::Running
                && old(self).pending_level != Some(LevelState::InPlay) {
                SwingController {
                    state: SwingState::WindingUp,
                    anchor: input.pointer,
                    swing: old(self).swing.swing,
                }
            } else {
                old(self).swing
            }),
            old(self).app_state == AppState::InGame && old(self).swing.state
                == SwingState::WindingUp && !input.pointer_released ==> final(self).swing.state
                == SwingState::WindingUp && final(self).swing.anchor == old(self).swing.anchor
                && final(self).swing.swing.power as int == windup_power(
                old(self).swing.anchor,
                input.pointer,
            ) && final(self).swing.swing.dir.x == old(self).swing.anchor.x - input.pointer.x
                && final(self).swing.swing.dir.y == old(self).swing.anchor.y - input.pointer.y,
            old(self).app_state == AppState::InGame && old(self).swing.state
                == SwingState::WindingUp && input.pointer_released ==> final(self).swing.state
                == SwingState::Idle && final(self).swing.swing.power == 0,
            // In game: the event fold decides lives and the hole request.
            old(self).app_state == AppState::InGame ==> final(self).lives_left.0 == tick_outcome(
                *old(self),
                input,
            ).1 && final(self).prev_asleep == input.ball.asleep,
            old(self).app_state == AppState::InGame ==> final(self).pending_level == (
            if old(self).level_state == LevelState::Won && old(self).win_timer_ms > 0
                && input.dt_ms >= old(self).win_timer_ms {
                Some(LevelState::LoadNext)
            } else if tick_outcome(*old(self), input).0 != old(self).level_state {
                Some(tick_outcome(*old(self), input).0)
            } else {
                old(self).pending_level
            }),
            // In game: the win-delay timer counts down while the hole is won.
            old(self).app_state == AppState::InGame ==> final(self).win_timer_ms == (
            if old(self).level_state == LevelState::Won && old(self).win_timer_ms > 0 {
                if input.dt_ms >= old(self).win_timer_ms {
                    0u32
                } else {
                    (old(self).win_timer_ms - input.dt_ms) as u32
                }
            } else {
                old(self).win_timer_ms
            }),
    {
        let mut effects: Vec<Effect> = Vec::new();

        // Debug pause toggle.
        if input.toggle_pause {
            if self.physics_state == PhysicsState::Running {
                self.physics_state = PhysicsState::Paused;
                effects.push(Effect::PausePhysics);
            } else {
                self.physics_state = PhysicsState::Running;
                effects.push(Effect::UnpausePhysics);
            }
        }

        if self.app_state == AppState::Menu {
            // Menu scope: a click starts the game; nothing else runs.
            if input.pointer_released {
                self.pending_app = Some(AppState::InGame);
            }
            proof {
                assert(effects@ =~= pause_effects(*old(self), input) + launch_effects(
                    *old(self),
                    input,
                ) + reset_effects(*old(self), input));
            }
            return (effects, Vec::new());
        }

        // Course-over overlay: a click returns to the menu.  A stale hole
        // advance must not hijack the menu rewind, so the request is
        // dropped while one is queued.
        let advance_queued = match self.pending_course {
            Some(CourseState::LoadNextLevel) => true,
            _ => false,
        };
        if (self.course_state == CourseState::Won || self.course_state == CourseState::Failed)
            && input.pointer_released && !advance_queued {
            self.pending_app = Some(AppState::Menu);
        }

        // Swing input, first in priority order.  A press is ignored while
        // a move into play is already queued: no wind-up may survive into
        // `InPlay`.
        let mut events: Vec<GameEvent> = Vec::new();
        let inplay_queued = match self.pending_level {
            Some(LevelState::InPlay) => true,
            _ => false,
        };
        if self.swing.state == SwingState::Idle {
            if input.pointer_pressed && self.level_state == LevelState::Playable
                && self.physics_state == PhysicsState::Running && !inplay_queued {
                self.swing.start_swing(input.pointer);
            }
        } else {
            self.swing.calculate_swing_power(input.pointer);
            if input.pointer_released {
                match self.swing.swing_release() {
                    Some(sw) => {
                        proof {
                            lemma_power_range(
                                (old(self).swing.anchor.x - input.pointer.x) * (old(
                                    self,
                                ).swing.anchor.x - input.pointer.x) + (old(self).swing.anchor.y
                                    - input.pointer.y) * (old(self).swing.anchor.y
                                    - input.pointer.y),
                            );
                        }
                        let speed: u32 = (sw.power as u32) * LAUNCH_FACTOR;
                        effects.push(Effect::LaunchBall { dir: sw.dir, power: sw.power });
                        events.push(GameEvent::BallHit { speed });
                    },
                    None => {},
                }
            }
        }
        proof {
            assert(events@ =~= hit_events(*old(self), input));
        }

        // The physics event bridge, then the event fold.
        let goal_bottom_left = self.levels.0[self.level_index].goal_bottom_left;
        let mut bridged = bridge_events(
            self.level_state,
            input.ball,
            self.prev_asleep,
            input.bounds,
            goal_bottom_left,
        );
        events.append(&mut bridged);
        self.prev_asleep = input.ball.asleep;
        proof {
            assert(events@ =~= tick_events(*old(self), input));
        }

        let folded = consume_events(self.level_state, self.lives_left.0, &events);
        self.lives_left.0 = folded.1;
        if folded.2 {
            effects.push(Effect::ResetBall { tee: self.levels.0[self.level_index].tee });
        }
        if folded.0 != self.level_state {
            self.pending_level = Some(folded.0);
            proof {
                // A move into play can only come from a hit event, which
                // only a released wind-up raises — and releasing left the
                // controller idle.
                if folded.0 == LevelState::InPlay && hit_events(*old(self), input).len() == 0 {
                    assert(events@ == bridge_spec(
                        old(self).level_state,
                        input.ball,
                        old(self).prev_asleep,
                        input.bounds,
                        goal_of(*old(self)),
                    ));
                    lemma_bridge_no_hits(
                        old(self).level_state,
                        input.ball,
                        old(self).prev_asleep,
                        input.bounds,
                        goal_of(*old(self)),
                    );
                    lemma_fold_without_hits(
                        old(self).level_state,
                        old(self).lives_left.0,
                        events@,
                    );
                }
            }
        }

        // Win-delay timer.
        if self.level_state == LevelState::Won && self.win_timer_ms > 0 {
            if input.dt_ms >= self.win_timer_ms {
                self.win_timer_ms = 0;
                self.pending_level = Some(LevelState::LoadNext);
            } else {
                self.win_timer_ms = self.win_timer_ms - input.dt_ms;
            }
        }

        proof {
            assert(effects@ =~= pause_effects(*old(self), input) + launch_effects(
                *old(self),
                input,
            ) + reset_effects(*old(self), input));
        }
        (effects, events)
    }
}

/// Number of ball-hit events in a tick's event list.
pub open spec fn hit_count(events: Seq<GameEvent>) -> int
    decreases events.len(),
{
    if events.len() == 0 {
        0
    } else {
        (if events[0] matches GameEvent::BallHit { .. } {
            1int
        } else {
            0int
        }) + hit_count(events.drop_first())
    }
}

/// Lives accounting: folding any event list spends exactly one attempt
/// per ball-hit event while attempts remain, and never drives the count
/// below zero — the remaining count is the starting count less the number
/// of hits, floored at zero, whatever the hole state does.
pub proof fn lemma_lives_accounting(s: LevelState, lives: u32, events: Seq<GameEvent>)
    ensures
        consume_events_spec(s, lives, events).1 == (if lives >= hit_count(events) {
            lives - hit_count(events)
        } else {
            0int
        }),
    decreases events.len(),
{
    if events.len() > 0 {
        let e = events[0];
        let rest = events.drop_first();
        let lives2: u32 = if e matches GameEvent::BallHit { .. } && lives > 0 {
            (lives - 1) as u32
        } else {
            lives
        };
        let s2 = level_transition(s, e, lives2);
        lemma_hit_count_nonneg(rest);
        lemma_lives_accounting(s2, lives2, rest);
        assert(consume_events_spec(s, lives, events).1 == consume_events_spec(s2, lives2, rest).1);
        assert(hit_count(events) == (if e matches GameEvent::BallHit { .. } {
            1int
        } else {
            0int
        }) + hit_count(rest));
    }
}

proof fn lemma_hit_count_nonneg(events: Seq<GameEvent>)
    ensures
        hit_count(events) >= 0,
    decreases events.len(),
{
    if events.len() > 0 {
        lemma_hit_count_nonneg(events.drop_first());
    }
}

/// Goal entry wins the hole, whatever else the same tick observes: if the
/// ball overlaps the goal sensor while the hole is in play, the tick's
/// event fold ends in `Won` — a simultaneous stop or boundary crossing
/// cannot override it.
pub proof fn lemma_goal_wins(g: Game, input: FrameInput)
    requires
        g.app_state == AppState::InGame,
        g.level_state == LevelState::InPlay,
        ball_in_goal(input.ball.pos, goal_of(g)),
    ensures
        tick_outcome(g, input).0 == LevelState::Won,
{
    let hits = hit_events(g, input);
    let events = tick_events(g, input);
    let oob = out_of_bounds(input.ball.pos, input.bounds);
    let stop = input.ball.asleep && !g.prev_asleep;
    let lives = g.lives_left.0;
    if hits.len() > 0 {
        // The hit event comes first and is a no-op while already in play,
        // though it may spend an attempt.
        let lives2: u32 = if lives > 0 {
            (lives - 1) as u32
        } else {
            lives
        };
        assert(events[0] == hits[0]);
        assert(events[0] matches GameEvent::BallHit { .. });
        assert(level_transition(LevelState::InPlay, events[0], lives2) == LevelState::InPlay);
        assert(tick_outcome(g, input).0 == consume_events_spec(
            LevelState::InPlay,
            lives2,
            events.drop_first(),
        ).0);
        assert(events.drop_first() =~= bridge_spec(
            g.level_state,
            input.ball,
            g.prev_asleep,
            input.bounds,
            goal_of(g),
        ));
        lemma_fold_from_goal(lives2, oob, stop, events.drop_first());
    } else {
        assert(events =~= bridge_spec(
            g.level_state,
            input.ball,
            g.prev_asleep,
            input.bounds,
            goal_of(g),
        ));
        lemma_fold_from_goal(lives, oob, stop, events);
    }
}

/// Folding a goal entry first, then any combination of out-of-bounds and
/// stop events, from `InPlay` ends in `Won`.
proof fn lemma_fold_from_goal(lives: u32, oob: bool, stop: bool, events: Seq<GameEvent>)
    requires
        events == seq![GameEvent::BallEnteredGoal] + (if oob {
            seq![GameEvent::BallOutOfBounds]
        } else {
            Seq::empty()
        }) + (if stop {
            seq![GameEvent::BallStopped]
        } else {
            Seq::empty()
        }),
    ensures
        consume_events_spec(LevelState::InPlay, lives, events).0 == LevelState::Won,
{
    let e1 = events.drop_first();
    assert(events[0] == GameEvent::BallEnteredGoal);
    assert(level_transition(LevelState::InPlay, GameEvent::BallEnteredGoal, lives)
        == LevelState::Won);
    assert(consume_events_spec(LevelState::InPlay, lives, events).0 == consume_events_spec(
        LevelState::Won,
        lives,
        e1,
    ).0);
    lemma_fold_inert(LevelState::Won, lives, e1);
    assert(forall|i: int| 0 <= i < e1.len() ==> !(#[trigger] e1[i] matches GameEvent::BallHit {
        ..
    }));
}

/// From `Won` or `Failed`, a list of bridge events (no hits) changes
/// nothing: every pair is unhandled.
proof fn lemma_fold_inert(s: LevelState, lives: u32, events: Seq<GameEvent>)
    requires
        s == LevelState::Won || s == LevelState::Failed || s == LevelState::LoadNext,
        forall|i: int|
            0 <= i < events.len() ==> !(#[trigger] events[i] matches GameEvent::BallHit { .. }),
    ensures
        consume_events_spec(s, lives, events).0 == s,
        consume_events_spec(s, lives, events).1 == lives,
    decreases events.len(),
{
    if events.len() > 0 {
        assert(level_transition(s, events[0], lives) == s);
        lemma_fold_inert(s, lives, events.drop_first());
    }
}

/// Out-of-bounds is a free reset: if the ball leaves the play bounds
/// while the hole is in play (and is not simultaneously in the goal,
/// where goal detection wins), the tick's fold returns the hole to
/// `Playable`, calls for a ball reset, and leaves the lives untouched.
/// No wind-up can be in progress while the ball is in play (`wf`), so no
/// simultaneous hit can spend a life.
pub proof fn lemma_out_of_bounds_free_reset(g: Game, input: FrameInput)
    requires
        g.wf(),
        g.app_state == AppState::InGame,
        g.level_state == LevelState::InPlay,
        !ball_in_goal(input.ball.pos, goal_of(g)),
        out_of_bounds(input.ball.pos, input.bounds),
    ensures
        tick_outcome(g, input).0 == LevelState::Playable,
        tick_outcome(g, input).1 == g.lives_left.0,
        tick_outcome(g, input).2,
{
    assert(g.swing.state == SwingState::Idle);
    let events = tick_events(g, input);
    let stop = input.ball.asleep && !g.prev_asleep;
    let lives = g.lives_left.0;
    assert(hit_events(g, input) =~= Seq::<GameEvent>::empty());
    assert(events[0] == GameEvent::BallOutOfBounds);
    assert(level_transition(LevelState::InPlay, GameEvent::BallOutOfBounds, lives)
        == LevelState::Playable);
    assert(level_resets_ball(LevelState::InPlay, GameEvent::BallOutOfBounds));
    if stop {
        assert(events =~= seq![GameEvent::BallOutOfBounds, GameEvent::BallStopped]);
        assert(events.drop_first() =~= seq![GameEvent::BallStopped]);
        assert(events.drop_first()[0] == GameEvent::BallStopped);
        assert(level_transition(LevelState::Playable, GameEvent::BallStopped, lives)
            == LevelState::Playable);
        assert(!level_resets_ball(LevelState::Playable, GameEvent::BallStopped));
        assert(events.drop_first().drop_first() =~= Seq::<GameEvent>::empty());
        assert(consume_events_spec(LevelState::Playable, lives, events.drop_first().drop_first())
            == (LevelState::Playable, lives, false));
        assert(consume_events_spec(LevelState::Playable, lives, events.drop_first()) == (
            LevelState::Playable,
            lives,
            false,
        ));
        assert(consume_events_spec(LevelState::InPlay, lives, events) == (
            LevelState::Playable,
            lives,
            true,
        ));
    } else {
        assert(events =~= seq![GameEvent::BallOutOfBounds]);
        assert(events.drop_first() =~= Seq::<GameEvent>::empty());
        assert(consume_events_spec(LevelState::Playable, lives, events.drop_first()) == (
            LevelState::Playable,
            lives,
            false,
        ));
        assert(consume_events_spec(LevelState::InPlay, lives, events) == (
            LevelState::Playable,
            lives,
            true,
        ));
    }
}

/// Entering the menu rewinds the course: applying a queued `Menu`
/// request sets the hole index back to 0 and queues the (re)loaded hole
/// as playable, whatever else was going on.
pub proof fn lemma_menu_rewinds_course(g: Game)
    requires
        g.wf(),
        g.pending_app == Some(AppState::Menu),
    ensures
        applied_app(g) == AppState::Menu,
        apply_level_index(g) == 0,
        apply_pending_level(g) == Some(LevelState::Playable),
{
}

/// Re-entering play restores the attempts: applying a queued `Playing`
/// course request resets the remaining lives to the configured maximum
/// and queues the hole as playable.
pub proof fn lemma_playing_restores_lives(g: Game)
    requires
        g.pending_course == Some(CourseState::Playing),
    ensures
        apply_lives(g) == g.lives.0,
        apply_pending_level(g) == Some(LevelState::Playable),
{
}

} // verus!
