//! The world of one run and the per-frame dispatch of the game loop.
use vstd::prelude::*;
use crate::animation::advance;
use crate::collision::Aabb;
use crate::player::{fallen_velocity, moved_height, target_rotation, Player};
use crate::scenery::{
    pipe_wraps, random_pipe_height, scrolled_background, scrolled_pipe_x, valid_gap, Background,
    ObstacleGroup, FIRST_PIPE_X, MAX_GAP_OFFSET, MIN_GAP_OFFSET, PIPE_COUNT, PIPE_SCROLL_BACK,
    PIPE_TO_PIPE_SPACE, TILE_WIDTH,
};
use crate::units::{DEATH_VELOCITY, JUMP_VELOCITY, MAX_FRAME, UNIT};

verus! {

/// Highest height the player may reach before it dies: 128 world units.
pub const CEILING: i64 = 128 * UNIT;

/// Lowest height the player may reach before it dies: 128 world units down.
pub const FLOOR: i64 = -128 * UNIT;

/// Which phase the game is in; it decides which steps run each frame.
#[derive(Clone, Copy, Debug, PartialEq, Eq, Structural)]
pub enum GameState {
    MainMenu,
    Playing,
    GameOver,
}

/// Where pipe pair `i` of a new run stands.
pub open spec fn slot_x(i: int) -> int {
    FIRST_PIPE_X + i * PIPE_TO_PIPE_SPACE
}

/// Pipe pair `i` of a new run, with gap offset `gap` world units.
pub open spec fn fresh_group(i: int, gap: int) -> ObstacleGroup {
    ObstacleGroup { x: slot_x(i) as i64, y: (gap * UNIT) as i64 }
}

/// The player's box at its position.
pub open spec fn player_box(p: Player) -> Aabb {
    Aabb {
        center_x: p.x,
        center_y: p.y,
        half_x: p.collider.half_x,
        half_y: p.collider.half_y,
    }
}

/// The player's center is above the ceiling or below the floor.
pub open spec fn out_of_bounds(y: int) -> bool {
    y < FLOOR || y > CEILING
}

/// One of the pair's pipes overlaps the player's box.
pub open spec fn hits_pipe(p: Player, g: ObstacleGroup) -> bool {
    g.top_box().overlaps(player_box(p)) || g.bottom_box().overlaps(player_box(p))
}

/// The player is out of bounds or touches a pipe.
pub open spec fn crashed(p: Player, groups: Seq<ObstacleGroup>) -> bool {
    out_of_bounds(p.y as int) || exists|i: int| 0 <= i < groups.len() && hits_pipe(p, #[trigger] groups[i])
}

/// A pipe pair after `dt` microseconds of scrolling, with `gap` as its new
/// gap offset should it be recycled.
pub open spec fn scrolled_group(g: ObstacleGroup, dt: int, gap: int) -> ObstacleGroup {
    ObstacleGroup {
        x: scrolled_pipe_x(g.x as int, dt) as i64,
        y: if pipe_wraps(g.x as int, dt) {
            (gap * UNIT) as i64
        } else {
            g.y
        },
    }
}

/// All the gap offsets may be drawn.
pub open spec fn valid_gaps(gaps: Seq<i64>) -> bool {
    forall|i: int| 0 <= i < gaps.len() ==> valid_gap(#[trigger] gaps[i] as int)
}


/// The velocity at the start of a frame's physics: the jump velocity after a
/// press, else the velocity held.
pub open spec fn after_input(velocity: int, pressed: bool) -> int {
    if pressed {
        JUMP_VELOCITY as int
    } else {
        velocity
    }
}

/// `b` is `a` with the scenery untouched.
pub open spec fn same_scenery(a: World, b: World) -> bool {
    &&& b.gravity == a.gravity
    &&& b.background == a.background
    &&& b.obstacles@ == a.obstacles@
}

/// `b.player` has `a.player`'s horizontal position, box and tilt.
pub open spec fn same_pose(a: Player, b: Player) -> bool {
    &&& b.x == a.x
    &&& b.collider == a.collider
    &&& b.rotation == a.rotation
}

/// `b`'s animation is `a`'s advanced by `dt`, from frame `frame`.
pub open spec fn animated(a: Player, b: Player, frame: int, dt: int) -> bool {
    &&& b.animation.frames@ == a.animation.frames@
    &&& b.animation.repeat == a.animation.repeat
    &&& (b.animation.frame as int, b.animation.elapsed as int) == advance(
        a.animation.frames@,
        a.animation.repeat,
        frame,
        a.animation.elapsed as int,
        dt,
    )
}

/// One frame of the game loop takes world `a` to world `b`, given whether
/// the primary action was pressed in that frame, the frame's length `dt`
/// and the gap offsets that recycled or new pipe pairs take.
///
/// - In the main menu a press starts play with a jump; else nothing moves.
/// - In play, a press makes the player jump; then gravity, the flap and the
///   tilt act on the player, the scenery scrolls, and a player out of bounds
///   or touching a pipe dies with the death velocity.
/// - After the run has ended a press builds the world of a new run; else
///   gravity and the flap still act on the player.
pub open spec fn frame_step(a: World, b: World, pressed: bool, dt: int, gaps: Seq<i64>) -> bool {
    match a.state {
        GameState::MainMenu => if pressed {
            &&& b.state == GameState::Playing
            &&& b.player.velocity == JUMP_VELOCITY
            &&& b.player.y == a.player.y
            &&& same_pose(a.player, b.player)
            &&& b.player.animation.frame == 0
            &&& b.player.animation.elapsed == a.player.animation.elapsed
            &&& b.player.animation.repeat == a.player.animation.repeat
            &&& b.player.animation.frames@ == a.player.animation.frames@
            &&& same_scenery(a, b)
        } else {
            b == a
        },
        GameState::Playing => {
            let v = fallen_velocity(after_input(a.player.velocity as int, pressed), a.gravity as int, dt);
            &&& b.player.y == moved_height(a.player.y as int, v, dt)
            &&& b.player.x == a.player.x
            &&& b.player.collider == a.player.collider
            &&& b.player.rotation == (a.player.rotation + target_rotation(v)) / 2
            &&& animated(a.player, b.player, if pressed { 0 } else { a.player.animation.frame as int }, dt)
            &&& b.gravity == a.gravity
            &&& b.background.x == scrolled_background(a.background.x as int, dt)
            &&& b.obstacles@.len() == PIPE_COUNT
            &&& forall|i: int|
                0 <= i < PIPE_COUNT ==> #[trigger] b.obstacles@[i] == scrolled_group(
                    a.obstacles@[i],
                    dt,
                    gaps[i] as int,
                )
            &&& if crashed(b.player, b.obstacles@) {
                b.state == GameState::GameOver && b.player.velocity == DEATH_VELOCITY
            } else {
                b.state == GameState::Playing && b.player.velocity == v
            }
        },
        GameState::GameOver => if pressed {
            b.is_fresh(a.gravity as int, gaps)
        } else {
            &&& b.state == GameState::GameOver
            &&& b.player.velocity == fallen_velocity(a.player.velocity as int, a.gravity as int, dt)
            &&& b.player.y == moved_height(a.player.y as int, b.player.velocity as int, dt)
            &&& same_pose(a.player, b.player)
            &&& animated(a.player, b.player, a.player.animation.frame as int, dt)
            &&& same_scenery(a, b)
        },
    }
}

/// The world of one run.
pub struct World {
    pub state: GameState,
    /// Acceleration of gravity, in velocity steps per microsecond.
    pub gravity: i64,
    pub player: Player,
    pub background: Background,
    pub obstacles: Vec<ObstacleGroup>,
}

impl World {
    /// The world's invariant: a well-formed player, gravity that pulls down,
    /// the scenery within reach of the origin, and one pipe pair on each of
    /// the ring's evenly spaced slots.
    pub open spec fn wf(&self) -> bool {
        &&& self.player.wf()
        &&& self.gravity <= 0
        &&& -2 * TILE_WIDTH <= self.background.x <= TILE_WIDTH
        &&& self.obstacles@.len() == PIPE_COUNT
        &&& forall|i: int|
            0 <= i < PIPE_COUNT ==> {
                &&& (#[trigger] self.obstacles@[i]).wf()
                &&& -2 * PIPE_SCROLL_BACK <= self.obstacles@[i].x <= 2 * PIPE_SCROLL_BACK
                &&& (self.obstacles@[i].x - self.obstacles@[0].x - i * PIPE_TO_PIPE_SPACE)
                    % PIPE_SCROLL_BACK as int == 0
            }
    }

    /// The world as a new run starts it, with gap offsets `gaps`.
    pub open spec fn is_fresh(&self, gravity: int, gaps: Seq<i64>) -> bool {
        &&& self.state == GameState::MainMenu
        &&& self.gravity == gravity
        &&& self.player.is_fresh()
        &&& self.background.x == 0
        &&& self.obstacles@.len() == PIPE_COUNT
        &&& forall|i: int|
            0 <= i < PIPE_COUNT ==> #[trigger] self.obstacles@[i] == fresh_group(i, gaps[i] as int)
    }

    /// Builds the world of a new run: the player at the origin, the
    /// background strip at the origin, and pipe pair `i` at `slot_x(i)` with
    /// gap offset `gaps[i]` world units.
    pub fn create_world(gravity: i64, gaps: &[i64; 4]) -> (r: World)
        requires
            gravity <= 0,
            valid_gaps(gaps@),
        ensures
            r.wf(),
            r.is_fresh(gravity as int, gaps@),
    {
        let mut obstacles: Vec<ObstacleGroup> = Vec::new();
        let mut i: usize = 0;
        while i < PIPE_COUNT
            invariant
                i <= PIPE_COUNT,
                valid_gaps(gaps@),
                obstacles@.len() == i,
                forall|j: int|
                    0 <= j < i ==> #[trigger] obstacles@[j] == fresh_group(j, gaps@[j] as int)
                        && obstacles@[j].wf(),
            decreases PIPE_COUNT - i,
        {
            assert(valid_gap(gaps@[i as int] as int));
            let x = FIRST_PIPE_X + (i as i64) * PIPE_TO_PIPE_SPACE;
            obstacles.push(ObstacleGroup::new(x, gaps[i]));
            i = i + 1;
        }
        World {
            state: GameState::MainMenu,
            gravity,
            player: Player::new(),
            background: Background::new(),
            obstacles,
        }
    }

    /// Builds the world of a new run with gap offsets drawn at random.
    pub fn create_world_random(gravity: i64) -> (r: World)
        requires
            gravity <= 0,
        ensures
            r.wf(),
            exists|gaps: Seq<i64>| valid_gaps(gaps) && r.is_fresh(gravity as int, gaps),
    {
        let gaps = draw_gaps();
        World::create_world(gravity, &gaps)
    }

    /// Ends the run if the player is out of bounds or touches a pipe: the
    /// state becomes `GameOver` and the velocity the death velocity. The
    /// bounds test uses the player's center, the pipe test its box.
    pub fn crash_and_die(&mut self)
        requires
            old(self).wf(),
        ensures
            final(self).wf(),
            crashed(old(self).player, old(self).obstacles@) ==> final(self).state
                == GameState::GameOver && final(self).player.velocity == DEATH_VELOCITY,
            !crashed(old(self).player, old(self).obstacles@) ==> final(self).state == old(
                self,
            ).state && final(self).player.velocity == old(self).player.velocity,
            final(self).gravity == old(self).gravity,
            final(self).player.x == old(self).player.x,
            final(self).player.y == old(self).player.y,
            final(self).player.rotation == old(self).player.rotation,
            final(self).player.collider == old(self).player.collider,
            final(self).player.animation == old(self).player.animation,
            final(self).background == old(self).background,
            final(self).obstacles@ == old(self).obstacles@,
    {
        if self.player.y < FLOOR || self.player.y > CEILING {
            self.state = GameState::GameOver;
            self.player.velocity = DEATH_VELOCITY;
            return ;
        }
        let player = self.player.collider.offset_aabb(self.player.x, self.player.y);
        assert(player == player_box(self.player));
        let mut i: usize = 0;
        while i < self.obstacles.len()
            invariant
                self.wf(),
                *self == *old(self),
                player == player_box(self.player),
                !out_of_bounds(self.player.y as int),
                i <= self.obstacles@.len(),
                forall|j: int| 0 <= j < i ==> !hits_pipe(self.player, #[trigger] self.obstacles@[j]),
            decreases self.obstacles@.len() - i,
        {
            let group = self.obstacles[i];
            assert(group.wf());
            if group.top_pipe().intersects(&player) || group.bottom_pipe().intersects(&player) {
                assert(hits_pipe(self.player, self.obstacles@[i as int]));
                self.state = GameState::GameOver;
                self.player.velocity = DEATH_VELOCITY;
                return ;
            }
            i = i + 1;
        }
    }

    /// Scrolls the background strip and every pipe pair for `dt`
    /// microseconds; pair `i`, should it be recycled, takes `gaps[i]` as its
    /// new gap offset.
    pub fn scroll(&mut self, dt: u32, gaps: &[i64; 4])
        requires
            old(self).wf(),
            dt <= MAX_FRAME,
            valid_gaps(gaps@),
        ensures
            final(self).wf(),
            final(self).background.x == scrolled_background(old(self).background.x as int, dt as int),
            final(self).obstacles@.len() == PIPE_COUNT,
            forall|i: int|
                0 <= i < PIPE_COUNT ==> #[trigger] final(self).obstacles@[i] == scrolled_group(
                    old(self).obstacles@[i],
                    dt as int,
                    gaps@[i] as int,
                ),
            final(self).state == old(self).state,
            final(self).gravity == old(self).gravity,
            final(self).player == old(self).player,
    {
        self.background.scroll_backgrounds(dt);
        let ghost start = self.obstacles@;
        let mut i: usize = 0;
        while i < PIPE_COUNT
            invariant
                i <= PIPE_COUNT,
                dt <= MAX_FRAME,
                valid_gaps(gaps@),
                self.obstacles@.len() == PIPE_COUNT,
                self.state == old(self).state,
                self.gravity == old(self).gravity,
                self.player == old(self).player,
                self.background.x == scrolled_background(old(self).background.x as int, dt as int),
                start == old(self).obstacles@,
                old(self).wf(),
                forall|j: int|
                    0 <= j < i ==> #[trigger] self.obstacles@[j] == scrolled_group(
                        start[j],
                        dt as int,
                        gaps@[j] as int,
                    ),
                forall|j: int| i <= j < PIPE_COUNT ==> #[trigger] self.obstacles@[j] == start[j],
            decreases PIPE_COUNT - i,
        {
            let mut group = self.obstacles[i];
            assert(valid_gap(gaps@[i as int] as int));
            group.scroll_pipes(dt, gaps[i]);
            self.obstacles.set(i, group);
            i = i + 1;
        }
        proof {
            lemma_scroll_keeps_world(*old(self), *self, dt as int, gaps@);
        }
    }
}

proof fn lemma_scroll_keeps_world(a: World, b: World, dt: int, gaps: Seq<i64>)
    requires
        a.wf(),
        0 <= dt <= MAX_FRAME,
        valid_gaps(gaps),
        gaps.len() == PIPE_COUNT,
        b.player == a.player,
        b.gravity == a.gravity,
        b.background.x == scrolled_background(a.background.x as int, dt),
        b.obstacles@.len() == PIPE_COUNT,
        forall|i: int|
            0 <= i < PIPE_COUNT ==> #[trigger] b.obstacles@[i] == scrolled_group(
                a.obstacles@[i],
                dt,
                gaps[i] as int,
            ),
    ensures
        b.wf(),
{
    assert(b.obstacles@[0] == scrolled_group(a.obstacles@[0], dt, gaps[0] as int));
    assert forall|i: int| 0 <= i < PIPE_COUNT implies {
        &&& (#[trigger] b.obstacles@[i]).wf()
        &&& -2 * PIPE_SCROLL_BACK <= b.obstacles@[i].x <= 2 * PIPE_SCROLL_BACK
        &&& (b.obstacles@[i].x - b.obstacles@[0].x - i * PIPE_TO_PIPE_SPACE) % PIPE_SCROLL_BACK as int
            == 0
    } by {
        let g = a.obstacles@[i];
        assert(g.wf());
        assert(b.obstacles@[i] == scrolled_group(g, dt, gaps[i] as int));
        assert(valid_gap(gaps[i] as int));
        let k = a.obstacles@[i].x - a.obstacles@[0].x - i * PIPE_TO_PIPE_SPACE;
        let w_i: int = if pipe_wraps(g.x as int, dt) { 1 } else { 0 };
        let w_0: int = if pipe_wraps(a.obstacles@[0].x as int, dt) { 1 } else { 0 };
        assert(b.obstacles@[i].x - b.obstacles@[0].x - i * PIPE_TO_PIPE_SPACE == k + (w_i - w_0)
            * PIPE_SCROLL_BACK);
        assert(k % PIPE_SCROLL_BACK as int == 0);
        assert((k + (w_i - w_0) * PIPE_SCROLL_BACK) % PIPE_SCROLL_BACK as int == 0);
    }
}

impl World {
    /// A press in the main menu: play starts and the player jumps.
    pub fn start_game(&mut self)
        requires
            old(self).wf(),
        ensures
            final(self).wf(),
            final(self).state == GameState::Playing,
            final(self).player.velocity == JUMP_VELOCITY,
            final(self).player.animation.frame == 0,
            final(self).player.animation.elapsed == old(self).player.animation.elapsed,
            final(self).player.animation.repeat == old(self).player.animation.repeat,
            final(self).player.animation.frames@ == old(self).player.animation.frames@,
            final(self).player.x == old(self).player.x,
            final(self).player.y == old(self).player.y,
            final(self).player.rotation == old(self).player.rotation,
            final(self).player.collider == old(self).player.collider,
            final(self).gravity == old(self).gravity,
            final(self).background == old(self).background,
            final(self).obstacles@ == old(self).obstacles@,
    {
        self.state = GameState::Playing;
        self.player.input();
    }

    /// A press after the run has ended: back to the main menu, with the
    /// whole world built anew and the gravity kept.
    pub fn restart_game(&mut self, gaps: &[i64; 4])
        requires
            old(self).wf(),
            valid_gaps(gaps@),
        ensures
            final(self).wf(),
            final(self).is_fresh(old(self).gravity as int, gaps@),
    {
        *self = World::create_world(self.gravity, gaps);
    }

    /// Runs one frame of the game loop (see `frame_step`).
    pub fn tick(&mut self, pressed: bool, dt: u32, gaps: &[i64; 4])
        requires
            old(self).wf(),
            dt <= MAX_FRAME,
            valid_gaps(gaps@),
        ensures
            final(self).wf(),
            frame_step(*old(self), *final(self), pressed, dt as int, gaps@),
    {
        match self.state {
            GameState::MainMenu => {
                if pressed {
                    self.start_game();
                }
            },
            GameState::Playing => {
                if pressed {
                    self.player.input();
                }
                self.player.apply_gravity(self.gravity, dt);
                self.player.animation.update_animation(dt);
                self.player.apply_rotation();
                self.scroll(dt, gaps);
                self.crash_and_die();
            },
            GameState::GameOver => {
                if pressed {
                    self.restart_game(gaps);
                } else {
                    self.player.apply_gravity(self.gravity, dt);
                    self.player.animation.update_animation(dt);
                }
            },
        }
    }

    /// Runs one frame of the game loop, drawing at random the gap offsets
    /// that recycled or new pipe pairs take.
    pub fn tick_random(&mut self, pressed: bool, dt: u32)
        requires
            old(self).wf(),
            dt <= MAX_FRAME,
        ensures
            final(self).wf(),
            exists|gaps: Seq<i64>|
                gaps.len() == PIPE_COUNT && valid_gaps(gaps) && frame_step(
                    *old(self),
                    *final(self),
                    pressed,
                    dt as int,
                    gaps,
                ),
    {
        let gaps = draw_gaps();
        self.tick(pressed, dt, &gaps);
    }
}

/// Draws one gap offset for each pipe pair.
fn draw_gaps() -> (r: [i64; 4])
    ensures
        valid_gaps(r@),
{
    let a = random_pipe_height(MIN_GAP_OFFSET, MAX_GAP_OFFSET);
    let b = random_pipe_height(MIN_GAP_OFFSET, MAX_GAP_OFFSET);
    let c = random_pipe_height(MIN_GAP_OFFSET, MAX_GAP_OFFSET);
    let d = random_pipe_height(MIN_GAP_OFFSET, MAX_GAP_OFFSET);
    let r = [a, b, c, d];
    assert(r@ =~= seq![a, b, c, d]);
    r
}

} // verus!

verus! {

/// `a` and `b` hold the same entities in the same places and states, but
/// for their pipe pairs' gap offsets.
pub open spec fn same_layout(a: World, b: World) -> bool {
    &&& a.state == b.state
    &&& a.gravity == b.gravity
    &&& a.player.x == b.player.x
    &&& a.player.y == b.player.y
    &&& a.player.velocity == b.player.velocity
    &&& a.player.rotation == b.player.rotation
    &&& a.player.collider == b.player.collider
    &&& a.player.animation.frame == b.player.animation.frame
    &&& a.player.animation.elapsed == b.player.animation.elapsed
    &&& a.player.animation.repeat == b.player.animation.repeat
    &&& a.player.animation.frames@ == b.player.animation.frames@
    &&& a.background == b.background
    &&& a.obstacles@.len() == b.obstacles@.len()
    &&& forall|i: int| 0 <= i < a.obstacles@.len() ==> #[trigger] a.obstacles@[i].x == b.obstacles@[i].x
}

/// Two worlds built for a new run under one gravity differ only in their
/// pipe pairs' gap offsets.
pub proof fn lemma_fresh_worlds_share_layout(
    a: World,
    b: World,
    gravity: int,
    gaps_a: Seq<i64>,
    gaps_b: Seq<i64>,
)
    requires
        a.is_fresh(gravity, gaps_a),
        b.is_fresh(gravity, gaps_b),
    ensures
        same_layout(a, b),
{
    assert forall|i: int| 0 <= i < a.obstacles@.len() implies #[trigger] a.obstacles@[i].x
        == b.obstacles@[i].x by {
        assert(a.obstacles@[i] == fresh_group(i, gaps_a[i] as int));
        assert(b.obstacles@[i] == fresh_group(i, gaps_b[i] as int));
    }
}

/// A full cycle comes back to where it started: once a run that began in a
/// freshly built world has ended, a press builds a world with the same
/// entities in the same places as that first one, whatever the gap offsets
/// drawn.
pub proof fn lemma_cycle_restores_layout(
    start: World,
    ended: World,
    again: World,
    gravity: int,
    first_gaps: Seq<i64>,
    dt: int,
    gaps: Seq<i64>,
)
    requires
        start.is_fresh(gravity, first_gaps),
        ended.state == GameState::GameOver,
        ended.gravity == gravity,
        frame_step(ended, again, true, dt, gaps),
    ensures
        same_layout(start, again),
{
    lemma_fresh_worlds_share_layout(start, again, gravity, first_gaps, gaps);
}

} // verus!
