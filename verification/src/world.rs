//! The entities of the game and the update that one tick applies to them.

use crate::geometry::{
    lemma_reflection_flips, lemma_reflection_keeps_length, lemma_unit_is_axis, round_to_pixels,
    spec_round_to_pixels, Rect, Vector, SUBPIXELS,
};
use vstd::prelude::*;

verus! {

/// Width of the playing field and of the frame, in pixels.
pub const WIDTH: u32 = 320;

/// Height of the playing field and of the frame, in pixels.
pub const HEIGHT: u32 = 240;

/// Width of a paddle, in pixels.
pub const PLAYER_WIDTH: i32 = 32;

/// Height of a paddle, in pixels.
pub const PLAYER_HEIGHT: i32 = 5;

/// A paddle. It moves horizontally only, by `velocity` pixels per tick.
#[derive(Clone, Copy, Debug, PartialEq, Eq, Structural)]
pub struct Player {
    pub rect: Rect,
    pub velocity: i32,
}

/// The ball. Its velocity is counted in sub-pixel units per tick and is
/// rounded to whole pixels, component by component, when the ball is moved.
#[derive(Clone, Copy, Debug, PartialEq, Eq, Structural)]
pub struct Ball {
    pub rect: Rect,
    pub velocity: Vector,
}

/// The whole state of a game: the bottom paddle `p1`, which the player
/// steers, the ball, and the top paddle `p2`, which follows the ball.
#[derive(Clone, Copy, Debug, PartialEq, Eq, Structural)]
pub struct World {
    pub p1: Player,
    pub ball: Ball,
    pub p2: Player,
}

/// What the ball touches after it has moved. Where it touches several
/// things at once, the first in this order counts.
#[derive(Clone, Copy, Debug, PartialEq, Eq, Structural)]
pub enum Contact {
    /// The top paddle, `p2`.
    TopPaddle,
    /// The bottom paddle, `p1`.
    BottomPaddle,
    /// The left wall.
    LeftWall,
    /// The right wall.
    RightWall,
    /// Nothing. The top and bottom edges of the field are no walls: the ball
    /// passes them freely.
    Nothing,
}

impl Contact {
    /// The outward normal of the surface, where there is one.
    pub open spec fn spec_normal(self) -> Option<Vector> {
        match self {
            Contact::TopPaddle => Some(Vector { x: 0, y: 1, w: 0 }),
            Contact::BottomPaddle => Some(Vector { x: 0, y: -1i32, w: 0 }),
            Contact::LeftWall => Some(Vector { x: 1, y: 0, w: 0 }),
            Contact::RightWall => Some(Vector { x: -1i32, y: 0, w: 0 }),
            Contact::Nothing => None,
        }
    }

    /// The outward normal of the surface that the ball bounces off: down
    /// from the top paddle, up from the bottom one, right from the left wall,
    /// left from the right wall.
    pub fn normal(&self) -> (n: Option<Vector>)
        ensures
            n == self.spec_normal(),
            n is Some ==> n->0.is_unit(),
    {
        let n = match self {
            Contact::TopPaddle => Some(Vector { x: 0, y: 1, w: 0 }),
            Contact::BottomPaddle => Some(Vector { x: 0, y: -1, w: 0 }),
            Contact::LeftWall => Some(Vector { x: 1, y: 0, w: 0 }),
            Contact::RightWall => Some(Vector { x: -1, y: 0, w: 0 }),
            Contact::Nothing => None,
        };
        proof {
            if let Some(unit) = n {
                lemma_unit_is_axis(unit);
            }
        }
        n
    }
}

impl Ball {
    /// The ball after it has moved by its velocity, each component rounded to
    /// whole pixels. Meaningful where [`Self::motion_fits`] holds.
    pub open spec fn moved(self) -> Ball {
        Ball {
            rect: Rect {
                x: (self.rect.x + spec_round_to_pixels(self.velocity.x as int)) as i32,
                y: (self.rect.y + spec_round_to_pixels(self.velocity.y as int)) as i32,
                ..self.rect
            },
            ..self
        }
    }

    /// The position after the move can be stored in 32 bits.
    pub open spec fn motion_fits(self) -> bool {
        &&& i32::MIN <= self.rect.x + spec_round_to_pixels(self.velocity.x as int) <= i32::MAX
        &&& i32::MIN <= self.rect.y + spec_round_to_pixels(self.velocity.y as int) <= i32::MAX
    }

    /// The velocity after a contact: reflected off the surface's normal, or
    /// unchanged where nothing was touched.
    pub open spec fn velocity_after(self, contact: Contact) -> Vector {
        match contact.spec_normal() {
            Some(n) => self.velocity.spec_reflection(n),
            None => self.velocity,
        }
    }

    /// The reflection that the contact asks for can be stored in 32 bits.
    pub open spec fn bounce_fits(self, contact: Contact) -> bool {
        match contact.spec_normal() {
            Some(n) => self.velocity.reflection_fits(n),
            None => true,
        }
    }
}

impl Player {
    /// Where the paddle's left edge would be after one tick at its velocity.
    pub open spec fn tentative_x(self) -> int {
        self.rect.x + self.velocity
    }

    /// The paddle lies strictly between the side walls when its left edge is
    /// at `x`.
    pub open spec fn clear_of_walls_at(self, x: int) -> bool {
        0 < x && x + self.rect.width < WIDTH
    }

    /// The paddle lies strictly between the side walls.
    pub open spec fn clear_of_walls(self) -> bool {
        self.clear_of_walls_at(self.rect.x as int)
    }

    /// The move of this tick is taken: the tentative position is clear of
    /// both walls.
    pub open spec fn move_accepted(self) -> bool {
        self.clear_of_walls_at(self.tentative_x())
    }

    /// A position that is taken can be stored in 32 bits. This fails only for
    /// a paddle whose width is more negative than any position is positive.
    pub open spec fn move_fits(self) -> bool {
        self.move_accepted() ==> self.tentative_x() <= i32::MAX
    }

    /// The paddle after one tick: moved by its velocity where the move is
    /// accepted, left where it is otherwise. The velocity stays as it is.
    pub open spec fn moved(self) -> Player {
        if self.move_accepted() {
            Player { rect: Rect { x: self.tentative_x() as i32, ..self.rect }, ..self }
        } else {
            self
        }
    }

    /// Whether the move of this tick, if it is taken, can be stored in 32
    /// bits, so that [`World::update_player`] may be called.
    pub fn can_move(&self) -> (ok: bool)
        ensures
            ok == self.move_fits(),
    {
        let newp: i64 = self.rect.x as i64 + self.velocity as i64;
        let accepted = newp > 0 && newp + (self.rect.width as i64) < WIDTH as i64;
        !accepted || newp <= i32::MAX as i64
    }

    /// The same paddle with another velocity.
    pub open spec fn with_velocity(self, velocity: i32) -> Player {
        Player { velocity, ..self }
    }
}

impl World {
    /// The state in which every game starts.
    pub open spec fn initial() -> World {
        World {
            p1: Player { rect: Rect { x: 160, y: 234, width: 32, height: 5 }, velocity: 0 },
            ball: Ball {
                rect: Rect { x: 160, y: 120, width: 5, height: 5 },
                velocity: Vector { x: 256, y: 256, w: 0 },
            },
            p2: Player { rect: Rect { x: 160, y: 1, width: 32, height: 5 }, velocity: 2 },
        }
    }

    /// Creates the world as it is at the start of a game: both paddles and the
    /// ball at the middle of the field, the ball heading down and right by
    /// one pixel per tick, the top paddle heading right.
    pub fn new() -> (world: World)
        ensures
            world == World::initial(),
    {
        let middle: i32 = (WIDTH / 2) as i32;
        World {
            p1: Player {
                rect: Rect {
                    x: middle,
                    y: HEIGHT as i32 - PLAYER_HEIGHT - 1,
                    width: PLAYER_WIDTH,
                    height: PLAYER_HEIGHT,
                },
                velocity: 0,
            },
            ball: Ball {
                rect: Rect { x: middle, y: (HEIGHT / 2) as i32, width: 5, height: 5 },
                velocity: Vector { x: SUBPIXELS, y: SUBPIXELS, w: 0 },
            },
            p2: Player {
                rect: Rect { x: middle, y: 1, width: PLAYER_WIDTH, height: PLAYER_HEIGHT },
                velocity: 2,
            },
        }
    }

    /// Moves a paddle by its velocity, unless that would bring it onto or
    /// past a side wall: then it stays where it is. The velocity is kept
    /// either way, so a paddle that is refused tries the same move next tick.
    pub fn update_player(p: &mut Player)
        requires
            old(p).move_fits(),
        ensures
            *final(p) == old(p).moved(),
            final(p).rect.x != old(p).rect.x ==> final(p).clear_of_walls(),
            old(p).clear_of_walls() ==> final(p).clear_of_walls(),
    {
        let newp: i64 = p.rect.x as i64 + p.velocity as i64;
        if newp > 0 && newp + (p.rect.width as i64) < WIDTH as i64 {
            p.rect.x = newp as i32;
        }
    }
    /// The velocity of the top paddle once it has been turned after the ball:
    /// one pixel per tick to the right where the ball heads right and the
    /// paddle left, one to the left in the opposite case, unchanged otherwise.
    pub open spec fn steered_velocity(self) -> i32 {
        if self.ball.velocity.x > 0 && self.p2.velocity < 0 {
            1
        } else if self.ball.velocity.x < 0 && self.p2.velocity > 0 {
            -1i32
        } else {
            self.p2.velocity
        }
    }

    /// What the ball touches, by rank: the top paddle, the bottom paddle,
    /// the left wall, the right wall.
    pub open spec fn spec_contact(self) -> Contact {
        if self.ball.rect.spec_overlaps(self.p2.rect) {
            Contact::TopPaddle
        } else if self.ball.rect.spec_overlaps(self.p1.rect) {
            Contact::BottomPaddle
        } else if self.ball.rect.x <= 0 {
            Contact::LeftWall
        } else if self.ball.rect.x + self.ball.rect.width >= WIDTH {
            Contact::RightWall
        } else {
            Contact::Nothing
        }
    }

    /// The world after the paddles and the ball have moved, before the
    /// ball's velocity is looked at.
    pub open spec fn after_motion(self) -> World {
        World {
            p1: self.p1.moved(),
            ball: self.ball.moved(),
            p2: self.p2.with_velocity(self.steered_velocity()).moved(),
        }
    }

    /// Every number that one tick computes can be stored in 32 bits.
    pub open spec fn update_fits(self) -> bool {
        &&& self.p2.with_velocity(self.steered_velocity()).move_fits()
        &&& self.p1.move_fits()
        &&& self.ball.motion_fits()
        &&& self.ball.bounce_fits(self.after_motion().spec_contact())
    }

    /// The world one tick later.
    pub open spec fn spec_update(self) -> World {
        let moved = self.after_motion();
        World {
            ball: Ball { velocity: self.ball.velocity_after(moved.spec_contact()), ..moved.ball },
            ..moved
        }
    }

    /// What the ball touches where it is now. Only the first of the top
    /// paddle, the bottom paddle, the left wall and the right wall counts.
    pub fn contact(&self) -> (c: Contact)
        ensures
            c == self.spec_contact(),
    {
        if self.ball.rect.overlaps(self.p2.rect) {
            Contact::TopPaddle
        } else if self.ball.rect.overlaps(self.p1.rect) {
            Contact::BottomPaddle
        } else if self.ball.rect.x <= 0 {
            Contact::LeftWall
        } else if self.ball.rect.x as i64 + self.ball.rect.width as i64 >= WIDTH as i64 {
            Contact::RightWall
        } else {
            Contact::Nothing
        }
    }

    /// Whether [`Self::update`] may be called: whether every number that the
    /// tick computes can be stored in 32 bits. The world at the start of a
    /// game, and every world that a game reaches within millions of ticks,
    /// can be updated; one whose ball has drifted to the end of the 32-bit
    /// range cannot.
    pub fn can_update(&self) -> (ok: bool)
        ensures
            ok == self.update_fits(),
    {
        let mut next: World = *self;
        if next.ball.velocity.x > 0 && next.p2.velocity < 0 {
            next.p2.velocity = 1;
        } else if next.ball.velocity.x < 0 && next.p2.velocity > 0 {
            next.p2.velocity = -1;
        }
        if !next.p2.can_move() || !next.p1.can_move() {
            return false;
        }
        World::update_player(&mut next.p2);
        World::update_player(&mut next.p1);
        let x: i64 = next.ball.rect.x as i64 + round_to_pixels(next.ball.velocity.x) as i64;
        let y: i64 = next.ball.rect.y as i64 + round_to_pixels(next.ball.velocity.y) as i64;
        if x < i32::MIN as i64 || x > i32::MAX as i64 || y < i32::MIN as i64 || y > i32::MAX as i64 {
            return false;
        }
        next.ball.rect.x = x as i32;
        next.ball.rect.y = y as i32;
        let contact = next.contact();
        proof {
            assert(next == self.after_motion());
            lemma_bounce_flips(self.ball, contact);
        }
        match contact {
            Contact::TopPaddle | Contact::BottomPaddle => self.ball.velocity.y != i32::MIN,
            Contact::LeftWall | Contact::RightWall => self.ball.velocity.x != i32::MIN,
            Contact::Nothing => true,
        }
    }

    /// Advances the world by one tick: turns the top paddle after the ball,
    /// moves the top paddle, then the bottom one, then the ball, and lets the
    /// ball bounce off the first thing that it touches.
    pub fn update(&mut self)
        requires
            old(self).update_fits(),
        ensures
            *final(self) == old(self).spec_update(),
    {
        if self.ball.velocity.x > 0 && self.p2.velocity < 0 {
            self.p2.velocity = 1;
        } else if self.ball.velocity.x < 0 && self.p2.velocity > 0 {
            self.p2.velocity = -1;
        }
        World::update_player(&mut self.p2);
        World::update_player(&mut self.p1);
        let dx: i32 = round_to_pixels(self.ball.velocity.x);
        let dy: i32 = round_to_pixels(self.ball.velocity.y);
        self.ball.rect.x = self.ball.rect.x + dx;
        self.ball.rect.y = self.ball.rect.y + dy;

        let mut ball_v = self.ball.velocity;
        match self.contact().normal() {
            Some(n) => {
                ball_v = self.ball.velocity.reflection(n);
            },
            None => {},
        }
        self.ball.velocity = ball_v;
    }
}

impl Default for World {
    /// The world at the start of a game, as [`World::new`] makes it.
    fn default() -> (world: World)
        ensures
            world == World::initial(),
    {
        World::new()
    }
}

/// A paddle never comes to rest on or past a side wall: a position that it
/// takes lies strictly between `0` and `WIDTH - width`, and a paddle that is
/// clear of the walls stays clear. Its velocity and its box's other numbers
/// are not touched.
pub proof fn lemma_paddle_stays_clear(p: Player)
    requires
        p.move_fits(),
    ensures
        p.moved().rect.x != p.rect.x ==> 0 < p.moved().rect.x < WIDTH - p.rect.width,
        p.clear_of_walls() ==> p.moved().clear_of_walls(),
        !p.move_accepted() ==> p.moved() == p,
        p.moved().velocity == p.velocity,
        p.moved().rect.y == p.rect.y,
        p.moved().rect.width == p.rect.width,
        p.moved().rect.height == p.rect.height,
{
}

/// A bounce negates the velocity component that points into the surface
/// and sets `w` to zero: `y` at a paddle, `x` at a wall. It can be stored
/// unless that component is the least 32-bit integer. Without a contact the
/// velocity stays as it is, `w` included.
pub proof fn lemma_bounce_flips(ball: Ball, contact: Contact)
    ensures
        ball.bounce_fits(contact) <==> match contact {
            Contact::TopPaddle | Contact::BottomPaddle => ball.velocity.y != i32::MIN,
            Contact::LeftWall | Contact::RightWall => ball.velocity.x != i32::MIN,
            Contact::Nothing => true,
        },
        ball.bounce_fits(contact) ==> ball.velocity_after(contact) == match contact {
            Contact::TopPaddle | Contact::BottomPaddle => Vector {
                x: ball.velocity.x,
                y: (-ball.velocity.y) as i32,
                w: 0,
            },
            Contact::LeftWall | Contact::RightWall => Vector {
                x: (-ball.velocity.x) as i32,
                y: ball.velocity.y,
                w: 0,
            },
            Contact::Nothing => ball.velocity,
        },
{
    match contact.spec_normal() {
        Some(n) => {
            lemma_unit_is_axis(n);
            lemma_reflection_flips(ball.velocity, n);
        },
        None => {},
    }
}

/// The world at the start of a game can be updated, and its paddles are
/// clear of the walls.
pub proof fn lemma_initial_fits()
    ensures
        World::initial().update_fits(),
        World::initial().p1.clear_of_walls(),
        World::initial().p2.clear_of_walls(),
{
    let w = World::initial();
    lemma_bounce_flips(w.ball, w.after_motion().spec_contact());
}

/// An update keeps both paddles clear of the walls if they were, and a
/// paddle that it moves is clear of them afterwards.
pub proof fn lemma_update_keeps_paddles_clear(w: World)
    requires
        w.update_fits(),
    ensures
        w.p1.clear_of_walls() ==> w.spec_update().p1.clear_of_walls(),
        w.p2.clear_of_walls() ==> w.spec_update().p2.clear_of_walls(),
        w.spec_update().p1.rect.x != w.p1.rect.x ==> w.spec_update().p1.clear_of_walls(),
        w.spec_update().p2.rect.x != w.p2.rect.x ==> w.spec_update().p2.clear_of_walls(),
{
    lemma_paddle_stays_clear(w.p1);
    lemma_paddle_stays_clear(w.p2.with_velocity(w.steered_velocity()));
}

/// An update changes the ball's velocity at most in sign, component by
/// component, so the ball is as fast along each axis after it as before.
/// The boxes keep their extent, and the bottom paddle keeps its velocity.
pub proof fn lemma_update_keeps_speed(w: World)
    requires
        w.update_fits(),
    ensures
        w.spec_update().ball.velocity.x == w.ball.velocity.x || w.spec_update().ball.velocity.x
            == -w.ball.velocity.x,
        w.spec_update().ball.velocity.y == w.ball.velocity.y || w.spec_update().ball.velocity.y
            == -w.ball.velocity.y,
        w.spec_update().ball.velocity.norm_squared() == w.ball.velocity.norm_squared(),
        w.spec_update().ball.rect.width == w.ball.rect.width,
        w.spec_update().ball.rect.height == w.ball.rect.height,
        w.spec_update().p1.rect.width == w.p1.rect.width,
        w.spec_update().p2.rect.width == w.p2.rect.width,
        w.spec_update().p1.velocity == w.p1.velocity,
{
    let contact = w.after_motion().spec_contact();
    lemma_bounce_flips(w.ball, contact);
    match contact.spec_normal() {
        Some(n) => {
            lemma_unit_is_axis(n);
            lemma_reflection_keeps_length(w.ball.velocity, n);
        },
        None => {},
    }
}

/// The top paddle is only ever turned, never stopped: after an update its
/// velocity is what it was, or one pixel per tick towards the side that the
/// ball heads for.
pub proof fn lemma_update_steers_top_paddle(w: World)
    requires
        w.update_fits(),
    ensures
        w.spec_update().p2.velocity == w.steered_velocity(),
        w.ball.velocity.x > 0 ==> w.spec_update().p2.velocity >= 0,
        w.ball.velocity.x < 0 ==> w.spec_update().p2.velocity <= 0,
        w.ball.velocity.x == 0 ==> w.spec_update().p2.velocity == w.p2.velocity,
{
}

/// The top and the bottom of the field do not hold the ball: each tick
/// moves it by its rounded velocity on both axes, whatever its row, and while
/// it overlaps no paddle and lies strictly between the side walls its
/// velocity stays as it is.
pub proof fn lemma_ball_flies_freely(w: World)
    requires
        w.update_fits(),
    ensures
        w.spec_update().ball.rect.x == w.ball.rect.x + spec_round_to_pixels(
            w.ball.velocity.x as int,
        ),
        w.spec_update().ball.rect.y == w.ball.rect.y + spec_round_to_pixels(
            w.ball.velocity.y as int,
        ),
        ({
            let moved = w.after_motion();
            &&& !moved.ball.rect.spec_overlaps(moved.p1.rect)
            &&& !moved.ball.rect.spec_overlaps(moved.p2.rect)
            &&& 0 < moved.ball.rect.x
            &&& moved.ball.rect.x + moved.ball.rect.width < WIDTH
        }) ==> w.spec_update().ball.velocity == w.ball.velocity,
{
}

} // verus!
