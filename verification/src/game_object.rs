use vstd::prelude::*;

use crate::fixed_point::{clamp_i32, minus, plus};
use crate::geometry::Vector2;

verus! {

/// A body that moves under gravity and bounces off the edges of the screen.
pub struct GameObject {
    location: Vector2,
    velocity: Vector2,
}

/// What a game object holds.
pub struct GameObjectView {
    pub location: Vector2,
    pub velocity: Vector2,
}

/// Where a body at `position` with the speed `speed` along one axis is put by
/// the edges at 0 and at `limit`: past an edge it is set onto the edge and
/// its speed turned round; between them nothing changes. The far edge is
/// looked at first.
pub open spec fn bounced(position: int, speed: int, limit: int) -> (int, int) {
    if position > limit {
        (limit, clamp_i32(-speed))
    } else if position < 0 {
        (0, clamp_i32(-speed))
    } else {
        (position, speed)
    }
}

impl GameObjectView {
    /// The object after it has been held to a screen of the given size.
    pub open spec fn walled(self, screen_size: (i32, i32)) -> GameObjectView {
        let across = bounced(
            self.location.x as int,
            self.velocity.x as int,
            screen_size.0 as int,
        );
        let down = bounced(self.location.y as int, self.velocity.y as int, screen_size.1 as int);
        GameObjectView {
            location: Vector2 { x: across.0 as i32, y: down.0 as i32 },
            velocity: Vector2 { x: across.1 as i32, y: down.1 as i32 },
        }
    }

    /// The object after one tick: gravity is added to its vertical velocity,
    /// the velocity is added to its location, and the edges of the screen
    /// hold it.
    pub open spec fn updated(self, gravity: i32, screen_size: (i32, i32)) -> GameObjectView {
        let velocity = Vector2 {
            x: self.velocity.x,
            y: clamp_i32(self.velocity.y as int + gravity as int) as i32,
        };
        (GameObjectView { location: self.location.spec_plus(velocity), velocity }).walled(
            screen_size,
        )
    }
}

impl View for GameObject {
    type V = GameObjectView;

    closed spec fn view(&self) -> GameObjectView {
        GameObjectView { location: self.location, velocity: self.velocity }
    }
}

impl GameObject {
    /// An object at (`x`, `y`) that moves five units a tick to the right.
    pub fn new(x: i32, y: i32) -> (object: Self)
        ensures
            object@ == (GameObjectView {
                location: Vector2 { x, y },
                velocity: Vector2 { x: 5_000, y: 0 },
            }),
    {
        GameObject { location: Vector2 { x, y }, velocity: Vector2 { x: 5_000, y: 0 } }
    }

    /// Where the object is.
    pub fn location(&self) -> (location: Vector2)
        ensures
            location == self@.location,
    {
        self.location
    }

    /// How fast the object moves.
    pub fn velocity(&self) -> (velocity: Vector2)
        ensures
            velocity == self@.velocity,
    {
        self.velocity
    }

    /// Where to draw the object: where it is.
    pub fn draw(&self) -> (dest: Vector2)
        ensures
            dest == self@.location,
    {
        self.location
    }

    /// Advances the object by one tick on a screen of the given size.
    pub fn update(&mut self, gravity: i32, screen_size: (i32, i32))
        ensures
            final(self)@ == old(self)@.updated(gravity, screen_size),
    {
        self.velocity.y = plus(self.velocity.y, gravity);
        self.location.x = plus(self.location.x, self.velocity.x);
        self.location.y = plus(self.location.y, self.velocity.y);

        self.hit_walls(screen_size);
    }

    /// Holds the object to a screen of the given size.
    pub fn hit_walls(&mut self, screen_size: (i32, i32))
        ensures
            final(self)@ == old(self)@.walled(screen_size),
    {
        let width: i32 = screen_size.0;
        let height: i32 = screen_size.1;
        if self.location.x > width {
            self.location.x = width;
            self.velocity.x = minus(0, self.velocity.x);
        } else if self.location.x < 0 {
            self.location.x = 0;
            self.velocity.x = minus(0, self.velocity.x);
        }

        if self.location.y > height {
            self.location.y = height;
            self.velocity.y = minus(0, self.velocity.y);
        } else if self.location.y < 0 {
            self.location.y = 0;
            self.velocity.y = minus(0, self.velocity.y);
        }
    }
}

} // verus!
