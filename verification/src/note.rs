//! Sticky notes: free text, a position, a fixed size, the derived category
//! memberships, and the per-note drag state.

use crate::circle::Circle;
use crate::circle::Point;
use crate::circle::contains_wide;
use vstd::prelude::*;

verus! {

/// The three independent circle memberships of a note. A note may lie in
/// zero, one, two, or all three circles at once.
#[derive(Clone, Copy, Debug, PartialEq, Eq)]
pub struct Fdl {
    pub fun: bool,
    pub done: bool,
    pub learn: bool,
}

/// A sticky note. `x`/`y` is the top-left anchor of its bounding box;
/// `width`/`height` are fixed at creation. While a drag is in progress
/// (`dragging`), `original_x`/`original_y` hold the position the note had
/// when the drag started and `client_x`/`client_y` the pointer's screen
/// coordinates at that moment, so that each move is computed relative to
/// the drag start rather than frame to frame.
#[derive(Clone, Debug)]
pub struct Note {
    pub description: String,
    pub fdl: Fdl,
    pub x: i32,
    pub y: i32,
    pub width: i32,
    pub height: i32,
    pub original_x: i32,
    pub original_y: i32,
    pub client_x: i32,
    pub client_y: i32,
    pub dragging: bool,
}

impl Note {
    /// The x coordinate of the center of the note's bounding box.
    pub open spec fn center_x(self) -> int {
        self.x + self.width / 2
    }

    /// The y coordinate of the center of the note's bounding box.
    pub open spec fn center_y(self) -> int {
        self.y + self.height / 2
    }

    /// The category set derived from the note's center point: one
    /// containment test per circle, each independent of the other two.
    pub open spec fn spec_classify(self, fun: Circle, done: Circle, learn: Circle) -> Fdl {
        Fdl {
            fun: fun.spec_contains(self.center_x(), self.center_y()),
            done: done.spec_contains(self.center_x(), self.center_y()),
            learn: learn.spec_contains(self.center_x(), self.center_y()),
        }
    }

    /// A note as `new` builds it: the given text and position, the default
    /// size, no memberships, and no drag in progress.
    pub open spec fn is_fresh(self, description: Seq<char>, x: int, y: int) -> bool {
        &&& self.description@ == description
        &&& self.fdl == (Fdl { fun: false, done: false, learn: false })
        &&& self.x == x
        &&& self.y == y
        &&& self.width == 150
        &&& self.height == 100
        &&& self.original_x == 0
        &&& self.original_y == 0
        &&& self.client_x == 0
        &&& self.client_y == 0
        &&& !self.dragging
    }

    /// The note as a beginning drag leaves it: the current position saved
    /// as the anchor, the pointer position saved as the origin.
    pub open spec fn with_drag_started(self, pointer: Point) -> Note {
        Note {
            original_x: self.x,
            original_y: self.y,
            client_x: pointer.x,
            client_y: pointer.y,
            dragging: true,
            ..self
        }
    }

    /// The note with its drag scratch state settled: pointer origin
    /// cleared and no drag in progress. Position, size, text, and
    /// memberships are untouched.
    pub open spec fn with_drag_cleared(self) -> Note {
        Note { client_x: 0, client_y: 0, dragging: false, ..self }
    }

    pub fn new(description: String, x: i32, y: i32) -> (n: Self)
        ensures
            n.is_fresh(description@, x as int, y as int),
    {
        Self {
            description,
            fdl: Fdl { fun: false, done: false, learn: false },
            x,
            y,
            width: 150,
            height: 100,
            original_x: 0,
            original_y: 0,
            client_x: 0,
            client_y: 0,
            dragging: false,
        }
    }

    /// Recompute the note's memberships from its current center against
    /// the three circles (fun, done, learn, in that order). Nothing else
    /// changes.
    pub fn set_fdl(&mut self, fdl: (Circle, Circle, Circle))
        requires
            old(self).width >= 0,
            old(self).height >= 0,
        ensures
            *final(self) == (Note {
                fdl: old(self).spec_classify(fdl.0, fdl.1, fdl.2),
                ..*old(self)
            }),
    {
        let cx: i64 = self.x as i64 + (self.width as u32 / 2) as i64;
        let cy: i64 = self.y as i64 + (self.height as u32 / 2) as i64;
        self.fdl = Fdl {
            fun: contains_wide(fdl.0, cx, cy),
            done: contains_wide(fdl.1, cx, cy),
            learn: contains_wide(fdl.2, cx, cy),
        };
    }
}

/// Membership in each circle depends only on that circle and the note's
/// center: replacing the other two circles by any others never changes it.
pub proof fn lemma_classify_independent(
    n: Note,
    fun1: Circle,
    done1: Circle,
    learn1: Circle,
    fun2: Circle,
    done2: Circle,
    learn2: Circle,
)
    ensures
        fun1 == fun2 ==> n.spec_classify(fun1, done1, learn1).fun == n.spec_classify(
            fun2,
            done2,
            learn2,
        ).fun,
        done1 == done2 ==> n.spec_classify(fun1, done1, learn1).done == n.spec_classify(
            fun2,
            done2,
            learn2,
        ).done,
        learn1 == learn2 ==> n.spec_classify(fun1, done1, learn1).learn == n.spec_classify(
            fun2,
            done2,
            learn2,
        ).learn,
{
}

} // verus!
