//! The note store: the ordered collection of notes and the per-note drag
//! state machine. Pointer events come in as plain coordinates; positions
//! are clamped to the board's floor, and category memberships are
//! recomputed from placement whenever a drag ends.

use crate::circle::Circle;
use crate::circle::Point;
use crate::note::Note;
use vstd::prelude::*;

verus! {

/// An operation addressed a note index that does not exist.
#[derive(Clone, Copy, Debug, PartialEq, Eq)]
pub enum StoreError {
    IndexOutOfRange,
}

/// The lowest coordinate a drag may leave a note at: a note can be pushed
/// mostly off the top or left edge of the board, but not lost entirely.
pub const CLAMP_FLOOR: i32 = -70;

/// Clamp a coordinate to the board's floor.
pub open spec fn clamp_floor(v: int) -> int {
    if v < CLAMP_FLOOR as int {
        CLAMP_FLOOR as int
    } else {
        v
    }
}

/// What beginning a drag does to the collection: the target note saves its
/// current position as the drag anchor and the pointer position as the
/// pointer origin, and starts dragging. Re-entry while already dragging
/// simply re-anchors.
pub open spec fn spec_begin_drag(s: Seq<Note>, index: int, pointer: Point) -> Seq<Note> {
    s.update(index, s[index].with_drag_started(pointer))
}

/// What a drag move does to the collection: nothing at all if the target
/// note is not dragging (stray move events are ignored); otherwise the
/// note's position becomes its anchor plus the pointer's total movement
/// since the drag began, clamped to the floor.
pub open spec fn spec_update_drag(s: Seq<Note>, index: int, pointer: Point) -> Seq<Note> {
    if !s[index].dragging {
        s
    } else {
        s.update(
            index,
            (Note {
                x: clamp_floor(s[index].original_x + pointer.x - s[index].client_x) as i32,
                y: clamp_floor(s[index].original_y + pointer.y - s[index].client_y) as i32,
                ..s[index]
            }),
        )
    }
}

/// What ending a drag does to the collection: every note's drag scratch
/// state is settled (a defence against missed pointer-up events leaving a
/// stale drag), and the target note's memberships are then recomputed from
/// its final position against the three circles.
pub open spec fn spec_end_drag(
    s: Seq<Note>,
    index: int,
    fun: Circle,
    done: Circle,
    learn: Circle,
) -> Seq<Note> {
    Seq::new(
        s.len(),
        |j: int|
            if j == index {
                (Note {
                    client_x: 0,
                    client_y: 0,
                    dragging: false,
                    fdl: s[index].spec_classify(fun, done, learn),
                    ..s[index]
                })
            } else {
                s[j].with_drag_cleared()
            },
    )
}

/// The ordered collection of notes. Order is display order: insertion
/// order, except that deletions shift later notes down.
pub struct NoteStore {
    notes: Vec<Note>,
}

impl View for NoteStore {
    type V = Seq<Note>;

    closed spec fn view(&self) -> Seq<Note> {
        self.notes@
    }
}

impl NoteStore {
    /// Every note has the fixed default size and sits on or above the
    /// clamp floor.
    pub open spec fn wf(self) -> bool {
        forall|i: int|
            #![trigger self@[i]]
            0 <= i < self@.len() ==> {
                &&& self@[i].width == 150
                &&& self@[i].height == 100
                &&& self@[i].x >= CLAMP_FLOOR as int
                &&& self@[i].y >= CLAMP_FLOOR as int
            }
    }

    pub fn new() -> (s: Self)
        ensures
            s@ == Seq::<Note>::empty(),
            s.wf(),
    {
        NoteStore { notes: Vec::new() }
    }

    /// Read access to the ordered collection, for rendering.
    pub fn notes(&self) -> (r: &Vec<Note>)
        ensures
            r@ == self@,
    {
        &self.notes
    }

    pub fn len(&self) -> (n: usize)
        ensures
            n == self@.len(),
    {
        self.notes.len()
    }

    /// Append a fresh note with empty text at a deterministic offset from
    /// the current count, so successive notes cascade diagonally.
    pub fn add_note(&mut self)
        requires
            old(self).wf(),
            old(self)@.len() < 0x7fff_ff00,
        ensures
            final(self).wf(),
            final(self)@.len() == old(self)@.len() + 1,
            forall|j: int| 0 <= j < old(self)@.len() ==> final(self)@[j] == old(self)@[j],
            final(self)@[old(self)@.len() as int].is_fresh(
                Seq::<char>::empty(),
                10 + old(self)@.len() as int,
                100 + old(self)@.len() as int,
            ),
    {
        let count: i32 = self.notes.len() as i32;
        let note = Note::new(String::new(), 10 + count, 100 + count);
        self.notes.push(note);
    }

    /// Replace the target note's text. Nothing else changes, and in
    /// particular the memberships do not: text never affects category.
    pub fn edit_text(&mut self, index: usize, description: String) -> (r: Result<(), StoreError>)
        requires
            old(self).wf(),
        ensures
            final(self).wf(),
            match r {
                Ok(()) => {
                    &&& (index as int) < old(self)@.len()
                    &&& final(self)@ == old(self)@.update(
                        index as int,
                        (Note { description: description, ..old(self)@[index as int] }),
                    )
                },
                Err(StoreError::IndexOutOfRange) => {
                    &&& (index as int) >= old(self)@.len()
                    &&& final(self)@ == old(self)@
                },
            },
    {
        if index >= self.notes.len() {
            return Err(StoreError::IndexOutOfRange);
        }
        self.notes[index].description = description;
        Ok(())
    }

    /// Start (or re-anchor) a drag of the target note at the given pointer
    /// position.
    pub fn begin_drag(&mut self, index: usize, pointer: Point) -> (r: Result<(), StoreError>)
        requires
            old(self).wf(),
        ensures
            final(self).wf(),
            match r {
                Ok(()) => {
                    &&& (index as int) < old(self)@.len()
                    &&& final(self)@ == spec_begin_drag(old(self)@, index as int, pointer)
                },
                Err(StoreError::IndexOutOfRange) => {
                    &&& (index as int) >= old(self)@.len()
                    &&& final(self)@ == old(self)@
                },
            },
    {
        if index >= self.notes.len() {
            return Err(StoreError::IndexOutOfRange);
        }
        let x: i32 = self.notes[index].x;
        let y: i32 = self.notes[index].y;
        self.notes[index].original_x = x;
        self.notes[index].original_y = y;
        self.notes[index].client_x = pointer.x;
        self.notes[index].client_y = pointer.y;
        self.notes[index].dragging = true;
        proof {
            assert(self.notes@ =~= spec_begin_drag(old(self)@, index as int, pointer));
        }
        Ok(())
    }

    /// Move a dragged note: its position becomes the drag anchor plus the
    /// pointer's movement since the drag began, clamped to the floor. A
    /// move for a note that is not dragging is silently ignored.
    pub fn update_drag(&mut self, index: usize, pointer: Point) -> (r: Result<(), StoreError>)
        requires
            old(self).wf(),
            (index as int) < old(self)@.len() && old(self)@[index as int].dragging ==> {
                &&& old(self)@[index as int].original_x + pointer.x - old(
                    self,
                )@[index as int].client_x <= i32::MAX
                &&& old(self)@[index as int].original_y + pointer.y - old(
                    self,
                )@[index as int].client_y <= i32::MAX
            },
        ensures
            final(self).wf(),
            match r {
                Ok(()) => {
                    &&& (index as int) < old(self)@.len()
                    &&& final(self)@ == spec_update_drag(old(self)@, index as int, pointer)
                },
                Err(StoreError::IndexOutOfRange) => {
                    &&& (index as int) >= old(self)@.len()
                    &&& final(self)@ == old(self)@
                },
            },
    {
        if index >= self.notes.len() {
            return Err(StoreError::IndexOutOfRange);
        }
        if !self.notes[index].dragging {
            return Ok(());
        }
        let ox: i64 = self.notes[index].original_x as i64;
        let oy: i64 = self.notes[index].original_y as i64;
        let px: i64 = pointer.x as i64;
        let py: i64 = pointer.y as i64;
        let cx: i64 = self.notes[index].client_x as i64;
        let cy: i64 = self.notes[index].client_y as i64;
        let nx64: i64 = ox + px - cx;
        let ny64: i64 = oy + py - cy;
        let nx: i32 = if nx64 < CLAMP_FLOOR as i64 {
            CLAMP_FLOOR
        } else {
            nx64 as i32
        };
        let ny: i32 = if ny64 < CLAMP_FLOOR as i64 {
            CLAMP_FLOOR
        } else {
            ny64 as i32
        };
        self.notes[index].x = nx;
        self.notes[index].y = ny;
        proof {
            assert(self.notes@ =~= spec_update_drag(old(self)@, index as int, pointer));
        }
        Ok(())
    }

    /// End a drag: settle every note's drag state (even notes other than
    /// the target, in case a pointer-up was missed elsewhere), then
    /// recompute the target note's memberships from its final position
    /// against the three circles (fun, done, learn, in that order).
    pub fn end_drag(&mut self, index: usize, fdl: (Circle, Circle, Circle)) -> (r: Result<
        (),
        StoreError,
    >)
        requires
            old(self).wf(),
        ensures
            final(self).wf(),
            match r {
                Ok(()) => {
                    &&& (index as int) < old(self)@.len()
                    &&& final(self)@ == spec_end_drag(old(self)@, index as int, fdl.0, fdl.1, fdl.2)
                    &&& forall|j: int|
                        0 <= j < final(self)@.len() ==> !(#[trigger] final(self)@[j]).dragging
                },
                Err(StoreError::IndexOutOfRange) => {
                    &&& (index as int) >= old(self)@.len()
                    &&& final(self)@ == old(self)@
                },
            },
    {
        if index >= self.notes.len() {
            return Err(StoreError::IndexOutOfRange);
        }
        let ghost s0 = self.notes@;
        let count: usize = self.notes.len();
        let mut i: usize = 0;
        while i < count
            invariant
                count == self.notes@.len(),
                count == s0.len(),
                (index as int) < s0.len(),
                forall|j: int| 0 <= j < i ==> self.notes@[j] == s0[j].with_drag_cleared(),
                forall|j: int| i <= j < count ==> self.notes@[j] == s0[j],
            decreases count - i,
        {
            self.notes[i].client_x = 0;
            self.notes[i].client_y = 0;
            self.notes[i].dragging = false;
            i = i + 1;
        }
        self.notes[index].set_fdl(fdl);
        proof {
            assert(self.notes@[index as int].spec_classify(fdl.0, fdl.1, fdl.2) == s0[
                index as int
            ].spec_classify(fdl.0, fdl.1, fdl.2));
            assert(self.notes@ =~= spec_end_drag(s0, index as int, fdl.0, fdl.1, fdl.2));
        }
        Ok(())
    }

    /// Remove the target note; later notes shift down by one index.
    pub fn delete_note(&mut self, index: usize) -> (r: Result<(), StoreError>)
        requires
            old(self).wf(),
        ensures
            final(self).wf(),
            match r {
                Ok(()) => {
                    &&& (index as int) < old(self)@.len()
                    &&& final(self)@ == old(self)@.remove(index as int)
                },
                Err(StoreError::IndexOutOfRange) => {
                    &&& (index as int) >= old(self)@.len()
                    &&& final(self)@ == old(self)@
                },
            },
    {
        if index >= self.notes.len() {
            return Err(StoreError::IndexOutOfRange);
        }
        self.notes.remove(index);
        Ok(())
    }
}

impl Default for NoteStore {
    fn default() -> (s: Self)
        ensures
            s@ == Seq::<Note>::empty(),
            s.wf(),
    {
        NoteStore::new()
    }
}

/// The last move of a drag wins: any earlier move of the same still-dragging
/// note leaves no trace in the outcome, because each move is computed from
/// the drag anchor and pointer origin, which moves never change.
pub proof fn lemma_update_drag_last_wins(s: Seq<Note>, index: int, mid: Point, pointer: Point)
    requires
        0 <= index < s.len(),
    ensures
        spec_update_drag(spec_update_drag(s, index, mid), index, pointer) == spec_update_drag(
            s,
            index,
            pointer,
        ),
{
    assert(spec_update_drag(spec_update_drag(s, index, mid), index, pointer) =~= spec_update_drag(
        s,
        index,
        pointer,
    ));
}

/// A drag moves a note by exactly the pointer's total movement since the
/// drag began, relative to the position the note had at that moment,
/// subject only to the clamp floor.
pub proof fn lemma_drag_delta(s: Seq<Note>, index: int, origin: Point, pointer: Point)
    requires
        0 <= index < s.len(),
        s[index].x + pointer.x - origin.x <= i32::MAX,
        s[index].y + pointer.y - origin.y <= i32::MAX,
    ensures
        spec_update_drag(spec_begin_drag(s, index, origin), index, pointer)[index].x == clamp_floor(
            s[index].x + pointer.x - origin.x,
        ),
        spec_update_drag(spec_begin_drag(s, index, origin), index, pointer)[index].y == clamp_floor(
            s[index].y + pointer.y - origin.y,
        ),
{
}

/// Ending a drag twice in a row, with the same circles and nothing in
/// between, changes nothing the second time: the positions the memberships
/// are derived from are already settled.
pub proof fn lemma_end_drag_idempotent(
    s: Seq<Note>,
    index: int,
    fun: Circle,
    done: Circle,
    learn: Circle,
)
    requires
        0 <= index < s.len(),
    ensures
        spec_end_drag(spec_end_drag(s, index, fun, done, learn), index, fun, done, learn)
            == spec_end_drag(s, index, fun, done, learn),
{
    let once = spec_end_drag(s, index, fun, done, learn);
    let twice = spec_end_drag(once, index, fun, done, learn);
    assert(once[index].spec_classify(fun, done, learn) == s[index].spec_classify(fun, done, learn));
    assert(twice =~= once);
}

} // verus!
