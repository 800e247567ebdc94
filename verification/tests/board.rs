use note_board::Circle;
use note_board::Fdl;
use note_board::Note;
use note_board::NoteStore;
use note_board::Point;
use note_board::StoreError;

fn fixed_circles() -> (Circle, Circle, Circle) {
    (
        Circle::new(795, 520, 500),
        Circle::new(520, 996, 500),
        Circle::new(1020, 996, 500),
    )
}

#[test]
fn note_new_defaults() {
    let n = Note::new("hello".to_string(), 3, -4);
    assert_eq!(n.description, "hello");
    assert_eq!((n.x, n.y), (3, -4));
    assert_eq!((n.width, n.height), (150, 100));
    assert_eq!(
        n.fdl,
        Fdl {
            fun: false,
            done: false,
            learn: false
        }
    );
    assert_eq!((n.original_x, n.original_y), (0, 0));
    assert_eq!((n.client_x, n.client_y), (0, 0));
    assert!(!n.dragging);
}

#[test]
fn circle_boundary_counts_as_inside() {
    let c = Circle::new(0, 0, 5);
    // Squared distance exactly equal to the squared radius: contained.
    assert!(c.contains(3, 4));
    assert!(c.contains(5, 0));
    assert!(c.contains(0, -5));
    // Just outside.
    assert!(!c.contains(5, 1));
    assert!(!c.contains(4, 4));
    // Well inside.
    assert!(c.contains(0, 0));
    assert!(c.contains(-1, 2));
}

#[test]
fn circle_contains_negative_coordinates() {
    let c = Circle::new(-10, -10, 2);
    assert!(c.contains(-10, -8));
    assert!(!c.contains(-10, -7));
}

#[test]
fn classify_is_independent_per_circle() {
    let (fun, done, learn) = fixed_circles();
    let mut a = Note::new(String::new(), 720, 470);
    a.set_fdl((fun, done, learn));
    // Same fun circle, very different other circles: fun membership is
    // unchanged, whatever happens to the other two.
    let mut b = Note::new(String::new(), 720, 470);
    b.set_fdl((fun, Circle::new(795, 520, 500), Circle::new(795, 520, 500)));
    assert_eq!(a.fdl.fun, b.fdl.fun);
    assert!(b.fdl.done && b.fdl.learn);
}

#[test]
fn classify_at_fun_center() {
    // A 150x100 note with its top-left at (720, 470) has center (795, 520),
    // exactly the fun circle's center, and lies outside the other two.
    let (fun, done, learn) = fixed_circles();
    let mut n = Note::new(String::new(), 720, 470);
    n.set_fdl((fun, done, learn));
    assert_eq!(
        n.fdl,
        Fdl {
            fun: true,
            done: false,
            learn: false
        }
    );
    // Position and text are untouched by classification.
    assert_eq!((n.x, n.y), (720, 470));
    assert_eq!(n.description, "");
}

#[test]
fn add_note_cascades() {
    let mut s = NoteStore::new();
    s.add_note();
    s.add_note();
    s.add_note();
    let notes = s.notes();
    assert_eq!(notes.len(), 3);
    assert_eq!((notes[0].x, notes[0].y), (10, 100));
    assert_eq!((notes[1].x, notes[1].y), (11, 101));
    assert_eq!((notes[2].x, notes[2].y), (12, 102));
    for n in notes {
        assert_eq!(n.description, "");
        assert!(!n.dragging);
        assert!(!n.fdl.fun && !n.fdl.done && !n.fdl.learn);
        assert_eq!((n.width, n.height), (150, 100));
    }
}

#[test]
fn delete_note_shifts_later_notes_down() {
    let mut s = NoteStore::new();
    s.add_note();
    s.add_note();
    s.add_note();
    s.edit_text(0, "a".to_string()).unwrap();
    s.edit_text(1, "b".to_string()).unwrap();
    s.edit_text(2, "c".to_string()).unwrap();
    s.delete_note(0).unwrap();
    assert_eq!(s.len(), 2);
    assert_eq!(s.notes()[0].description, "b");
    assert_eq!(s.notes()[1].description, "c");
}

#[test]
fn edit_text_changes_only_the_text() {
    let mut s = NoteStore::new();
    s.add_note();
    s.edit_text(0, "groceries".to_string()).unwrap();
    let n = &s.notes()[0];
    assert_eq!(n.description, "groceries");
    assert_eq!((n.x, n.y), (10, 100));
    assert!(!n.fdl.fun && !n.fdl.done && !n.fdl.learn);
    assert!(!n.dragging);
}

#[test]
fn drag_moves_by_pointer_delta() {
    let mut s = NoteStore::new();
    s.add_note();
    s.begin_drag(0, Point { x: 100, y: 100 }).unwrap();
    // Intermediate moves leave no trace: only the last one counts.
    s.update_drag(0, Point { x: 500, y: -300 }).unwrap();
    s.update_drag(0, Point { x: 7, y: 9 }).unwrap();
    s.update_drag(0, Point { x: 130, y: 145 }).unwrap();
    let n = &s.notes()[0];
    // Moved by exactly (+30, +45) from the position at drag start.
    assert_eq!((n.x, n.y), (40, 145));
    assert!(n.dragging);
}

#[test]
fn drag_clamps_to_floor() {
    let mut s = NoteStore::new();
    s.add_note();
    s.begin_drag(0, Point { x: 0, y: 0 }).unwrap();
    s.update_drag(0, Point { x: -100000, y: -100000 }).unwrap();
    assert_eq!((s.notes()[0].x, s.notes()[0].y), (-70, -70));
    // Dragging back out of the corner works from the anchor, not from the
    // clamped position.
    s.update_drag(0, Point { x: 5, y: -3 }).unwrap();
    assert_eq!((s.notes()[0].x, s.notes()[0].y), (15, 97));
}

#[test]
fn update_drag_on_idle_note_is_ignored() {
    let mut s = NoteStore::new();
    s.add_note();
    assert_eq!(s.update_drag(0, Point { x: 999, y: 999 }), Ok(()));
    assert_eq!((s.notes()[0].x, s.notes()[0].y), (10, 100));
    assert!(!s.notes()[0].dragging);
}

#[test]
fn begin_drag_reanchors_on_reentry() {
    let mut s = NoteStore::new();
    s.add_note();
    s.begin_drag(0, Point { x: 100, y: 100 }).unwrap();
    s.update_drag(0, Point { x: 110, y: 110 }).unwrap();
    assert_eq!((s.notes()[0].x, s.notes()[0].y), (20, 110));
    // A second pointer-down while still dragging re-anchors at the current
    // position.
    s.begin_drag(0, Point { x: 200, y: 200 }).unwrap();
    s.update_drag(0, Point { x: 230, y: 230 }).unwrap();
    assert_eq!((s.notes()[0].x, s.notes()[0].y), (50, 140));
}

#[test]
fn end_drag_settles_every_note() {
    let mut s = NoteStore::new();
    s.add_note();
    s.add_note();
    s.begin_drag(0, Point { x: 10, y: 10 }).unwrap();
    s.begin_drag(1, Point { x: 20, y: 20 }).unwrap();
    // A missed pointer-up left note 1 dragging; ending note 0's drag
    // settles both.
    s.end_drag(0, fixed_circles()).unwrap();
    for n in s.notes() {
        assert!(!n.dragging);
        assert_eq!((n.client_x, n.client_y), (0, 0));
    }
}

#[test]
fn end_drag_classifies_the_dragged_note() {
    let mut s = NoteStore::new();
    s.add_note();
    // Drag the note from (10, 100) to (720, 470): its center lands exactly
    // on the fun circle's center.
    s.begin_drag(0, Point { x: 0, y: 0 }).unwrap();
    s.update_drag(0, Point { x: 710, y: 370 }).unwrap();
    s.end_drag(0, fixed_circles()).unwrap();
    let n = &s.notes()[0];
    assert_eq!((n.x, n.y), (720, 470));
    assert_eq!(
        n.fdl,
        Fdl {
            fun: true,
            done: false,
            learn: false
        }
    );
    assert!(!n.dragging);
}

#[test]
fn end_drag_twice_gives_same_categories() {
    let mut s = NoteStore::new();
    s.add_note();
    s.begin_drag(0, Point { x: 0, y: 0 }).unwrap();
    s.update_drag(0, Point { x: 710, y: 370 }).unwrap();
    s.end_drag(0, fixed_circles()).unwrap();
    let first: Fdl = s.notes()[0].fdl;
    let pos_first = (s.notes()[0].x, s.notes()[0].y);
    s.end_drag(0, fixed_circles()).unwrap();
    assert_eq!(s.notes()[0].fdl, first);
    assert_eq!((s.notes()[0].x, s.notes()[0].y), pos_first);
}

#[test]
fn out_of_range_index_is_reported() {
    let mut s = NoteStore::new();
    s.add_note();
    let circles = fixed_circles();
    assert_eq!(
        s.edit_text(1, "x".to_string()),
        Err(StoreError::IndexOutOfRange)
    );
    assert_eq!(
        s.begin_drag(1, Point { x: 0, y: 0 }),
        Err(StoreError::IndexOutOfRange)
    );
    assert_eq!(
        s.update_drag(1, Point { x: 0, y: 0 }),
        Err(StoreError::IndexOutOfRange)
    );
    assert_eq!(s.end_drag(1, circles), Err(StoreError::IndexOutOfRange));
    assert_eq!(s.delete_note(1), Err(StoreError::IndexOutOfRange));
    // A failed operation changes nothing.
    assert_eq!(s.len(), 1);
    assert_eq!((s.notes()[0].x, s.notes()[0].y), (10, 100));
    assert_eq!(s.notes()[0].description, "");
}

#[test]
fn store_default_is_empty() {
    let s = NoteStore::default();
    assert_eq!(s.len(), 0);
    assert!(s.notes().is_empty());
}
