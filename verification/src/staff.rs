//! Staff geometry: mapping a natural note to its vertical position on a
//! five-line staff, together with the ledger-line and stem-direction hints
//! that a renderer needs.
//!
//! Coordinates are integers, with y growing downward. The staff is described
//! by the y coordinate of its top line and the (even, positive) spacing
//! between adjacent lines; a step from one natural note to the next moves the
//! notehead by exactly half that spacing.

use vstd::prelude::*;

verus! {

/// One of the seven natural (unaltered) note letters, in pitch order within
/// an octave. `H` is the seventh letter, following the German naming of the
/// note above A.
#[derive(Clone, Copy, Debug, PartialEq, Eq, Structural)]
pub enum Letter {
    C,
    D,
    E,
    F,
    G,
    A,
    H,
}

/// A natural note: a letter paired with an octave number. Two notes are
/// equal exactly when both components match.
#[derive(Clone, Copy, Debug, PartialEq, Eq, Structural)]
pub struct Note {
    pub letter: Letter,
    pub octave: u8,
}

/// Index of a letter within its octave, 0 through 6 in pitch order.
pub open spec fn letter_index(l: Letter) -> int {
    match l {
        Letter::C => 0,
        Letter::D => 1,
        Letter::E => 2,
        Letter::F => 3,
        Letter::G => 4,
        Letter::A => 5,
        Letter::H => 6,
    }
}

/// Absolute step value of a note: each octave spans the seven natural
/// letters, so the value advances by 7 per octave and by 1 per letter.
/// Higher pitch means a strictly larger step value.
pub open spec fn steps_of(n: Note) -> int {
    n.octave * 7 + letter_index(n.letter)
}

/// The lowest note of the trainable octave.
pub open spec fn lowest_trainable() -> Note {
    Note { letter: Letter::C, octave: 4 }
}

/// The reference note: it sits on the bottom line of the staff, at
/// `top + 4 * spacing`.
pub open spec fn reference_note() -> Note {
    Note { letter: Letter::E, octave: 4 }
}

/// The trainable set: the seven natural notes of octave 4.
pub open spec fn is_trainable(n: Note) -> bool {
    n.octave == 4
}

/// The fixed pitch-identifier table over the trainable set. Every trainable
/// note has an identifier between 60 and 71; any note outside the table is
/// sent to 0, which no trainable note uses.
pub open spec fn midi_of(n: Note) -> u8 {
    if n.octave == 4 {
        match n.letter {
            Letter::C => 60u8,
            Letter::D => 62u8,
            Letter::E => 64u8,
            Letter::F => 65u8,
            Letter::G => 67u8,
            Letter::A => 69u8,
            Letter::H => 71u8,
        }
    } else {
        0u8
    }
}

/// Converts a note to its absolute step value.
pub fn note_to_steps(note: Note) -> (r: i32)
    ensures
        r == steps_of(note),
{
    let letter_idx: i32 = match note.letter {
        Letter::C => 0,
        Letter::D => 1,
        Letter::E => 2,
        Letter::F => 3,
        Letter::G => 4,
        Letter::A => 5,
        Letter::H => 6,
    };
    (note.octave as i32) * 7 + letter_idx
}

/// Converts a note to its pitch identifier; 0 for a note outside the table.
pub fn note_to_midi(note: Note) -> (r: u8)
    ensures
        r == midi_of(note),
{
    if note.octave == 4 {
        match note.letter {
            Letter::C => 60,
            Letter::D => 62,
            Letter::E => 64,
            Letter::F => 65,
            Letter::G => 67,
            Letter::A => 69,
            Letter::H => 71,
        }
    } else {
        0
    }
}

/// Whether a note needs a ledger line: exactly the lowest trainable note,
/// which sits below the bottom staff line.
pub fn needs_ledger_line(note: Note) -> (r: bool)
    ensures
        r == (note == lowest_trainable()),
{
    note.octave == 4 && (match note.letter {
        Letter::C => true,
        _ => false,
    })
}

/// Geometry parameters a caller may pass without overflowing the position
/// arithmetic: an even line spacing of at least 2, both spacing and top
/// bounded well inside `i64`.
pub open spec fn valid_geometry(top: int, spacing: int) -> bool {
    &&& 2 <= spacing <= 10_000
    &&& spacing % 2 == 0
    &&& -1_000_000 <= top <= 1_000_000
}

/// Vertical coordinate of a note's center: the reference note sits on the
/// bottom line at `top + 4 * spacing`, and each step up moves the note up
/// (toward smaller y) by half the line spacing.
pub open spec fn y_of(n: Note, top: int, spacing: int) -> int {
    top + 4 * spacing - (steps_of(n) - steps_of(reference_note())) * (spacing / 2)
}

/// Whether the note's stem points down: exactly the notes at or above the
/// vertical midline of the staff, so that the stem points toward the
/// staff's center.
pub open spec fn stem_down_of(n: Note, top: int, spacing: int) -> bool {
    y_of(n, top, spacing) <= top + 2 * spacing
}

/// Everything a renderer needs to draw a note: its vertical coordinate,
/// whether a ledger line must be drawn through it, and which way its stem
/// points.
#[derive(Clone, Copy, Debug, PartialEq, Eq, Structural)]
pub struct StaffPos {
    pub y: i64,
    pub ledger_line: bool,
    pub stem_down: bool,
}

/// Vertical coordinate of the given note on the staff.
pub fn note_to_y(note: Note, top: i64, spacing: i64) -> (y: i64)
    requires
        valid_geometry(top as int, spacing as int),
    ensures
        y == y_of(note, top as int, spacing as int),
{
    let steps: i64 = note_to_steps(note) as i64;
    let rel: i64 = steps - 30;
    let half: i64 = spacing / 2;
    assert(0 <= steps <= 255 * 7 + 6);
    assert(-30 * 5_000 <= rel * half <= 1_761 * 5_000) by (nonlinear_arith)
        requires
            -30 <= rel <= 1_761,
            1 <= half <= 5_000,
    ;
    top + 4 * spacing - rel * half
}

/// Full staff position of the given note: coordinate, ledger-line hint and
/// stem-direction hint, a pure function of the note and the geometry.
pub fn staff_position(note: Note, top: i64, spacing: i64) -> (pos: StaffPos)
    requires
        valid_geometry(top as int, spacing as int),
    ensures
        pos.y == y_of(note, top as int, spacing as int),
        pos.ledger_line == (note == lowest_trainable()),
        pos.stem_down == stem_down_of(note, top as int, spacing as int),
{
    let y = note_to_y(note, top, spacing);
    StaffPos {
        y,
        ledger_line: needs_ledger_line(note),
        stem_down: y <= top + 2 * spacing,
    }
}

/// The mapping from note and geometry to staff position is deterministic:
/// equal inputs give equal coordinates and equal rendering hints.
pub proof fn lemma_position_deterministic(
    n1: Note,
    n2: Note,
    top1: int,
    top2: int,
    spacing1: int,
    spacing2: int,
)
    requires
        n1 == n2,
        top1 == top2,
        spacing1 == spacing2,
    ensures
        y_of(n1, top1, spacing1) == y_of(n2, top2, spacing2),
        stem_down_of(n1, top1, spacing1) == stem_down_of(n2, top2, spacing2),
{
}

/// Vertical position is strictly monotonic in pitch: of two distinct
/// trainable notes, the higher one is drawn strictly higher on the staff
/// (smaller y).
pub proof fn lemma_y_strictly_monotonic(n1: Note, n2: Note, top: int, spacing: int)
    requires
        is_trainable(n1),
        is_trainable(n2),
        steps_of(n1) > steps_of(n2),
        valid_geometry(top, spacing),
    ensures
        y_of(n1, top, spacing) < y_of(n2, top, spacing),
{
    let half = spacing / 2;
    let r1 = steps_of(n1) - steps_of(reference_note());
    let r2 = steps_of(n2) - steps_of(reference_note());
    assert(r1 * half > r2 * half) by (nonlinear_arith)
        requires
            r1 > r2,
            half >= 1,
    ;
}

/// The reference note maps to the bottom staff line, at exactly
/// `top + 4 * spacing`.
pub proof fn lemma_reference_position(top: int, spacing: int)
    ensures
        y_of(reference_note(), top, spacing) == top + 4 * spacing,
{
}

/// The ledger-line hint singles out exactly the lowest note of the trainable
/// set: it is true for a trainable note precisely when no trainable note
/// lies below it.
pub proof fn lemma_ledger_line_only_lowest(n: Note)
    requires
        is_trainable(n),
    ensures
        (n == lowest_trainable()) <==> (forall|m: Note|
            is_trainable(m) ==> steps_of(n) <= steps_of(m)),
{
    if n != lowest_trainable() {
        assert(is_trainable(lowest_trainable()));
        assert(steps_of(lowest_trainable()) < steps_of(n));
    }
}

} // verus!
