//! The round state machine: one live round at a time, holding the target
//! note, the last judgment, and the timestamp that drives the automatic
//! advance after a correct answer.
//!
//! Time enters as plain milliseconds supplied by the caller's frame loop;
//! pitch events enter as plain identifiers drained from the input queue in
//! arrival order.

use vstd::prelude::*;
use rand::Rng;
use crate::staff::{Letter, Note, is_trainable, letter_index, midi_of};

verus! {

/// How long a correct judgment stays on screen before a new round starts,
/// in milliseconds.
pub const ADVANCE_DELAY_MS: u64 = 500;

/// The judgment recorded for the current round.
#[derive(Clone, Copy, Debug, PartialEq, Eq, Structural)]
pub enum JudgeResult {
    /// No pitch event has been judged since the round started.
    Unset,
    /// The last pitch event matched the target note.
    Correct,
    /// The last pitch event did not match the target note.
    Incorrect,
}

/// The live round: the target note, the last judgment, and the time at which
/// a correct judgment was recorded, if one is pending advance.
#[derive(Clone, Copy, Debug)]
pub struct GameState {
    pub current_note: Note,
    pub result: JudgeResult,
    pub correct_answer_time: Option<u64>,
}

/// A round is well formed when its target note lies in the trainable set.
pub open spec fn wf(s: GameState) -> bool {
    is_trainable(s.current_note)
}

/// What judging one pitch event does to a round: a matching identifier
/// records a correct judgment and the current time; any other identifier
/// records an incorrect judgment and leaves the timestamp untouched. The
/// target note never changes.
pub open spec fn judged(s: GameState, id: u8, now: u64) -> GameState {
    if id == midi_of(s.current_note) {
        GameState { result: JudgeResult::Correct, correct_answer_time: Some(now), ..s }
    } else {
        GameState { result: JudgeResult::Incorrect, ..s }
    }
}

/// Judging a whole queue of pitch events, in arrival order.
pub open spec fn judged_all(s: GameState, ids: Seq<u8>, now: u64) -> GameState
    decreases ids.len(),
{
    if ids.len() == 0 {
        s
    } else {
        judged(judged_all(s, ids.drop_last(), now), ids.last(), now)
    }
}

/// Judging any queue of events leaves the target note unchanged.
pub proof fn lemma_judged_all_keeps_note(s: GameState, ids: Seq<u8>, now: u64)
    ensures
        judged_all(s, ids, now).current_note == s.current_note,
    decreases ids.len(),
{
    if ids.len() > 0 {
        lemma_judged_all_keeps_note(s, ids.drop_last(), now);
    }
}

/// The trainable note with the given letter index, in pitch order.
pub fn trainable_note(i: u64) -> (n: Note)
    requires
        i < 7,
    ensures
        is_trainable(n),
        letter_index(n.letter) == i as int,
{
    let letter = if i == 0 {
        Letter::C
    } else if i == 1 {
        Letter::D
    } else if i == 2 {
        Letter::E
    } else if i == 3 {
        Letter::F
    } else if i == 4 {
        Letter::G
    } else if i == 5 {
        Letter::A
    } else {
        Letter::H
    };
    Note { letter, octave: 4 }
}

/// Relies on rand::Rng::gen_range on the integer range `0..n`: it panics
/// only on an empty range, and otherwise returns a value drawn uniformly
/// from within the range.
#[verifier::external_body]
fn random_index_below(n: u64) -> (r: u64)
    requires
        n > 0,
    ensures
        r < n,
{
    rand::thread_rng().gen_range(0..n)
}

impl GameState {
    /// The pitch identifier the current target note expects.
    pub fn expected_midi_note(&self) -> (r: u8)
        ensures
            r == midi_of(self.current_note),
    {
        crate::staff::note_to_midi(self.current_note)
    }

    /// Starts a new round: draws a target note uniformly at random from the
    /// seven trainable notes, clears the judgment and the timestamp.
    pub fn generate_new_note(&mut self)
        ensures
            wf(*final(self)),
            final(self).result is Unset,
            final(self).correct_answer_time is None,
    {
        let idx = random_index_below(7);
        self.current_note = trainable_note(idx);
        self.result = JudgeResult::Unset;
        self.correct_answer_time = None;
    }

    /// Judges one pitch event against the current target note. A matching
    /// identifier always records a correct judgment with the given time;
    /// any other identifier — including one outside the trainable table —
    /// always records an incorrect judgment, touching neither the target
    /// note nor the timestamp.
    pub fn on_pitch_event(&mut self, id: u8, now: u64)
        ensures
            *final(self) == judged(*old(self), id, now),
            final(self).current_note == old(self).current_note,
            id == midi_of(old(self).current_note) ==> final(self).result is Correct
                && final(self).correct_answer_time == Some(now),
            id != midi_of(old(self).current_note) ==> final(self).result is Incorrect
                && final(self).correct_answer_time == old(self).correct_answer_time,
    {
        let expected = self.expected_midi_note();
        if id == expected {
            self.result = JudgeResult::Correct;
            self.correct_answer_time = Some(now);
        } else {
            self.result = JudgeResult::Incorrect;
        }
    }

    /// Judges a queue of pitch events in arrival order, keeping only the
    /// most recent judgment. The target note is unchanged.
    pub fn process_events(&mut self, events: &Vec<u8>, now: u64)
        ensures
            *final(self) == judged_all(*old(self), events@, now),
            final(self).current_note == old(self).current_note,
    {
        let ghost start: GameState = *self;
        let n = events.len();
        let mut i: usize = 0;
        while i < n
            invariant
                i <= n,
                n == events@.len(),
                *self == judged_all(start, events@.subrange(0, i as int), now),
            decreases n - i,
        {
            self.on_pitch_event(events[i], now);
            proof {
                let pre = events@.subrange(0, i as int);
                let post = events@.subrange(0, i + 1 as int);
                assert(post.drop_last() =~= pre);
                assert(post.last() == events@[i as int]);
            }
            i = i + 1;
        }
        proof {
            assert(events@.subrange(0, n as int) =~= events@);
            lemma_judged_all_keeps_note(start, events@, now);
        }
    }

    /// Advances the round if a correct answer is pending and the delay has
    /// elapsed: exactly then a fresh round starts (judgment unset, timestamp
    /// cleared, a new trainable target drawn). In every other case — no
    /// pending correct answer, or the delay not yet elapsed — the round is
    /// left completely unchanged, so repeated ticks before the delay do
    /// nothing.
    pub fn on_tick(&mut self, now: u64)
        ensures
            (match old(self).correct_answer_time {
                Some(t) => t <= now && now - t >= ADVANCE_DELAY_MS,
                None => false,
            }) ==> final(self).result is Unset
                && final(self).correct_answer_time is None
                && wf(*final(self)),
            !(match old(self).correct_answer_time {
                Some(t) => t <= now && now - t >= ADVANCE_DELAY_MS,
                None => false,
            }) ==> *final(self) == *old(self),
    {
        match self.correct_answer_time {
            Some(t) => {
                if t <= now && now - t >= ADVANCE_DELAY_MS {
                    self.generate_new_note();
                }
            },
            None => {},
        }
    }
}

impl Default for GameState {
    /// The initial state: a fresh round with a random trainable target.
    fn default() -> (gs: GameState)
        ensures
            wf(gs),
            gs.result is Unset,
            gs.correct_answer_time is None,
    {
        let mut gs = GameState {
            current_note: Note { letter: Letter::C, octave: 4 },
            result: JudgeResult::Unset,
            correct_answer_time: None,
        };
        gs.generate_new_note();
        gs
    }
}

/// Decodes one raw input message: a note-on message (high status nibble
/// `0x9`) of at least two bytes yields the pitch identifier in its second
/// byte; anything else yields nothing.
pub open spec fn note_on_of(message: Seq<u8>) -> Option<u8> {
    if message.len() > 1 && message[0] & 0xF0 == 0x90 {
        Some(message[1])
    } else {
        None
    }
}

/// Extracts the pitch identifier from a raw note-on message, if it is one.
pub fn decode_note_on(message: &[u8]) -> (r: Option<u8>)
    ensures
        r == note_on_of(message@),
{
    if message.len() > 1 {
        let status = message[0];
        if status & 0xF0 == 0x90 {
            return Some(message[1]);
        }
    }
    None
}

} // verus!
