//! Questions and their answer options.
//!
//! A `Question` is session-scoped and ephemeral: it snapshots one card's
//! faces and score, and carries the distractor options drawn from the card's
//! pool siblings. Scores are mutated only through the scoring operations,
//! which write through to the card store and mirror the stored value.

use vstd::prelude::*;
use vstd::string::StringExecFns;

use crate::db::Card;
use crate::error::EngineError;
use crate::rng::shuffle_vec;

verus! {

/// One renderable face half: optional text and an optional image path.
/// Empty text or an empty path never occur here; absence is `None`.
#[derive(Debug)]
pub struct OptionPair(pub Option<String>, pub Option<String>);

/// The text carried by an optional string, `None` kept as `None`.
pub open spec fn opt_view(o: Option<String>) -> Option<Seq<char>> {
    match o {
        None => None,
        Some(s) => Some(s@),
    }
}

impl View for OptionPair {
    type V = (Option<Seq<char>>, Option<Seq<char>>);

    open spec fn view(&self) -> Self::V {
        (opt_view(self.0), opt_view(self.1))
    }
}

pub(crate) fn clone_opt_string(o: &Option<String>) -> (r: Option<String>)
    ensures
        r == *o,
{
    match o {
        None => None,
        Some(s) => Some(s.clone()),
    }
}

fn opt_string_eq(a: &Option<String>, b: &Option<String>) -> (r: bool)
    ensures
        r == (opt_view(*a) == opt_view(*b)),
{
    match (a, b) {
        (None, None) => true,
        (Some(x), Some(y)) => *x == *y,
        _ => false,
    }
}

impl Clone for OptionPair {
    fn clone(&self) -> (r: Self)
        ensures
            r == *self,
    {
        OptionPair(clone_opt_string(&self.0), clone_opt_string(&self.1))
    }
}

impl PartialEq for OptionPair {
    fn eq(&self, other: &Self) -> (r: bool) {
        opt_string_eq(&self.0, &other.0) && opt_string_eq(&self.1, &other.1)
    }
}

impl vstd::std_specs::cmp::PartialEqSpecImpl for OptionPair {
    open spec fn obeys_eq_spec() -> bool {
        true
    }

    open spec fn eq_spec(&self, other: &OptionPair) -> bool {
        self@ == other@
    }
}

impl From<(Option<String>, Option<String>)> for OptionPair {
    fn from(value: (Option<String>, Option<String>)) -> (r: Self) {
        OptionPair(value.0, value.1)
    }
}

impl vstd::std_specs::convert::FromSpecImpl<(Option<String>, Option<String>)> for OptionPair {
    open spec fn obeys_from_spec() -> bool {
        true
    }

    open spec fn from_spec(value: (Option<String>, Option<String>)) -> OptionPair {
        OptionPair(value.0, value.1)
    }
}

/// The contents of an optional text, or nothing.
pub open spec fn opt_or_empty(o: Option<Seq<char>>) -> Seq<char> {
    match o {
        None => Seq::empty(),
        Some(s) => s,
    }
}

/// How a pair renders: `(text, path)`, `(text)`, `(path)` or `()` — the
/// separator appears exactly when both halves are present.
pub open spec fn render_spec(p: OptionPair) -> Seq<char> {
    seq!['('] + opt_or_empty(p@.0) + (if p@.0 is Some && p@.1 is Some {
        seq![',', ' ']
    } else {
        Seq::<char>::empty()
    }) + opt_or_empty(p@.1) + seq![')']
}

impl OptionPair {
    /// The pair's display form.
    pub fn render(&self) -> (r: String)
        ensures
            r@ == render_spec(*self),
    {
        proof {
            reveal_strlit("(");
            reveal_strlit(", ");
            reveal_strlit(")");
        }
        let mut out = String::new();
        out.append("(");
        let both: bool = match (&self.0, &self.1) {
            (Some(_), Some(_)) => true,
            _ => false,
        };
        match &self.0 {
            Some(text) => out.append(text.as_str()),
            None => (),
        }
        if both {
            out.append(", ");
        }
        match &self.1 {
            Some(image) => out.append(image.as_str()),
            None => (),
        }
        out.append(")");
        proof {
            assert(("(")@ =~= seq!['(']);
            assert((", ")@ =~= seq![',', ' ']);
            assert((")")@ =~= seq![')']);
            assert(out@ =~= render_spec(*self));
        }
        out
    }
}

/// One built question: a card's id and score snapshot, its front, the
/// correct back, and the distractor options drawn from pool siblings.
#[derive(Debug)]
pub struct Question {
    pub card_id: i32,
    pub score: i32,
    pub front: OptionPair,
    pub correct_option: OptionPair,
    pub incorrect_options: Vec<OptionPair>,
}

impl Question {
    /// The full option list: the correct option first, then the distractors.
    pub open spec fn all_options_spec(&self) -> Seq<OptionPair> {
        seq![self.correct_option] + self.incorrect_options@
    }

    pub fn get_front_str(&self) -> (r: String)
        ensures
            r@ == render_spec(self.front),
    {
        self.front.render()
    }

    pub fn get_correct_str(&self) -> (r: String)
        ensures
            r@ == render_spec(self.correct_option),
    {
        self.correct_option.render()
    }

    pub fn get_incorrect_str(&self) -> (r: Vec<String>)
        ensures
            r@.len() == self.incorrect_options@.len(),
            forall|i: int|
                0 <= i < r@.len() ==> r@[i]@ == render_spec(self.incorrect_options@[i]),
    {
        let mut rendered: Vec<String> = Vec::new();
        let mut i: usize = 0;
        while i < self.incorrect_options.len()
            invariant
                i <= self.incorrect_options@.len(),
                rendered@.len() == i,
                forall|j: int|
                    0 <= j < i ==> rendered@[j]@ == render_spec(self.incorrect_options@[j]),
            decreases self.incorrect_options@.len() - i,
        {
            rendered.push(self.incorrect_options[i].render());
            i = i + 1;
        }
        rendered
    }

    pub fn get_all_options_tuple(&self) -> (r: Vec<OptionPair>)
        ensures
            r@ == self.all_options_spec(),
    {
        let mut options: Vec<OptionPair> = Vec::new();
        options.push(self.correct_option.clone());
        assert(options@ =~= seq![self.correct_option] + self.incorrect_options@.take(0));
        let mut i: usize = 0;
        while i < self.incorrect_options.len()
            invariant
                i <= self.incorrect_options@.len(),
                options@ == seq![self.correct_option] + self.incorrect_options@.take(i as int),
            decreases self.incorrect_options@.len() - i,
        {
            options.push(self.incorrect_options[i].clone());
            assert(options@ =~= seq![self.correct_option] + self.incorrect_options@.take(
                i + 1,
            ));
            i = i + 1;
        }
        assert(self.incorrect_options@.take(self.incorrect_options@.len() as int)
            =~= self.incorrect_options@);
        options
    }

    /// Shuffles the full option list uniformly at random and reports where
    /// the correct option ended up. Whatever permutation came out, the
    /// returned list holds exactly the original options, and the returned
    /// index points at an option whose contents are the correct one's.
    pub fn get_options_randomize(&self) -> (r: (Vec<OptionPair>, usize))
        ensures
            r.0@.to_multiset() == self.all_options_spec().to_multiset(),
            r.0@.len() == self.all_options_spec().len(),
            r.1 < r.0@.len(),
            r.0@[r.1 as int]@ == self.correct_option@,
    {
        broadcast use vstd::seq_lib::group_to_multiset_ensures;

        let mut options = self.get_all_options_tuple();
        shuffle_vec(&mut options);
        proof {
            assert(self.all_options_spec()[0] == self.correct_option);
            assert(self.all_options_spec().contains(self.correct_option));
            assert(options@.to_multiset().count(self.correct_option) > 0);
            assert(options@.contains(self.correct_option));
        }
        let mut idx: usize = 0;
        while idx < options.len()
            invariant_except_break
                idx <= options@.len(),
                exists|k: int|
                    idx <= k < options@.len() && options@[k]@ == self.correct_option@,
            ensures
                idx < options@.len(),
                options@[idx as int]@ == self.correct_option@,
            decreases options@.len() - idx,
        {
            if options[idx] == self.correct_option {
                break ;
            }
            proof {
                let k = choose|k: int|
                    idx <= k < options@.len() && options@[k]@ == self.correct_option@;
                assert(k >= idx + 1);
            }
            idx = idx + 1;
        }
        (options, idx)
    }

    fn set_score(&mut self, conn: &rusqlite::Connection, score: i32) -> (r: Result<
        i32,
        EngineError,
    >)
        ensures
            r is Ok ==> r->Ok_0 == score && final(self).score == score,
            r is Err ==> *final(self) == *old(self) && r->Err_0 == EngineError::StoreFailed,
            final(self).card_id == old(self).card_id,
            final(self).front == old(self).front,
            final(self).correct_option == old(self).correct_option,
            final(self).incorrect_options == old(self).incorrect_options,
    {
        match Card::change_score(conn, self.card_id, score) {
            Ok(written) => {
                self.score = written;
                Ok(written)
            },
            Err(_) => Err(EngineError::StoreFailed),
        }
    }

    /// Reads the card's persisted score from the store, 0 when it has none
    /// (the defaulting is `score_from_store`'s contract).
    pub fn get_score(&self, conn: &rusqlite::Connection) -> (r: Result<i32, EngineError>)
        ensures
            r is Err ==> r->Err_0 == EngineError::StoreFailed,
    {
        match Card::get_score(conn, self.card_id) {
            Ok(stored) => Ok(score_from_store(stored)),
            Err(err) => Err(err),
        }
    }

    /// One scoring step, given the score just read from the store: writes
    /// `current + 1` (up) or `current - 1` (down) through the store and
    /// mirrors the written value in the snapshot — one logical operation.
    /// A step that would leave the range of `i32` fails with
    /// `ScoreOutOfRange` before touching the store; only a failed store
    /// write is `StoreFailed`; on any failure the question is unchanged.
    pub fn step_score(
        &mut self,
        conn: &rusqlite::Connection,
        current: i32,
        up: bool,
    ) -> (r: Result<i32, EngineError>)
        ensures
            r is Ok ==> r->Ok_0 == (if up {
                current + 1
            } else {
                current - 1
            }),
            r is Ok ==> final(self).score == r->Ok_0,
            r is Err ==> *final(self) == *old(self),
            up && current == i32::MAX ==> r is Err && r->Err_0 == EngineError::ScoreOutOfRange,
            !up && current == i32::MIN ==> r is Err && r->Err_0 == EngineError::ScoreOutOfRange,
            (if up {
                current < i32::MAX
            } else {
                current > i32::MIN
            }) ==> (r is Err ==> r->Err_0 == EngineError::StoreFailed),
            final(self).card_id == old(self).card_id,
            final(self).front == old(self).front,
            final(self).correct_option == old(self).correct_option,
            final(self).incorrect_options == old(self).incorrect_options,
    {
        let next: i32 = if up {
            match current.checked_add(1) {
                Some(next) => next,
                None => {
                    return Err(EngineError::ScoreOutOfRange);
                },
            }
        } else {
            match current.checked_sub(1) {
                Some(next) => next,
                None => {
                    return Err(EngineError::ScoreOutOfRange);
                },
            }
        };
        self.set_score(conn, next)
    }

    /// Adds one to the card's persisted score: reads the current score and
    /// takes a `step_score` up, whose contract fixes the written and
    /// returned value as the read score plus one. On success the snapshot
    /// equals the value written and returned; on any failure the question
    /// is unchanged.
    pub fn increment_score(&mut self, conn: &rusqlite::Connection) -> (r: Result<
        i32,
        EngineError,
    >)
        ensures
            r is Ok ==> final(self).score == r->Ok_0,
            r is Err ==> *final(self) == *old(self) && (r->Err_0 == EngineError::StoreFailed
                || r->Err_0 == EngineError::ScoreOutOfRange),
            final(self).card_id == old(self).card_id,
            final(self).front == old(self).front,
            final(self).correct_option == old(self).correct_option,
            final(self).incorrect_options == old(self).incorrect_options,
    {
        let current: i32 = match self.get_score(conn) {
            Ok(score) => score,
            Err(err) => {
                return Err(err);
            },
        };
        self.step_score(conn, current, true)
    }

    /// Subtracts one from the card's persisted score: a `step_score` down;
    /// otherwise exactly as `increment_score`.
    pub fn decrement_score(&mut self, conn: &rusqlite::Connection) -> (r: Result<
        i32,
        EngineError,
    >)
        ensures
            r is Ok ==> final(self).score == r->Ok_0,
            r is Err ==> *final(self) == *old(self) && (r->Err_0 == EngineError::StoreFailed
                || r->Err_0 == EngineError::ScoreOutOfRange),
            final(self).card_id == old(self).card_id,
            final(self).front == old(self).front,
            final(self).correct_option == old(self).correct_option,
            final(self).incorrect_options == old(self).incorrect_options,
    {
        let current: i32 = match self.get_score(conn) {
            Ok(score) => score,
            Err(err) => {
                return Err(err);
            },
        };
        self.step_score(conn, current, false)
    }
}

/// The score a stored reading means: the value, or 0 when none is stored.
pub open spec fn stored_or_zero(stored: Option<i32>) -> i32 {
    match stored {
        Some(score) => score,
        None => 0,
    }
}

/// Turns the store's optional score into the score it means: a missing
/// score defaults to 0.
pub fn score_from_store(stored: Option<i32>) -> (r: i32)
    ensures
        r == stored_or_zero(stored),
{
    match stored {
        Some(score) => score,
        None => 0,
    }
}

/// Round trip of the scoring step: a successful upward step that read
/// `start` returns `start + 1`, and a downward step whose read observes
/// that write returns the score to `start` — `step_score`'s contract gives
/// both equalities. The premise that the second read sees the first write
/// is the store's to keep, not the engine's.
pub proof fn lemma_score_round_trip(start: i32, after_increment: int, after_decrement: int)
    requires
        after_increment == start + 1,
        after_decrement == after_increment - 1,
    ensures
        after_decrement == start,
{
}

} // verus!
