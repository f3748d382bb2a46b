//! Interpreting the user's one-line answer.
//!
//! The answer is `q` to quit, or a 1-based option number. Anything else —
//! including a number above the choice count — means the user does not know.
//! The number may carry a leading `+`, exactly as Rust's unsigned decimal
//! parsing accepts it.

use vstd::prelude::*;
use vstd::string::StrSliceExecFns;

verus! {

/// What the user's one-line answer means: a 0-based option index, an
/// admission of not knowing, or a request to quit the session early.
#[derive(Debug, PartialEq, Eq, Structural)]
pub enum Choice {
    Selected(usize),
    DontKnow,
    Quit,
}

/// A decimal digit.
pub open spec fn is_digit(c: char) -> bool {
    48 <= c as int <= 57
}

pub open spec fn all_digits(s: Seq<char>) -> bool {
    forall|i: int| 0 <= i < s.len() ==> is_digit(#[trigger] s[i])
}

/// The number a digit string denotes, most significant digit first.
pub open spec fn digits_value(s: Seq<char>) -> int
    decreases s.len(),
{
    if s.len() == 0 {
        0
    } else {
        digits_value(s.drop_last()) * 10 + (s.last() as int - 48)
    }
}

proof fn lemma_digits_value_nonneg(s: Seq<char>)
    requires
        all_digits(s),
    ensures
        digits_value(s) >= 0,
    decreases s.len(),
{
    if s.len() > 0 {
        lemma_digits_value_nonneg(s.drop_last());
    }
}

proof fn lemma_digits_value_prefix_le(s: Seq<char>, k: int)
    requires
        all_digits(s),
        0 <= k <= s.len(),
    ensures
        digits_value(s.take(k)) <= digits_value(s),
    decreases s.len() - k,
{
    if k == s.len() {
        assert(s.take(k) =~= s);
    } else {
        assert(s.take(k + 1).drop_last() =~= s.take(k));
        assert(all_digits(s.take(k))) by {
            assert(forall|i: int| 0 <= i < k ==> s.take(k)[i] == s[i]);
        }
        lemma_digits_value_nonneg(s.take(k));
        assert(digits_value(s.take(k + 1)) >= digits_value(s.take(k)));
        lemma_digits_value_prefix_le(s, k + 1);
    }
}

/// The digit part of the answer: everything after an optional leading `+`.
pub open spec fn digit_part(s: Seq<char>) -> Seq<char> {
    if s.len() > 0 && s[0] == '+' {
        s.drop_first()
    } else {
        s
    }
}

/// The number an answer line carries, if any: the value of the decimal
/// digits after an optional leading `+`, when there is at least one digit,
/// nothing else, and the value fits a `usize`.
pub open spec fn answer_value_spec(s: Seq<char>) -> Option<usize> {
    let digits = digit_part(s);
    if digits.len() > 0 && all_digits(digits) && digits_value(digits) <= usize::MAX {
        Some(digits_value(digits) as usize)
    } else {
        None
    }
}

/// What an answer line means for a session with `choices_count` options.
pub open spec fn choice_spec(s: Seq<char>, choices_count: u32) -> Choice {
    if s == seq!['q'] {
        Choice::Quit
    } else {
        match answer_value_spec(s) {
            Some(v) => if 1 <= v <= choices_count {
                Choice::Selected((v - 1) as usize)
            } else {
                Choice::DontKnow
            },
            None => Choice::DontKnow,
        }
    }
}

/// Reads the number an answer line carries: `None` for the empty line, a
/// stray character, or a value past `usize`.
pub fn answer_value(input: &str) -> (r: Option<usize>)
    ensures
        r == answer_value_spec(input@),
{
    let n: usize = input.unicode_len();
    let start: usize = if n > 0 && input.get_char(0) == '+' {
        1
    } else {
        0
    };
    proof {
        assert(digit_part(input@) =~= input@.subrange(start as int, n as int));
    }
    if start >= n {
        return None;
    }
    let ghost digits = input@.subrange(start as int, n as int);
    let mut value: usize = 0;
    let mut i: usize = start;
    proof {
        assert(digits.take(0) =~= Seq::<char>::empty());
    }
    while i < n
        invariant
            start <= i <= n,
            start < n,
            n == input@.len(),
            digits == input@.subrange(start as int, n as int),
            digits == digit_part(input@),
            digits.len() == n - start,
            all_digits(digits.take(i - start)),
            value == digits_value(digits.take(i - start)),
        decreases n - i,
    {
        let c: char = input.get_char(i);
        let code: u32 = c as u32;
        if code < 48 || code > 57 {
            assert(!is_digit(digits[i - start]));
            return None;
        }
        let d: usize = (code - 48) as usize;
        proof {
            assert(digits.take(i - start + 1).drop_last() =~= digits.take(i - start));
            assert(digits.take(i - start + 1).last() == digits[i - start]);
        }
        let mut overflow: bool = false;
        let mut next: usize = 0;
        match value.checked_mul(10) {
            Some(v10) => match v10.checked_add(d) {
                Some(v) => {
                    next = v;
                },
                None => {
                    overflow = true;
                },
            },
            None => {
                overflow = true;
            },
        }
        if overflow {
            proof {
                lemma_digits_value_nonneg(digits.take(i - start));
                assert(digits_value(digits.take(i - start + 1)) > usize::MAX);
                assert(all_digits(digits.take(i - start + 1)));
                if all_digits(digits) {
                    lemma_digits_value_prefix_le(digits, i - start + 1);
                }
            }
            return None;
        }
        value = next;
        i = i + 1;
    }
    proof {
        assert(digits.take(n - start) =~= digits);
    }
    Some(value)
}

/// What one answer does to the session: the chosen option was the correct
/// one (score the card up), it was wrong or the user did not know (score
/// it down), or the session ends now — quit is terminal, and the remaining
/// questions are abandoned, not scored.
#[derive(Debug, PartialEq, Eq, Structural)]
pub enum AnswerAction {
    ScoreUp,
    ScoreDown,
    EndSession,
}

/// The session's move for an answer, against the correct option's index.
pub open spec fn action_spec(choice: Choice, correct_idx: usize) -> AnswerAction {
    match choice {
        Choice::Selected(n) => if n == correct_idx {
            AnswerAction::ScoreUp
        } else {
            AnswerAction::ScoreDown
        },
        Choice::DontKnow => AnswerAction::ScoreDown,
        Choice::Quit => AnswerAction::EndSession,
    }
}

impl Choice {
    /// Parses one answer line: `q` quits; a decimal number from 1 to
    /// `choices_count` selects that option; everything else — the empty
    /// line, other text, 0, or a number past the available options — is
    /// `DontKnow`.
    pub fn from_str(choices_count: u32, input: &str) -> (r: Choice)
        ensures
            r == choice_spec(input@, choices_count),
    {
        let n: usize = input.unicode_len();
        if n == 1 && input.get_char(0) == 'q' {
            proof {
                assert(input@ =~= seq!['q']);
            }
            return Choice::Quit;
        }
        match answer_value(input) {
            Some(v) => {
                if v == 0 {
                    return Choice::DontKnow;
                }
                let limit: usize = choices_count as usize;
                if v > limit {
                    return Choice::DontKnow;
                }
                Choice::Selected(v - 1)
            },
            None => Choice::DontKnow,
        }
    }

    /// The move this answer asks of the session, given where the correct
    /// option sits in the shuffled list.
    pub fn action(&self, correct_idx: usize) -> (r: AnswerAction)
        ensures
            r == action_spec(*self, correct_idx),
    {
        match self {
            Choice::Selected(n) => if *n == correct_idx {
                AnswerAction::ScoreUp
            } else {
                AnswerAction::ScoreDown
            },
            Choice::DontKnow => AnswerAction::ScoreDown,
            Choice::Quit => AnswerAction::EndSession,
        }
    }
}

} // verus!
