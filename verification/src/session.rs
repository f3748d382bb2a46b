//! Per-question presentation state for one run of the session.

use vstd::prelude::*;

use crate::shitsumon::OptionPair;
use crate::shitsumon::Question;

verus! {

/// One question as the presentation layer consumes it: the front to show,
/// the shuffled options, and where the correct one ended up.
#[derive(Debug)]
pub struct QuestionState {
    pub question: OptionPair,
    pub options: Vec<OptionPair>,
    pub correct_idx: usize,
}

impl QuestionState {
    /// Builds the presentation state of every question, in order. Each entry
    /// shows its question's front, offers exactly that question's options
    /// (shuffled), and its `correct_idx` points at an option whose contents
    /// are the correct one's.
    pub fn from_questions(from: Vec<Question>) -> (r: Vec<QuestionState>)
        ensures
            r@.len() == from@.len(),
            forall|i: int| #![trigger r@[i]]
                0 <= i < r@.len() ==> {
                    &&& r@[i].question == from@[i].front
                    &&& r@[i].options@.to_multiset() == from@[i].all_options_spec().to_multiset()
                    &&& r@[i].correct_idx < r@[i].options@.len()
                    &&& r@[i].options@[r@[i].correct_idx as int]@ == from@[i].correct_option@
                },
    {
        let mut states: Vec<QuestionState> = Vec::new();
        let mut i: usize = 0;
        while i < from.len()
            invariant
                i <= from@.len(),
                states@.len() == i,
                forall|j: int| #![trigger states@[j]]
                    0 <= j < i ==> {
                        &&& states@[j].question == from@[j].front
                        &&& states@[j].options@.to_multiset()
                            == from@[j].all_options_spec().to_multiset()
                        &&& states@[j].correct_idx < states@[j].options@.len()
                        &&& states@[j].options@[states@[j].correct_idx as int]@
                            == from@[j].correct_option@
                    },
            decreases from@.len() - i,
        {
            let question = &from[i];
            let (options, correct_idx) = question.get_options_randomize();
            states.push(
                QuestionState { question: question.front.clone(), options, correct_idx },
            );
            i = i + 1;
        }
        states
    }
}

} // verus!
