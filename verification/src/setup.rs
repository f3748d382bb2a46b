//! Session setup: picking a category, sampling cards across its pools, and
//! building the question list.
//!
//! The sampler draws a uniformly random pool (with replacement), fetches and
//! shuffles its cards, and appends them, trimming the last pool's
//! contribution so the target count is never exceeded. The builder turns
//! each sampled card into a question whose distractors are the shuffled
//! back faces of the card's pool siblings.

use vstd::prelude::*;

use crate::db::Card;
use crate::db::Category;
use crate::db::Pool;
use crate::error::EngineError;
use crate::rng::pick_random;
use crate::rng::shuffle_vec;
use crate::shitsumon::OptionPair;
use crate::shitsumon::Question;

verus! {

/// How many pool draws in a row may yield no card before the sampler gives
/// up. Pools are assumed non-trivially populated, so a run this long of
/// empty draws is read as a category whose pools hold no cards at all.
pub const EMPTY_DRAW_LIMIT: usize = 64;

/// A card's stored score, 0 when it has none.
pub open spec fn score_or_zero(c: Card) -> i32 {
    crate::shitsumon::stored_or_zero(c.score)
}

/// The option pair a card's front renders to: empty halves become absent.
pub open spec fn spec_front_pair(c: Card) -> OptionPair {
    OptionPair(
        (if c.front@.len() == 0 {
            None
        } else {
            Some(c.front)
        }),
        (if c.front_image@.len() == 0 {
            None
        } else {
            Some(c.front_image)
        }),
    )
}

/// The option pair a card's back renders to: empty halves become absent.
pub open spec fn spec_back_pair(c: Card) -> OptionPair {
    OptionPair(
        (if c.back@.len() == 0 {
            None
        } else {
            Some(c.back)
        }),
        (if c.back_image@.len() == 0 {
            None
        } else {
            Some(c.back_image)
        }),
    )
}

/// Builds one face pair, normalizing empty text and an empty path to absent.
fn card_face_pair(text: String, image: String) -> (r: OptionPair)
    ensures
        r == OptionPair(
            (if text@.len() == 0 {
                None
            } else {
                Some(text)
            }),
            (if image@.len() == 0 {
                None
            } else {
                Some(image)
            }),
        ),
{
    let text_empty: bool = text.as_str().is_empty();
    let image_empty: bool = image.as_str().is_empty();
    let text_half: Option<String> = if text_empty {
        None
    } else {
        Some(text)
    };
    let image_half: Option<String> = if image_empty {
        None
    } else {
        Some(image)
    };
    OptionPair(text_half, image_half)
}

/// The back-face options of every pool card other than the card itself,
/// in pool order.
pub open spec fn sibling_backs(pool_cards: Seq<Card>, self_id: i32) -> Seq<OptionPair>
    decreases pool_cards.len(),
{
    if pool_cards.len() == 0 {
        Seq::empty()
    } else {
        let rest = sibling_backs(pool_cards.drop_last(), self_id);
        if pool_cards.last().id != Some(self_id) {
            rest.push(spec_back_pair(pool_cards.last()))
        } else {
            rest
        }
    }
}

/// Turns a pool's card list into distractor material: drops the card itself
/// (matched by id) and keeps every sibling's back face, in pool order.
pub fn sibling_back_options(pool_cards: &Vec<Card>, self_id: i32) -> (r: Vec<OptionPair>)
    ensures
        r@ == sibling_backs(pool_cards@, self_id),
{
    let mut siblings: Vec<OptionPair> = Vec::new();
    proof {
        assert(pool_cards@.take(0) =~= Seq::<Card>::empty());
    }
    let mut i: usize = 0;
    while i < pool_cards.len()
        invariant
            i <= pool_cards@.len(),
            siblings@ == sibling_backs(pool_cards@.take(i as int), self_id),
        decreases pool_cards@.len() - i,
    {
        let card = &pool_cards[i];
        let keep: bool = match card.id {
            Some(id) => id != self_id,
            None => true,
        };
        if keep {
            siblings.push(card_face_pair(card.back.clone(), card.back_image.clone()));
        }
        proof {
            assert(pool_cards@.take(i + 1).drop_last() =~= pool_cards@.take(i as int));
            assert(pool_cards@.take(i + 1).last() == pool_cards@[i as int]);
        }
        i = i + 1;
    }
    proof {
        assert(pool_cards@.take(pool_cards@.len() as int) =~= pool_cards@);
    }
    siblings
}

/// Builds one question from a card and the already-shuffled sibling backs.
/// The distractor list is the first `choices_count - 1` siblings; when the
/// pool is too small every available sibling is used — a degraded question,
/// not a failure.
pub fn make_question(card: &Card, siblings: Vec<OptionPair>, choices_count: u32) -> (q: Question)
    requires
        card.id is Some,
        choices_count >= 2,
    ensures
        q.card_id == card.id.unwrap(),
        q.score == score_or_zero(*card),
        q.front == spec_front_pair(*card),
        q.correct_option == spec_back_pair(*card),
        q.incorrect_options@ == (if siblings@.len() < choices_count - 1 {
            siblings@
        } else {
            siblings@.take(choices_count - 1)
        }),
        q.incorrect_options@.len() == vstd::math::min(
            choices_count - 1,
            siblings@.len() as int,
        ),
{
    let incorrect_count: usize = (choices_count - 1) as usize;
    let mut incorrect = siblings;
    incorrect.truncate(incorrect_count);
    let score: i32 = match card.score {
        Some(score) => score,
        None => 0,
    };
    Question {
        card_id: card.id.unwrap(),
        score,
        front: card_face_pair(card.front.clone(), card.front_image.clone()),
        correct_option: card_face_pair(card.back.clone(), card.back_image.clone()),
        incorrect_options: incorrect,
    }
}

/// A sampled card can seed a question only when it carries both an id and a
/// pool id.
pub open spec fn usable(c: Card) -> bool {
    c.id is Some && c.pool_id is Some
}

/// How many of the sampled cards are usable for question-building.
pub open spec fn usable_count(cards: Seq<Card>) -> int
    decreases cards.len(),
{
    if cards.len() == 0 {
        0
    } else {
        usable_count(cards.drop_last()) + if usable(cards.last()) {
            1int
        } else {
            0int
        }
    }
}

proof fn lemma_usable_count_take_step(cards: Seq<Card>, i: int)
    requires
        0 <= i < cards.len(),
    ensures
        usable_count(cards.take(i + 1)) == usable_count(cards.take(i)) + if usable(cards[i]) {
            1int
        } else {
            0int
        },
        usable(cards[i]) ==> usable_ids(cards.take(i + 1)) == usable_ids(cards.take(i)).push(
            cards[i].id.unwrap(),
        ),
        !usable(cards[i]) ==> usable_ids(cards.take(i + 1)) == usable_ids(cards.take(i)),
{
    assert(cards.take(i + 1).drop_last() =~= cards.take(i));
    assert(cards.take(i + 1).last() == cards[i]);
}

/// The question carries this card's id and snapshots its score and faces.
pub open spec fn question_of_card(q: Question, c: Card) -> bool {
    &&& c.id == Some(q.card_id)
    &&& c.pool_id is Some
    &&& q.score == score_or_zero(c)
    &&& q.front == spec_front_pair(c)
    &&& q.correct_option == spec_back_pair(c)
}

/// The question was built from one of the given cards.
pub open spec fn question_from(q: Question, cards: Seq<Card>) -> bool {
    exists|j: int| 0 <= j < cards.len() && question_of_card(q, cards[j])
}

/// `xs` is `ys` with zero or more elements left out, order kept.
pub open spec fn subsequence_of<A>(xs: Seq<A>, ys: Seq<A>) -> bool
    decreases ys.len(), xs.len(),
{
    if xs.len() == 0 {
        true
    } else if ys.len() == 0 {
        false
    } else {
        (xs.last() == ys.last() && subsequence_of(xs.drop_last(), ys.drop_last()))
            || subsequence_of(xs, ys.drop_last())
    }
}

proof fn lemma_subsequence_extend_right<A>(xs: Seq<A>, ys: Seq<A>, y: A)
    requires
        subsequence_of(xs, ys),
    ensures
        subsequence_of(xs, ys.push(y)),
{
    assert(ys.push(y).drop_last() =~= ys);
}

proof fn lemma_subsequence_extend_both<A>(xs: Seq<A>, ys: Seq<A>, v: A)
    requires
        subsequence_of(xs, ys),
    ensures
        subsequence_of(xs.push(v), ys.push(v)),
{
    assert(xs.push(v).drop_last() =~= xs);
    assert(ys.push(v).drop_last() =~= ys);
}

/// The card ids of the built questions, in order.
pub open spec fn question_ids(questions: Seq<Question>) -> Seq<i32> {
    questions.map_values(|q: Question| q.card_id)
}

/// The ids of the cards that are usable for question-building, in order.
pub open spec fn usable_ids(cards: Seq<Card>) -> Seq<i32>
    decreases cards.len(),
{
    if cards.len() == 0 {
        Seq::empty()
    } else {
        let rest = usable_ids(cards.drop_last());
        if usable(cards.last()) {
            rest.push(cards.last().id.unwrap())
        } else {
            rest
        }
    }
}

/// Builds the session's question list from the sampled cards, in order.
///
/// A card missing its id or pool id is skipped, as is a card whose pool
/// cannot be read from the store; both are recoverable, so the batch never
/// fails. Pool card lists are fetched through a single-slot cache keyed by
/// pool id, which is refreshed whenever the current card's pool differs
/// from the cached one — sampled cards are typically contiguous per pool.
pub fn init_questions(conn: &rusqlite::Connection, cards: Vec<Card>, choices_count: u32) -> (r:
    Vec<Question>)
    requires
        choices_count >= 2,
    ensures
        r@.len() <= usable_count(cards@),
        r@.len() <= cards@.len(),
        subsequence_of(question_ids(r@), usable_ids(cards@)),
        forall|i: int| #![trigger r@[i]]
            0 <= i < r@.len() ==> r@[i].incorrect_options@.len() < choices_count,
        forall|i: int| #![trigger r@[i]]
            0 <= i < r@.len() ==> question_from(r@[i], cards@),
{
    let mut questions: Vec<Question> = Vec::new();
    let mut cache: Option<(i32, Vec<Card>)> = None;
    proof {
        assert(cards@.take(0) =~= Seq::<Card>::empty());
    }
    let mut idx: usize = 0;
    while idx < cards.len()
        invariant
            choices_count >= 2,
            idx <= cards@.len(),
            questions@.len() <= usable_count(cards@.take(idx as int)),
            questions@.len() <= idx,
            subsequence_of(question_ids(questions@), usable_ids(cards@.take(idx as int))),
            forall|i: int| #![trigger questions@[i]]
                0 <= i < questions@.len() ==> questions@[i].incorrect_options@.len()
                    < choices_count,
            forall|i: int| #![trigger questions@[i]]
                0 <= i < questions@.len() ==> question_from(questions@[i], cards@),
        decreases cards@.len() - idx,
    {
        proof {
            lemma_usable_count_take_step(cards@, idx as int);
        }
        let card = &cards[idx];
        let card_id: i32 = match card.id {
            Some(id) => id,
            None => {
                idx = idx + 1;
                continue ;
            },
        };
        let pool_id: i32 = match card.pool_id {
            Some(pool_id) => pool_id,
            None => {
                idx = idx + 1;
                continue ;
            },
        };
        let need_fetch: bool = match &cache {
            None => true,
            Some((cached_id, _)) => *cached_id != pool_id,
        };
        if need_fetch {
            cache = match Card::get_in_pool(conn, pool_id) {
                Ok(pool_cards) => Some((pool_id, pool_cards)),
                Err(_) => None,
            };
        }
        match &cache {
            Some((_, pool_cards)) => {
                let mut siblings = sibling_back_options(pool_cards, card_id);
                shuffle_vec(&mut siblings);
                let question = make_question(card, siblings, choices_count);
                proof {
                    assert(question_of_card(question, cards@[idx as int]));
                    lemma_subsequence_extend_both(
                        question_ids(questions@),
                        usable_ids(cards@.take(idx as int)),
                        question.card_id,
                    );
                    assert(question_ids(questions@.push(question)) =~= question_ids(
                        questions@,
                    ).push(question.card_id));
                }
                questions.push(question);
            },
            None => {
                proof {
                    lemma_subsequence_extend_right(
                        question_ids(questions@),
                        usable_ids(cards@.take(idx as int)),
                        cards@[idx as int].id.unwrap(),
                    );
                }
            },
        }
        idx = idx + 1;
    }
    proof {
        assert(cards@.take(cards@.len() as int) =~= cards@);
    }
    questions
}

/// A uniformly random pool of the category, `None` when the category has no
/// pools or the pool list cannot be read. A returned pool bears the
/// requested category's name — a fetched row under another or no name
/// counts as not found. Which pool of the fetched list comes back is the
/// draw's choice (`pick_random`'s contract); uniformity itself is not
/// expressible in contracts.
pub(crate) fn rand_pool(conn: &rusqlite::Connection, category: &Category) -> (r: Option<Pool>)
    ensures
        match r {
            Some(pool) => match pool.category_name {
                Some(name) => name@ == category.name@,
                None => false,
            },
            None => true,
        },
{
    let picked: Option<Pool> = match Pool::get_all_in_category(conn, category.name.as_str()) {
        Ok(pools) => pick_random(pools),
        Err(_) => None,
    };
    match picked {
        Some(pool) => {
            let name_matches: bool = match &pool.category_name {
                Some(name) => *name == category.name,
                None => false,
            };
            if name_matches {
                Some(pool)
            } else {
                None
            }
        },
        None => None,
    }
}

/// A uniformly random category, `None` when none exist or the category list
/// cannot be read. No clause is stated of the result: the fetched list is
/// every category the store holds and stays internal, the pick is random
/// (`pick_random`'s element-of clause cannot cross this boundary), and
/// uniformity is not expressible in contracts.
pub(crate) fn rand_category(conn: &rusqlite::Connection) -> (r: Option<Category>) {
    match Category::get_all(conn) {
        Ok(categories) => pick_random(categories),
        Err(_) => None,
    }
}

/// The category to review: the named one when a name was given, otherwise a
/// uniformly random one. A returned category bears the requested name; a
/// store row under a different name counts as not found. `None` means no
/// category could be found — the session cannot start.
pub fn category(conn: &rusqlite::Connection, selected: Option<&str>) -> (r: Option<Category>)
    ensures
        match (selected, r) {
            (Some(name), Some(found)) => found.name@ == name@,
            _ => true,
        },
{
    match selected {
        Some(choice) => match Category::get_one(conn, choice) {
            Ok(found) => {
                let requested: String = choice.to_owned();
                if found.name == requested {
                    Some(found)
                } else {
                    None
                }
            },
            Err(_) => None,
        },
        None => rand_category(conn),
    }
}

proof fn lemma_shuffle_keeps_pool_ids(before: Seq<Card>, after: Seq<Card>)
    requires
        before.to_multiset() == after.to_multiset(),
        forall|i: int| 0 <= i < before.len() ==> (#[trigger] before[i]).pool_id is Some,
    ensures
        forall|i: int| 0 <= i < after.len() ==> (#[trigger] after[i]).pool_id is Some,
{
    broadcast use vstd::seq_lib::group_to_multiset_ensures;

    assert forall|i: int| 0 <= i < after.len() implies (#[trigger] after[i]).pool_id
        is Some by {
        assert(after.contains(after[i]));
        assert(before.to_multiset().count(after[i]) > 0);
        assert(before.contains(after[i]));
        let j = choose|j: int| 0 <= j < before.len() && before[j] == after[i];
    };
}

/// Samples the session's working set of cards for a category.
///
/// Repeatedly draws a uniformly random pool (the same pool may be drawn
/// again), fetches and shuffles its cards, and appends them, trimming the
/// last pool's contribution so the result never exceeds the target; on
/// success the result holds exactly `question_count` cards, each bearing
/// the pool it was fetched from. A category without pools is fatal
/// (`NoPools`); a run of `EMPTY_DRAW_LIMIT` draws that yield no card gives
/// up with `NoCards`.
pub fn get_question_cards(
    conn: &rusqlite::Connection,
    question_count: u32,
    category: Category,
) -> (r: Result<Vec<Card>, EngineError>)
    ensures
        r is Ok ==> r->Ok_0@.len() == question_count,
        r matches Ok(cards) ==> forall|i: int| #![trigger cards@[i]]
            0 <= i < cards@.len() ==> cards@[i].pool_id is Some,
        r is Err ==> r->Err_0 == EngineError::NoPools || r->Err_0 == EngineError::NoCards,
{
    let target: usize = question_count as usize;
    let mut cards: Vec<Card> = Vec::new();
    let mut fruitless: usize = 0;
    while cards.len() < target
        invariant
            cards@.len() <= target,
            target == question_count,
            fruitless < EMPTY_DRAW_LIMIT,
            forall|i: int| #![trigger cards@[i]]
                0 <= i < cards@.len() ==> cards@[i].pool_id is Some,
        decreases target - cards@.len(), EMPTY_DRAW_LIMIT - fruitless,
    {
        let pool = match rand_pool(conn, &category) {
            Some(pool) => pool,
            None => {
                return Err(EngineError::NoPools);
            },
        };
        let mut pool_cards: Vec<Card> = match Card::get_in_pool(conn, pool.id) {
            Ok(pool_cards) => pool_cards,
            Err(_) => Vec::new(),
        };
        assert(forall|i: int| #![trigger pool_cards@[i]]
            0 <= i < pool_cards@.len() ==> pool_cards@[i].pool_id is Some);
        let ghost fetched = pool_cards@;
        shuffle_vec(&mut pool_cards);
        proof {
            lemma_shuffle_keeps_pool_ids(fetched, pool_cards@);
        }
        if pool_cards.len() == 0 {
            if fruitless + 1 == EMPTY_DRAW_LIMIT {
                return Err(EngineError::NoCards);
            }
            fruitless = fruitless + 1;
        } else {
            fruitless = 0;
            let room: usize = target - cards.len();
            if pool_cards.len() > room {
                pool_cards.truncate(room);
            }
            let ghost kept = cards@;
            cards.append(&mut pool_cards);
            assert(forall|i: int| #![trigger cards@[i]]
                0 <= i < cards@.len() ==> cards@[i].pool_id is Some) by {
                assert(forall|i: int|
                    kept.len() <= i < cards@.len() ==> cards@[i] == cards@.subrange(
                        kept.len() as int,
                        cards@.len() as int,
                    )[i - kept.len()]);
            }
        }
    }
    Ok(cards)
}

} // verus!
