//! The interchange shapes used to move whole card sets in and out of the
//! store, and the rules that decide which incoming cards are acceptable.
//!
//! These types mirror the store's hierarchy with every face half optional;
//! the surrounding application carries them to and from JSON.

use vstd::prelude::*;

use crate::db::Card;
use crate::db::Category;
use crate::db::Pool;
use crate::shitsumon::clone_opt_string;

verus! {

/// One card as it travels in an interchange file.
#[derive(Debug)]
pub struct CardJson {
    pub id: Option<i32>,
    pub front: Option<String>,
    pub back: Option<String>,
    pub front_image: Option<String>,
    pub back_image: Option<String>,
    pub score: Option<i32>,
}

/// One pool with its cards as it travels in an interchange file.
#[derive(Debug)]
pub struct PoolJson {
    pub id: i32,
    pub category_name: Option<String>,
    pub cards: Vec<CardJson>,
}

/// One category with its pools as it travels in an interchange file.
#[derive(Debug)]
pub struct CategoryJson {
    pub name: String,
    pub pools: Vec<PoolJson>,
}

impl CategoryJson {
    /// Starts an export entry for a category: its name, no pools yet.
    pub fn from(cate: &Category) -> (r: CategoryJson)
        ensures
            r.name == cate.name,
            r.pools@ =~= Seq::<PoolJson>::empty(),
    {
        CategoryJson { name: cate.name.clone(), pools: Vec::new() }
    }
}

impl PoolJson {
    /// Starts an export entry for a pool: its id and category, no cards yet.
    pub fn from(pool: &Pool) -> (r: PoolJson)
        ensures
            r.id == pool.id,
            r.category_name == pool.category_name,
            r.cards@ =~= Seq::<CardJson>::empty(),
    {
        PoolJson {
            id: pool.id,
            category_name: clone_opt_string(&pool.category_name),
            cards: Vec::new(),
        }
    }
}

impl CardJson {
    /// The interchange form of a stored card: empty text and empty image
    /// paths become absent, id and score carry over as they are.
    pub fn from(card: &Card) -> (r: CardJson)
        ensures
            r.id == card.id,
            r.front == (if card.front@.len() == 0 {
                None::<String>
            } else {
                Some(card.front)
            }),
            r.back == (if card.back@.len() == 0 {
                None::<String>
            } else {
                Some(card.back)
            }),
            r.front_image == (if card.front_image@.len() == 0 {
                None::<String>
            } else {
                Some(card.front_image)
            }),
            r.back_image == (if card.back_image@.len() == 0 {
                None::<String>
            } else {
                Some(card.back_image)
            }),
            r.score == card.score,
    {
        CardJson {
            id: card.id,
            front: if card.front.as_str().is_empty() {
                None
            } else {
                Some(card.front.clone())
            },
            back: if card.back.as_str().is_empty() {
                None
            } else {
                Some(card.back.clone())
            },
            front_image: if card.front_image.as_str().is_empty() {
                None
            } else {
                Some(card.front_image.clone())
            },
            back_image: if card.back_image.as_str().is_empty() {
                None
            } else {
                Some(card.back_image.clone())
            },
            score: card.score,
        }
    }
}

/// An incoming card is importable exactly when it has something on each
/// face: front text or a front image, and back text or a back image.
pub fn validate_card(card: &CardJson) -> (r: bool)
    ensures
        r == ((card.front is Some || card.front_image is Some) && (card.back is Some
            || card.back_image is Some)),
{
    (card.front.is_some() || card.front_image.is_some()) && (card.back.is_some()
        || card.back_image.is_some())
}

} // verus!
