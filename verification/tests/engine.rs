//! Engine scenarios against a real in-memory SQLite store.

use fukushuu::category;
use fukushuu::get_question_cards;
use fukushuu::init_questions;
use fukushuu::Card;
use fukushuu::Category;
use fukushuu::EngineError;
use fukushuu::Pool;
use rusqlite::Connection;

fn open_store() -> Connection {
    let conn = Connection::open_in_memory().unwrap();
    conn.execute(
        "CREATE TABLE Category (
              name TEXT NOT NULL,
              PRIMARY KEY (name)
            )",
        (),
    )
    .unwrap();
    conn.execute(
        "CREATE TABLE Pool (
              id INTEGER NOT NULL PRIMARY KEY,
              categoryName TEXT,
              FOREIGN KEY (categoryName) REFERENCES Category(name)
            )",
        (),
    )
    .unwrap();
    conn.execute(
        "CREATE TABLE Card (
              id INTEGER NOT NULL PRIMARY KEY AUTOINCREMENT,
              front TEXT NOT NULL,
              back TEXT NOT NULL,
              frontImage TEXT NOT NULL,
              backImage TEXT NOT NULL,
              score INTEGER NOT NULL,
              poolId INTEGER,
              categoryName TEXT
            )",
        (),
    )
    .unwrap();
    conn
}

fn plain_card(id: i32, front: &str, back: &str, pool_id: i32, category_name: &str) -> Card {
    Card {
        id: Some(id),
        front: front.to_string(),
        back: back.to_string(),
        front_image: String::new(),
        back_image: String::new(),
        score: None,
        pool_id: Some(pool_id),
        category_name: Some(category_name.to_string()),
    }
}

fn seed_jlpt_n5(conn: &Connection) {
    Category::new(conn, "JLPT N5".to_string()).unwrap();
    Pool::new(conn, 1, Some("JLPT N5".to_string())).unwrap();
    for (id, front, back) in [
        (1, "inu", "dog"),
        (2, "neko", "cat"),
        (3, "tori", "bird"),
        (4, "sakana", "fish"),
        (5, "uma", "horse"),
    ] {
        Card::add(conn, plain_card(id, front, back, 1, "JLPT N5")).unwrap();
    }
}

#[test]
fn select_cards_exact_count() {
    let conn = open_store();
    seed_jlpt_n5(&conn);
    let cat = Category {
        name: "JLPT N5".to_string(),
    };
    let cards = get_question_cards(&conn, 3, cat).unwrap();
    assert_eq!(cards.len(), 3);
    assert!(cards.iter().all(|c| c.pool_id.is_some()));
}

#[test]
fn select_cards_more_than_one_pool_pass() {
    let conn = open_store();
    seed_jlpt_n5(&conn);
    // The target exceeds one pool's five cards, so the sampler revisits the
    // pool (draws are with replacement) until it reaches the target exactly.
    let cat = Category {
        name: "JLPT N5".to_string(),
    };
    let cards = get_question_cards(&conn, 12, cat).unwrap();
    assert_eq!(cards.len(), 12);
}

#[test]
fn select_cards_zero_target() {
    let conn = open_store();
    seed_jlpt_n5(&conn);
    let cat = Category {
        name: "JLPT N5".to_string(),
    };
    let cards = get_question_cards(&conn, 0, cat).unwrap();
    assert_eq!(cards.len(), 0);
}

#[test]
fn no_pools_aborts_before_any_question() {
    let conn = open_store();
    Category::new(&conn, "empty one".to_string()).unwrap();
    let cat = Category {
        name: "empty one".to_string(),
    };
    let err = get_question_cards(&conn, 3, cat).unwrap_err();
    assert_eq!(err, EngineError::NoPools);
}

#[test]
fn no_categories_is_a_distinct_signal() {
    let conn = open_store();
    // No categories at all: selection yields nothing, which the caller
    // reports as "no categories" — a different state than "no pools".
    assert!(category(&conn, None).is_none());
}

#[test]
fn pools_without_cards_give_up() {
    let conn = open_store();
    Category::new(&conn, "hollow".to_string()).unwrap();
    Pool::new(&conn, 9, Some("hollow".to_string())).unwrap();
    let cat = Category {
        name: "hollow".to_string(),
    };
    let err = get_question_cards(&conn, 3, cat).unwrap_err();
    assert_eq!(err, EngineError::NoCards);
}

#[test]
fn jlpt_n5_scenario_builds_three_full_questions() {
    let conn = open_store();
    seed_jlpt_n5(&conn);
    let cat = Category {
        name: "JLPT N5".to_string(),
    };
    let cards = get_question_cards(&conn, 3, cat).unwrap();
    let questions = init_questions(&conn, cards, 4);
    assert_eq!(questions.len(), 3);
    for q in &questions {
        // Four siblings remain after removing the card itself, so all three
        // distractor slots can be filled.
        assert_eq!(q.incorrect_options.len(), 3);
    }
}

#[test]
fn card_without_pool_id_is_skipped() {
    let conn = open_store();
    seed_jlpt_n5(&conn);
    let mut sampled = vec![
        plain_card(1, "inu", "dog", 1, "JLPT N5"),
        plain_card(2, "neko", "cat", 1, "JLPT N5"),
        plain_card(3, "tori", "bird", 1, "JLPT N5"),
    ];
    sampled[1].pool_id = None;
    let questions = init_questions(&conn, sampled, 4);
    assert_eq!(questions.len(), 2);
    assert_eq!(questions[0].card_id, 1);
    assert_eq!(questions[1].card_id, 3);
}

#[test]
fn card_without_id_is_skipped() {
    let conn = open_store();
    seed_jlpt_n5(&conn);
    let mut sampled = vec![
        plain_card(1, "inu", "dog", 1, "JLPT N5"),
        plain_card(2, "neko", "cat", 1, "JLPT N5"),
    ];
    sampled[0].id = None;
    let questions = init_questions(&conn, sampled, 4);
    assert_eq!(questions.len(), 1);
    assert_eq!(questions[0].card_id, 2);
}

#[test]
fn degraded_question_when_pool_is_small() {
    let conn = open_store();
    Category::new(&conn, "tiny".to_string()).unwrap();
    Pool::new(&conn, 2, Some("tiny".to_string())).unwrap();
    Card::add(&conn, plain_card(10, "hi", "two", 2, "tiny")).unwrap();
    Card::add(&conn, plain_card(11, "mi", "three", 2, "tiny")).unwrap();
    let sampled = vec![plain_card(10, "hi", "two", 2, "tiny")];
    let questions = init_questions(&conn, sampled, 4);
    assert_eq!(questions.len(), 1);
    // Only one sibling is available: the question is degraded, not dropped.
    assert_eq!(questions[0].incorrect_options.len(), 1);
}

#[test]
fn get_score_is_idempotent_without_writes() {
    let conn = open_store();
    seed_jlpt_n5(&conn);
    let sampled = vec![plain_card(1, "inu", "dog", 1, "JLPT N5")];
    let questions = init_questions(&conn, sampled, 4);
    let first = questions[0].get_score(&conn).unwrap();
    let second = questions[0].get_score(&conn).unwrap();
    assert_eq!(first, second);
}

#[test]
fn increment_then_decrement_restores_the_score() {
    let conn = open_store();
    seed_jlpt_n5(&conn);
    Card::change_score(&conn, 1, 5).unwrap();
    let sampled = vec![plain_card(1, "inu", "dog", 1, "JLPT N5")];
    let mut questions = init_questions(&conn, sampled, 4);
    let q = &mut questions[0];
    let up = q.increment_score(&conn).unwrap();
    assert_eq!(up, 6);
    assert_eq!(q.score, 6);
    let down = q.decrement_score(&conn).unwrap();
    assert_eq!(down, 5);
    assert_eq!(q.score, 5);
    assert_eq!(q.get_score(&conn).unwrap(), 5);
}

#[test]
fn step_score_applies_the_read_score_plus_or_minus_one() {
    let conn = open_store();
    seed_jlpt_n5(&conn);
    let sampled = vec![plain_card(1, "inu", "dog", 1, "JLPT N5")];
    let mut questions = init_questions(&conn, sampled, 4);
    let q = &mut questions[0];
    assert_eq!(q.step_score(&conn, 5, true), Ok(6));
    assert_eq!(q.score, 6);
    assert_eq!(Card::get_score(&conn, 1).unwrap(), Some(6));
    assert_eq!(q.step_score(&conn, 6, false), Ok(5));
    assert_eq!(q.score, 5);
    assert_eq!(Card::get_score(&conn, 1).unwrap(), Some(5));
}

#[test]
fn step_score_rejects_a_step_past_the_i32_bounds() {
    let conn = open_store();
    seed_jlpt_n5(&conn);
    let sampled = vec![plain_card(1, "inu", "dog", 1, "JLPT N5")];
    let mut questions = init_questions(&conn, sampled, 4);
    let q = &mut questions[0];
    let snapshot = q.score;
    assert_eq!(
        q.step_score(&conn, i32::MAX, true),
        Err(EngineError::ScoreOutOfRange)
    );
    assert_eq!(
        q.step_score(&conn, i32::MIN, false),
        Err(EngineError::ScoreOutOfRange)
    );
    assert_eq!(q.score, snapshot);
    assert_eq!(Card::get_score(&conn, 1).unwrap(), Some(0));
}

#[test]
fn pick_random_returns_an_element_exactly_when_one_exists() {
    assert_eq!(fukushuu::pick_random::<i32>(Vec::new()), None);
    assert_eq!(fukushuu::pick_random(vec![7]), Some(7));
    for _ in 0..20 {
        let picked = fukushuu::pick_random(vec![1, 2, 3]).unwrap();
        assert!(picked == 1 || picked == 2 || picked == 3);
    }
}

#[test]
fn change_score_writes_through() {
    let conn = open_store();
    seed_jlpt_n5(&conn);
    let written = Card::change_score(&conn, 2, 9).unwrap();
    assert_eq!(written, 9);
    assert_eq!(Card::get_score(&conn, 2).unwrap(), Some(9));
}

#[test]
fn get_in_pool_returns_only_that_pool() {
    let conn = open_store();
    seed_jlpt_n5(&conn);
    Category::new(&conn, "other".to_string()).unwrap();
    Pool::new(&conn, 2, Some("other".to_string())).unwrap();
    Card::add(&conn, plain_card(20, "x", "y", 2, "other")).unwrap();
    let cards = Card::get_in_pool(&conn, 1).unwrap();
    assert_eq!(cards.len(), 5);
    assert!(cards.iter().all(|c| c.pool_id == Some(1)));
    let others = Card::get_in_pool(&conn, 2).unwrap();
    assert_eq!(others.len(), 1);
    assert_eq!(others[0].id, Some(20));
}

#[test]
fn category_selection_by_name_and_at_random() {
    let conn = open_store();
    seed_jlpt_n5(&conn);
    let named = category(&conn, Some("JLPT N5")).unwrap();
    assert_eq!(named.name, "JLPT N5");
    assert!(category(&conn, Some("missing")).is_none());
    let picked = category(&conn, None).unwrap();
    assert_eq!(picked.name, "JLPT N5");
}

#[test]
fn pool_queries_see_their_category() {
    let conn = open_store();
    seed_jlpt_n5(&conn);
    let pools = Pool::get_all_in_category(&conn, "JLPT N5").unwrap();
    assert_eq!(pools.len(), 1);
    assert_eq!(pools[0].id, 1);
    assert_eq!(pools[0].category_name.as_deref(), Some("JLPT N5"));
    let all = Pool::get_all(&conn).unwrap();
    assert_eq!(all.len(), 1);
    let by_id = Pool::get_by_id(&conn, 1).unwrap();
    assert_eq!(by_id.id, 1);
}

#[test]
fn deletes_remove_their_rows() {
    let conn = open_store();
    seed_jlpt_n5(&conn);
    Card::delete(&conn, 3).unwrap();
    assert_eq!(Card::get_in_pool(&conn, 1).unwrap().len(), 4);
    Pool::delete(&conn, 1).unwrap();
    assert!(Pool::get_all(&conn).unwrap().is_empty());
    Category::delete(&conn, "JLPT N5".to_string()).unwrap();
    assert!(Category::get_all(&conn).unwrap().is_empty());
    assert!(Category::get_one(&conn, "JLPT N5").is_err());
}

#[test]
fn card_queries_by_category_and_overall() {
    let conn = open_store();
    seed_jlpt_n5(&conn);
    Category::new(&conn, "other".to_string()).unwrap();
    Pool::new(&conn, 2, Some("other".to_string())).unwrap();
    Card::add(&conn, plain_card(20, "x", "y", 2, "other")).unwrap();
    assert_eq!(Card::get_all(&conn).unwrap().len(), 6);
    let in_category = Card::get_in_category(&conn, "JLPT N5").unwrap();
    assert_eq!(in_category.len(), 5);
    assert!(in_category
        .iter()
        .all(|c| c.category_name.as_deref() == Some("JLPT N5")));
    let by_id = Card::get_by_id(&conn, 4).unwrap();
    assert_eq!(by_id.front, "sakana");
    assert_eq!(by_id.back, "fish");
}

#[test]
fn card_add_assigns_the_next_free_id() {
    let conn = open_store();
    Category::new(&conn, "seq".to_string()).unwrap();
    Pool::new(&conn, 3, Some("seq".to_string())).unwrap();
    let mut first = plain_card(0, "a", "b", 3, "seq");
    first.id = None;
    Card::add(&conn, first).unwrap();
    let mut second = plain_card(0, "c", "d", 3, "seq");
    second.id = None;
    Card::add(&conn, second).unwrap();
    let cards = Card::get_in_pool(&conn, 3).unwrap();
    assert_eq!(cards.len(), 2);
    let mut ids: Vec<i32> = cards.iter().map(|c| c.id.unwrap()).collect();
    ids.sort();
    assert_eq!(ids[1], ids[0] + 1);
}
