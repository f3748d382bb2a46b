//! A flashcard-review engine: it samples cards from a category's pools,
//! assembles multiple-choice questions with distractors drawn from sibling
//! cards of the same pool, and tracks a per-card mastery score as the user
//! answers.

mod choice;
mod db;
mod error;
mod porter;
mod rng;
mod session;
mod setup;
mod shitsumon;

pub use choice::answer_value;
pub use choice::AnswerAction;
pub use choice::Choice;
pub use db::Card;
pub use db::Category;
pub use db::Pool;
pub use error::EngineError;
pub use porter::validate_card;
pub use porter::CardJson;
pub use porter::CategoryJson;
pub use porter::PoolJson;
pub use rng::pick_random;
pub use session::QuestionState;
pub use shitsumon::score_from_store;
pub use setup::category;
pub use setup::get_question_cards;
pub use setup::init_questions;
pub use setup::make_question;
pub use setup::sibling_back_options;
pub use setup::EMPTY_DRAW_LIMIT;
pub use shitsumon::OptionPair;
pub use shitsumon::Question;
