pub mod error;
pub mod game;
pub mod number;
pub mod sanitize;

pub use error::AppError;
pub use error::Resultish;
pub use game::Category;
pub use game::MAX_TRIES;
pub use game::WORD_LENGTH;
pub use game::WordleGame;
pub use number::GuessOutcome;
pub use sanitize::sanitize_word;
