//! A terminal typing speed test: the session state, the key dispatch, the
//! words-per-minute rule and the per-character feedback, all verified.
//! Reading the terminal and drawing frames is left to the caller.
mod keys;
mod render;
mod session;
mod words;

pub use keys::{action_for, Action, Key, Modifiers};
pub use render::{render_text, Glyph, Tag};
pub use session::{App, AppModel};
pub use words::{generate_text, word_corpus_vec, SAMPLE_SIZE};
