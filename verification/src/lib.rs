//! A conversational quiz backend: a per-user dialogue state machine that
//! walks a user through authoring a quiz (title, description, questions,
//! answers), editing an existing quiz tree by natural keys, or taking a quiz
//! and being scored, over an in-memory repository of quiz aggregates.

pub mod commands;
pub mod constructor;
pub mod dialogue;
pub mod editor;
pub mod events;
pub mod keyboard;
pub mod laws;
pub mod quiz;
pub mod runner;
pub mod schema;
pub mod state;
pub mod store;
pub mod tokens;

pub use commands::Command;
pub use quiz::Answer;
pub use quiz::Question;
pub use quiz::Quiz;
pub use state::QuizData;
pub use state::QuizState;
