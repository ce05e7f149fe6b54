//! Core engine of a lyrics overlay: a timestamped lyric document with
//! position lookup, a playback-position estimator, a line resolver with
//! hysteresis, and a transition scheduler driving a set of eased
//! animation variables.

pub mod animation;
pub mod document;
pub mod engine;
pub mod player;
pub mod position;
pub mod query;
pub mod resolver;
pub mod scheduler;
pub mod source;

pub use animation::AnimationVariableSet;
pub use animation::Transition;
pub use animation::Var;
pub use animation::eval_transition;
pub use document::LyricDocument;
pub use document::ParseError;
pub use document::TimedLine;
pub use engine::LOOKAHEAD_MS;
pub use engine::LyricsEngine;
pub use player::Player;
pub use player::PlayerState;
pub use position::PositionEstimator;
pub use query::Query;
pub use query::QueryAction;
pub use resolver::DisplayState;
pub use scheduler::TextSize;
pub use scheduler::schedule_transitions;
pub use scheduler::transition_to;
pub use source::build_document;
pub use source::document_from_lrc;
