pub use crate::errors::ExceedBuffer;
pub use crate::errors::StreamParserError;
pub use crate::heuristic::StartGroupByParser;
pub use crate::traits::Buffer;
pub use crate::traits::MatchVerdict;
pub use crate::traits::ParseVerdict;

pub mod buffers;
pub mod builder;
pub mod errors;
pub mod heuristic;
pub mod logic;
pub mod parser_state;
pub mod parsers;
pub mod seeder;
pub mod source;
pub mod stream_parsers;
pub mod traits;
pub mod utils;
