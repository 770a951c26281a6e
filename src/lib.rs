//! Benchmark harness for an external diff/patch tool: a verified model of
//! synthetic corpus generation, of the scaling plan and of the
//! fixed-benchmark run loop.
pub mod corpus;
pub mod fixed;
pub mod random;
pub mod scaling;
pub mod text;

pub use corpus::{
    build_corpus, decide_edit, generate_line, Corpus, Edit, GeneratorParameters, LineDraw,
    FIRST_LETTER, LETTER_END, NEWLINE, PROB_SCALE,
};
pub use fixed::{FixedHarness, Step};
pub use random::{draw_line, draw_lines, generate_corpus};
pub use scaling::{
    scaling_header, scaling_row, Config, ConfigError, SCALING_LINE_LOWER, SCALING_LINE_UPPER,
    SCALING_PROB,
};
pub use text::decimal;
