//! A small typed expression-tree interpreter for a procedural-texture
//! language, together with a stochastic grammar expander that synthesizes
//! random well-formed trees.
//!
//! Numeric values are fixed-point: an `i64` scaled by [`fixed::UNIT`], so
//! that `UNIT` stands for one. All arithmetic on them is exact integer
//! arithmetic with saturation at the `i64` bounds, specified precisely in
//! [`fixed`]. The evaluator lives in [`eval`], the grammar model in
//! [`grammar`], the generator in [`expand`], the render adapter in
//! [`render`], and the evaluator's laws in [`laws`].

pub mod eval;
pub mod expand;
pub mod fixed;
pub mod grammar;
pub mod laws;
pub mod node;
pub mod parse;
pub mod render;
pub mod sample;

pub use eval::evaluate;
pub use expand::expand_node;
pub use expand::expand_rule;
pub use expand::MAX_ATTEMPTS;
pub use fixed::channel_of;
pub use fixed::pixel_coord;
pub use fixed::UNIT;
pub use grammar::check_grammar;
pub use grammar::default_grammar;
pub use grammar::Rule;
pub use node::EvalError;
pub use node::Node;
pub use node::Vector2;
pub use node::Vector3;
pub use parse::parse_number;
pub use parse::parse_number_isize;
pub use render::eval_render;
pub use render::render;
