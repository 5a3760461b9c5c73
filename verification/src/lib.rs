//! Filters and renders captured stack traces.
//!
//! Given a sequence of stack frames (function symbol, optional source file,
//! optional line), the library removes frames whose file or function symbol
//! matches a caller-supplied blocklist of patterns, and renders the survivors
//! as plain text, innermost frame first.

mod filter;
mod frame;
mod pattern;
mod render;
mod report;

pub use filter::excluded_by_file;
pub use filter::excluded_by_name;
pub use filter::filter;
pub use filter::filter_frames;
pub use filter::is_subsequence_of;
pub use filter::keep;
pub use filter::lemma_file_exclusion_precedence;
pub use filter::lemma_filter_empty_identity;
pub use filter::lemma_filter_output_kept;
pub use filter::lemma_filter_preserves_order;
pub use filter::lemma_missing_file_immunity;
pub use frame::Frame;
pub use frame::FrameData;
pub use pattern::Pattern;
pub use pattern::any_matches;
pub use pattern::matches_any;
pub use pattern::regex_matches;
pub use pattern::valid_pattern;
pub use render::decimal_of;
pub use render::decorated_frame_text;
pub use render::digit_char;
pub use render::embeds;
pub use render::frame_text;
pub use render::header_text;
pub use render::contains_reset;
pub use render::is_char_subsequence;
pub use render::is_decorated_render;
pub use render::painted_symbol;
pub use render::render;
pub use render::render_decorated;
pub use render::render_text;
pub use render::reset_sequence;
pub use report::ReportError;
pub use report::TracedError;
pub use report::backtrace;
pub use report::render_outcome;
