//! Freehand-drawing capture pipeline: a constant-step pursuit filter turns
//! pointer samples into committed stroke points, a session records them, and
//! a finalizer normalizes the stroke to its bounding box and serializes an
//! SVG path document.
//!
//! Drawing-space coordinates are fixed-point integers: the caller picks a
//! scale (world units per integer step) and converts at the boundary.

use vstd::prelude::*;

mod doc;
mod finalize;
mod follow;
mod geom;
mod preview;
mod resolve;
mod session;

pub use doc::dec_chars;
pub use doc::digit_char;
pub use doc::document_chars;
pub use doc::filename_chars;
pub use doc::lemma_filename_injective;
pub use doc::pair_chars;
pub use doc::path_prefix_chars;
pub use doc::render_document;
pub use doc::render_filename;
pub use finalize::FinalizedStroke;
pub use finalize::finalize_stroke;
pub use finalize::finalized_from;
pub use finalize::is_bbox;
pub use follow::FollowConfig;
pub use follow::follow;
pub use follow::follow_rel;
pub use follow::lemma_follow_axis_exact;
pub use follow::lemma_follow_deterministic;
pub use follow::lemma_follow_first;
pub use follow::lemma_follow_rest;
pub use follow::lemma_follow_step_bound;
pub use follow::speed_ok;
pub use follow::step_component;
pub use geom::COORD_LIMIT;
pub use geom::Point;
pub use geom::abs_int;
pub use geom::dist2;
pub use geom::in_bounds;
pub use geom::session_bounds;
pub use preview::Segment;
pub use preview::preview_segments;
pub use resolve::resolve_pointer;
pub use resolve::resolved_x;
pub use resolve::resolved_y;
pub use session::StrokeSession;
pub use session::lemma_session_invariant;
