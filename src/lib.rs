//! Asset loading and frame scheduling for a canvas sprite demo.
//!
//! The browser plumbing (callbacks, fetches, the canvas itself) lives
//! outside this library; here stand the decisions it makes: a completion
//! slot that resolves once, a sprite sheet with exact lookups, the draw
//! calls derived from it, and a self re-arming frame loop.
pub mod draw;
pub mod frame_loop;
pub mod sheet;
pub mod signal;
pub mod surface;

pub use draw::{draw_frame, plan_image_draw, plan_sprite_draw, DrawCommand, DrawError};
pub use frame_loop::FrameLoop;
pub use sheet::{Cell, LookupError, Rect, Sheet};
pub use signal::{completion_pair, load_result, CompletionSlot, LoadError};
pub use surface::{canvas, context, context_of, document, window, NotFoundError};
