use crate::sheet::{LookupError, Rect, Sheet};
use crate::signal::LoadError;
use vstd::prelude::*;

verus! {

/// A draw call on the 2D context, in destination pixels.
#[derive(Clone, Copy, Debug, PartialEq, Eq, Structural)]
pub enum DrawCommand {
    /// The whole image with its top left corner at `(x, y)`.
    Whole { x: i32, y: i32 },
    /// The `source` part of the image into the rectangle at `(dx, dy)`
    /// of extent `dw` by `dh`.
    Clip { source: Rect, dx: i32, dy: i32, dw: u16, dh: u16 },
}

/// Why a planned draw does not happen.
#[derive(Debug)]
pub enum DrawError {
    /// The image did not load.
    Load(LoadError),
    /// The sheet has no frame of the requested name.
    Lookup(LookupError),
}

/// The unscaled draw of `source` at `(dx, dy)`: the clip extent is also the
/// destination extent.
pub open spec fn clip_at(source: Rect, dx: i32, dy: i32) -> DrawCommand {
    DrawCommand::Clip { source, dx, dy, dw: source.w, dh: source.h }
}

/// The draw of the frame named `name` at `(dx, dy)`, unscaled.
pub fn draw_frame(sheet: &Sheet, name: &str, dx: i32, dy: i32) -> (r: Result<DrawCommand, LookupError>)
    requires
        sheet.wf(),
    ensures
        r is Ok <==> sheet@.contains_key(name@),
        r matches Ok(cmd) ==> cmd == clip_at(sheet@[name@].frame, dx, dy),
        r matches Err(e) ==> e.name@ == name@,
{
    match sheet.frame(name) {
        Ok(source) => Ok(DrawCommand::Clip { source, dx, dy, dw: source.w, dh: source.h }),
        Err(e) => Err(e),
    }
}

/// The draw of the whole image at `(x, y)`, only once its load succeeded.
pub fn plan_image_draw(loaded: Result<(), LoadError>, x: i32, y: i32) -> (r: Result<
    DrawCommand,
    LoadError,
>)
    ensures
        loaded is Ok ==> r == Ok::<DrawCommand, LoadError>(DrawCommand::Whole { x, y }),
        loaded matches Err(e) ==> r == Err::<DrawCommand, LoadError>(e),
{
    match loaded {
        Ok(()) => Ok(DrawCommand::Whole { x, y }),
        Err(e) => Err(e),
    }
}

/// The draw of the sheet frame named `name` at `(dx, dy)`, only once the
/// sheet image loaded and only if the frame exists.
pub fn plan_sprite_draw(
    loaded: Result<(), LoadError>,
    sheet: &Sheet,
    name: &str,
    dx: i32,
    dy: i32,
) -> (r: Result<DrawCommand, DrawError>)
    requires
        sheet.wf(),
    ensures
        r is Ok <==> (loaded is Ok && sheet@.contains_key(name@)),
        r matches Ok(cmd) ==> cmd == clip_at(sheet@[name@].frame, dx, dy),
        loaded matches Err(e) ==> r == Err::<DrawCommand, DrawError>(DrawError::Load(e)),
        loaded is Ok && !sheet@.contains_key(name@) ==> (r matches Err(DrawError::Lookup(e)) && e.name@
            == name@),
{
    match loaded {
        Ok(()) => match draw_frame(sheet, name, dx, dy) {
            Ok(cmd) => Ok(cmd),
            Err(e) => Err(DrawError::Lookup(e)),
        },
        Err(e) => Err(DrawError::Load(e)),
    }
}

} // verus!
