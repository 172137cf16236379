//! Transparent overlay surface: placement over the target window, the
//! crosshair drawn at its centre, and the paint/destroy state machine its
//! message loop steps through.
//!
//! Creating the native window, pumping its messages, and stroking pixels
//! happen outside this crate; here the overlay's geometry is computed and
//! each incoming message is turned into the drawing or teardown action the
//! native loop must perform.

use vstd::prelude::*;

use crate::config::CrosshairType;
use crate::config::OverlayConfig;
use crate::config::Rgb;

verus! {

/// Corners of the target window in screen coordinates, as the windowing
/// system reports them.
#[derive(Clone, Copy, Debug, PartialEq, Eq, Structural)]
pub struct WindowRect {
    pub left: i32,
    pub top: i32,
    pub right: i32,
    pub bottom: i32,
}

impl WindowRect {
    /// Corners are ordered and the extents fit the coordinate type.
    pub open spec fn wf(&self) -> bool {
        &&& self.left <= self.right
        &&& self.top <= self.bottom
        &&& self.right - self.left <= i32::MAX
        &&& self.bottom - self.top <= i32::MAX
    }
}

/// Position and size of the overlay window.
#[derive(Clone, Copy, Debug, PartialEq, Eq, Structural)]
pub struct OverlayPlacement {
    pub x: i32,
    pub y: i32,
    pub width: i32,
    pub height: i32,
}

/// The overlay sits exactly over the target window: same origin, same
/// extent.
pub fn overlay_placement(rect: &WindowRect) -> (r: OverlayPlacement)
    requires
        rect.wf(),
    ensures
        r.x == rect.left,
        r.y == rect.top,
        r.width == rect.right - rect.left,
        r.height == rect.bottom - rect.top,
{
    OverlayPlacement {
        x: rect.left,
        y: rect.top,
        width: rect.right - rect.left,
        height: rect.bottom - rect.top,
    }
}

/// The target window's geometry could not be queried; fatal to overlay
/// creation.
#[derive(Clone, Copy, Debug, PartialEq, Eq, Structural)]
pub struct GeometryError;

/// A straight stroke from `(x1, y1)` to `(x2, y2)`.
#[derive(Clone, Copy, Debug, PartialEq, Eq, Structural)]
pub struct Segment {
    pub x1: i32,
    pub y1: i32,
    pub x2: i32,
    pub y2: i32,
}

/// The glyph one repaint draws.
#[derive(Clone, Copy, Debug, PartialEq, Eq, Structural)]
pub enum CrosshairShape {
    /// A filled circle.
    Dot { cx: i32, cy: i32, radius: i32 },
    /// Two perpendicular strokes through the centre.
    Cross { horizontal: Segment, vertical: Segment, stroke: i32 },
}

/// Everything the native painter needs for one repaint.
#[derive(Clone, Copy, Debug, PartialEq, Eq, Structural)]
pub struct DrawCommand {
    pub shape: CrosshairShape,
    pub color: Rgb,
}

/// The crosshair for a client rectangle of the given extent: variant Dot is
/// a filled circle of radius `crosshair_size` at the centre; variant Cross
/// is a horizontal and a vertical stroke of length twice `crosshair_size`,
/// both centred there, with stroke width two.
pub open spec fn spec_draw(width: int, height: int, config: OverlayConfig) -> DrawCommand {
    let cx = width / 2;
    let cy = height / 2;
    let size = config.crosshair_size as int;
    DrawCommand {
        shape: match config.crosshair_type {
            CrosshairType::Dot => CrosshairShape::Dot {
                cx: cx as i32,
                cy: cy as i32,
                radius: size as i32,
            },
            CrosshairType::Cross => CrosshairShape::Cross {
                horizontal: Segment {
                    x1: (cx - size) as i32,
                    y1: cy as i32,
                    x2: (cx + size) as i32,
                    y2: cy as i32,
                },
                vertical: Segment {
                    x1: cx as i32,
                    y1: (cy - size) as i32,
                    x2: cx as i32,
                    y2: (cy + size) as i32,
                },
                stroke: 2,
            },
        },
        color: config.crosshair_color,
    }
}

/// Computes the draw command for one repaint of a `width` by `height`
/// client rectangle.
pub fn draw_commands(width: i32, height: i32, config: &OverlayConfig) -> (r: DrawCommand)
    requires
        0 <= width,
        0 <= height,
    ensures
        r == spec_draw(width as int, height as int, *config),
        r.color == config.crosshair_color,
        config.crosshair_type == CrosshairType::Dot <==> r.shape matches CrosshairShape::Dot { .. },
        r.shape matches CrosshairShape::Dot { cx, cy, radius } ==> cx == width as int / 2 && cy
            == height as int / 2 && radius == config.crosshair_size,
        r.shape matches CrosshairShape::Cross { horizontal, vertical, stroke } ==> {
            &&& horizontal.x2 - horizontal.x1 == 2 * config.crosshair_size
            &&& horizontal.y1 == horizontal.y2 == height as int / 2
            &&& vertical.y2 - vertical.y1 == 2 * config.crosshair_size
            &&& vertical.x1 == vertical.x2 == width as int / 2
            &&& horizontal.x1 + config.crosshair_size == width as int / 2
            &&& vertical.y1 + config.crosshair_size == height as int / 2
            &&& stroke == 2
        },
{
    let cx = width / 2;
    let cy = height / 2;
    let size = config.crosshair_size as i32;
    let shape = match config.crosshair_type {
        CrosshairType::Dot => CrosshairShape::Dot { cx, cy, radius: size },
        CrosshairType::Cross => CrosshairShape::Cross {
            horizontal: Segment { x1: cx - size, y1: cy, x2: cx + size, y2: cy },
            vertical: Segment { x1: cx, y1: cy - size, x2: cx, y2: cy + size },
            stroke: 2,
        },
    };
    DrawCommand { shape, color: config.crosshair_color }
}

/// Lifecycle of an overlay surface.
#[derive(Clone, Copy, Debug, PartialEq, Eq, Structural)]
pub enum SurfaceState {
    /// Window created over the target; no repaint has happened yet.
    Created,
    /// At least one repaint has been drawn.
    Visible,
    /// Termination observed; the surface accepts no further messages.
    Destroyed,
}

/// One message the native loop hands the surface.
#[derive(Clone, Copy, Debug, PartialEq, Eq, Structural)]
pub enum SurfaceMessage {
    /// A repaint request, carrying the current client-rectangle extent.
    Paint { width: i32, height: i32 },
    /// The termination signal.
    Destroy,
    /// Anything else; forwarded to the system's default handling.
    Other,
}

impl SurfaceMessage {
    pub open spec fn wf(&self) -> bool {
        match *self {
            SurfaceMessage::Paint { width, height } => 0 <= width && 0 <= height,
            _ => true,
        }
    }
}

/// What the native loop must do after a message is handled.
#[derive(Clone, Copy, Debug, PartialEq, Eq, Structural)]
pub enum SurfaceAction {
    /// Paint this glyph.
    Draw(DrawCommand),
    /// Leave the message loop.
    Quit,
    /// Nothing; let default handling run.
    Ignore,
}

/// A running overlay surface.  `create_overlay` builds one only after the
/// target's geometry has been queried successfully, so a surface made there
/// never paints over an unknown rectangle.
#[derive(Debug, Clone)]
pub struct OverlaySurface {
    pub placement: OverlayPlacement,
    pub config: OverlayConfig,
    pub state: SurfaceState,
}

/// Creates the overlay over a target whose queried geometry is `geometry`.
/// A failed geometry query (or a nonsensical rectangle) aborts creation and
/// is reported to the caller; otherwise the surface starts its life in
/// `Created`, sized and positioned to match the target.
pub fn create_overlay(geometry: Option<WindowRect>, config: OverlayConfig) -> (r: Result<
    OverlaySurface,
    GeometryError,
>)
    ensures
        r is Ok <==> (geometry matches Some(g) && g.wf()),
        r matches Ok(s) ==> geometry matches Some(g) && s.placement.x == g.left && s.placement.y
            == g.top && s.placement.width == g.right - g.left && s.placement.height == g.bottom
            - g.top && s.config == config && s.state == SurfaceState::Created,
{
    match geometry {
        None => Err(GeometryError),
        Some(rect) => {
            let w = rect.right as i64 - rect.left as i64;
            let h = rect.bottom as i64 - rect.top as i64;
            if w < 0 || h < 0 || w > i32::MAX as i64 || h > i32::MAX as i64 {
                return Err(GeometryError);
            }
            Ok(
                OverlaySurface {
                    placement: overlay_placement(&rect),
                    config,
                    state: SurfaceState::Created,
                },
            )
        },
    }
}

impl OverlaySurface {
    /// Steps the surface's state machine for one message: a repaint request
    /// yields the crosshair draw command for the current client rectangle
    /// and marks the surface visible; the termination signal destroys the
    /// surface and tells the loop to quit; everything else is ignored.
    pub fn handle_message(&mut self, msg: &SurfaceMessage) -> (r: SurfaceAction)
        requires
            !(old(self).state is Destroyed),
            msg.wf(),
        ensures
            final(self).placement == old(self).placement,
            final(self).config == old(self).config,
            match *msg {
                SurfaceMessage::Paint { width, height } => final(self).state
                    == SurfaceState::Visible && r == SurfaceAction::Draw(
                    spec_draw(width as int, height as int, old(self).config),
                ),
                SurfaceMessage::Destroy => final(self).state == SurfaceState::Destroyed && r
                    == SurfaceAction::Quit,
                SurfaceMessage::Other => final(self).state == old(self).state && r
                    == SurfaceAction::Ignore,
            },
    {
        match msg {
            SurfaceMessage::Paint { width, height } => {
                self.state = SurfaceState::Visible;
                SurfaceAction::Draw(draw_commands(*width, *height, &self.config))
            },
            SurfaceMessage::Destroy => {
                self.state = SurfaceState::Destroyed;
                SurfaceAction::Quit
            },
            SurfaceMessage::Other => SurfaceAction::Ignore,
        }
    }
}

} // verus!
