//! A plain model of the slice of the host scene the two routines touch:
//! the cameras carrying the camera marker, the windows, and the image
//! elements carrying the element marker. The host shell fills this model
//! from the engine before a routine runs and writes the changed parts back.

use crate::ui::{Size, Val, Vec2, Visibility, ZIndex};
use vstd::prelude::*;

verus! {

/// Identifier of the primary (default) window.
pub const PRIMARY_WINDOW_ID: u64 = 0;

/// Where a camera renders to.
#[derive(Clone, Copy, Debug, PartialEq, Eq, Structural)]
pub enum RenderTarget {
    /// Into the window with the given identifier.
    Window(u64),
    /// Into an off-screen target; the routines then fall back to the
    /// primary window.
    OffScreen,
}

/// What the routines read of a camera-tagged entity.
#[derive(Clone, Copy, Debug, PartialEq, Eq, Structural)]
pub struct CameraInfo {
    pub target: RenderTarget,
}

/// What the routines read and write of one window.
#[derive(Clone, Copy, Debug, PartialEq, Eq)]
pub struct WindowState {
    pub id: u64,
    /// Height in logical pixels.
    pub height: i32,
    /// Whether the operating-system cursor is shown over this window.
    pub cursor_visible: bool,
    /// Pointer position in top-down window coordinates; absent whenever the
    /// pointer is outside the window bounds.
    pub pointer: Option<Vec2>,
}

/// The on-screen image element that stands in for the cursor: identity
/// fields fixed at creation (size, stacking order, image), and the layout
/// fields the update routine rewrites each frame (offsets from the window's
/// left and top edge, visibility).
#[derive(Clone, Debug, PartialEq, Eq)]
pub struct TrackedElement {
    pub size: Size,
    pub z_index: ZIndex,
    pub image: String,
    pub left: Val,
    pub top: Val,
    pub visibility: Visibility,
}

/// The scene as the routines see it: every entity carrying the camera
/// marker, every window, and every element carrying the element marker.
#[derive(Debug)]
pub struct Scene {
    pub cameras: Vec<CameraInfo>,
    pub windows: Vec<WindowState>,
    pub elements: Vec<TrackedElement>,
}

/// Why a routine refused to run. All four are misconfigurations of the
/// embedding application, not transient conditions; the host is expected to
/// abort on them.
#[derive(Clone, Copy, Debug, PartialEq, Eq, Structural)]
pub enum CursorError {
    /// No entity carries the camera marker.
    NoCamera,
    /// More than one entity carries the camera marker.
    MultipleCameras,
    /// The update routine found no tracked element.
    NoElement,
    /// The update routine found more than one tracked element.
    MultipleElements,
}

/// The window a camera's render target leads to: the target's own window,
/// or the primary window for an off-screen target.
pub open spec fn target_window_id(t: RenderTarget) -> u64 {
    match t {
        RenderTarget::Window(id) => id,
        RenderTarget::OffScreen => PRIMARY_WINDOW_ID,
    }
}

/// Index of the first window carrying the given identifier, or -1 when no
/// window carries it.
pub open spec fn first_window_index(ws: Seq<WindowState>, id: u64) -> int
    decreases ws.len(),
{
    if ws.len() == 0 {
        -1
    } else if ws[0].id == id {
        0
    } else {
        let rest = first_window_index(ws.drop_first(), id);
        if rest < 0 {
            -1
        } else {
            rest + 1
        }
    }
}

/// `first_window_index` is -1 exactly when no window carries the identifier,
/// and otherwise the least index of one that does.
pub proof fn lemma_first_window_index(ws: Seq<WindowState>, id: u64)
    ensures
        first_window_index(ws, id) == -1 <==> (forall|j: int|
            0 <= j < ws.len() ==> ws[j].id != id),
        first_window_index(ws, id) != -1 ==> {
            let i = first_window_index(ws, id);
            &&& 0 <= i < ws.len()
            &&& ws[i].id == id
            &&& forall|j: int| 0 <= j < i ==> ws[j].id != id
        },
    decreases ws.len(),
{
    if ws.len() == 0 {
    } else if ws[0].id == id {
    } else {
        lemma_first_window_index(ws.drop_first(), id);
        assert forall|j: int| 0 <= j < ws.len() && ws[j].id == id implies j >= 1 by {}
        assert forall|j: int| 1 <= j < ws.len() implies ws.drop_first()[j - 1] == ws[j] by {}
        if first_window_index(ws.drop_first(), id) == -1 {
            assert forall|j: int| 0 <= j < ws.len() implies ws[j].id != id by {
                if j >= 1 {
                    assert(ws[j] == ws.drop_first()[j - 1]);
                }
            }
        } else {
            let i = first_window_index(ws, id);
            assert(ws[i] == ws.drop_first()[i - 1]);
            assert forall|j: int| 0 <= j < i implies ws[j].id != id by {
                if j >= 1 {
                    assert(ws[j] == ws.drop_first()[j - 1]);
                }
            }
        }
    }
}

/// The window identifier the unique tagged camera's target resolves to.
/// Meaningful only when the scene holds exactly one tagged camera.
pub open spec fn scene_target_id(s: Scene) -> u64 {
    target_window_id(s.cameras@[0].target)
}

/// Index in `s.windows` of the window the routines act on; -1 when the
/// scene lacks it.
pub open spec fn scene_window_index(s: Scene) -> int {
    first_window_index(s.windows@, scene_target_id(s))
}

/// Whenever exactly one camera carries the marker, its render target leads
/// to a window the scene holds. Both routines require this; looking up a
/// window the host does not have is a hard failure there, not a recoverable
/// error.
pub open spec fn window_resolvable(s: Scene) -> bool {
    s.cameras@.len() == 1 ==> scene_window_index(s) >= 0
}

/// Camera-cardinality check and target resolution: with exactly one tagged
/// camera, the identifier of the window it renders to; with zero or several,
/// the matching cardinality error.
pub fn resolve_target(cameras: &Vec<CameraInfo>) -> (r: Result<u64, CursorError>)
    ensures
        cameras@.len() == 0 ==> r == Err::<u64, CursorError>(CursorError::NoCamera),
        cameras@.len() > 1 ==> r == Err::<u64, CursorError>(CursorError::MultipleCameras),
        cameras@.len() == 1 ==> r == Ok::<u64, CursorError>(target_window_id(cameras@[0].target)),
{
    if cameras.len() == 0 {
        Err(CursorError::NoCamera)
    } else if cameras.len() > 1 {
        Err(CursorError::MultipleCameras)
    } else {
        match cameras[0].target {
            RenderTarget::Window(id) => Ok(id),
            RenderTarget::OffScreen => Ok(PRIMARY_WINDOW_ID),
        }
    }
}

/// Index of the first window carrying the given identifier.
pub fn find_window(windows: &Vec<WindowState>, id: u64) -> (r: Option<usize>)
    ensures
        match r {
            Some(i) => i == first_window_index(windows@, id) && i < windows@.len()
                && windows@[i as int].id == id,
            None => first_window_index(windows@, id) == -1,
        },
{
    let mut i: usize = 0;
    while i < windows.len()
        invariant
            i <= windows@.len(),
            forall|j: int| 0 <= j < i ==> windows@[j].id != id,
        decreases windows@.len() - i,
    {
        if windows[i].id == id {
            proof {
                lemma_first_window_index(windows@, id);
            }
            return Some(i);
        }
        i += 1;
    }
    proof {
        lemma_first_window_index(windows@, id);
    }
    None
}

} // verus!
