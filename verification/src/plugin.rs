//! The cursor plugin itself: the one-time setup routine, the per-frame
//! update routine, and the laws proved of them.

use crate::scene::{
    CursorError, Scene, TrackedElement, WindowState, find_window, resolve_target,
    scene_window_index, window_resolvable,
};
use crate::settings::{CursorSettings, UserCamera, UserCursor};
use crate::ui::{Size, Val, Vec2, Visibility, ZIndex};
use vstd::pervasive::VecAdditionalExecFns;
use vstd::prelude::*;

verus! {

/// A freshly created tracked element: the configured size, stacking order
/// and image, its position left to the layout engine, and drawn.
pub open spec fn fresh_element<Curs, Cam>(
    e: TrackedElement,
    settings: CursorSettings<Curs, Cam>,
) -> bool {
    &&& e.size == settings.size
    &&& e.z_index == settings.z_index
    &&& e.image == settings.img_path
    &&& e.left == Val::Auto
    &&& e.top == Val::Auto
    &&& e.visibility == Visibility::Visible
}

/// The pose the update routine gives the element. With the pointer at `p`
/// (top-down window coordinates) in a window of the given height, the
/// element sits `p.x + offset.x` from the left edge and
/// `height - (p.y + offset.y)` from the top edge (the flip converts to
/// bottom-up UI coordinates), and is drawn. With the pointer absent, the
/// element is parked off-screen at (-100, -100) and hidden.
pub open spec fn pose_ok(
    e: TrackedElement,
    height: i32,
    offset: Vec2,
    pointer: Option<Vec2>,
) -> bool {
    match pointer {
        Some(p) => {
            &&& e.left matches Val::Px(l) && l == p.x + offset.x
            &&& e.top matches Val::Px(t) && t == height - (p.y + offset.y)
            &&& e.visibility == Visibility::Visible
        },
        None => {
            &&& e.left == Val::Px(-100i64)
            &&& e.top == Val::Px(-100i64)
            &&& e.visibility == Visibility::Hidden
        },
    }
}

/// One update step on the element: the layout fields set from the pointer as
/// [`pose_ok`] states, the identity fields kept.
pub open spec fn element_updated(
    pre: TrackedElement,
    post: TrackedElement,
    height: i32,
    offset: Vec2,
    pointer: Option<Vec2>,
) -> bool {
    &&& post.size == pre.size
    &&& post.z_index == pre.z_index
    &&& post.image == pre.image
    &&& pose_ok(post, height, offset, pointer)
}

/// A window with the operating-system cursor hidden, everything else kept.
pub open spec fn with_cursor_hidden(w: WindowState) -> WindowState {
    WindowState { cursor_visible: false, ..w }
}

/// What a successful setup does to the scene: cameras untouched, the
/// operating-system cursor hidden on the resolved window, and one fresh
/// tracked element appended.
pub open spec fn setup_transition<Curs, Cam>(
    pre: Scene,
    post: Scene,
    settings: CursorSettings<Curs, Cam>,
) -> bool {
    let i = scene_window_index(pre);
    &&& post.cameras@ == pre.cameras@
    &&& post.windows@ == pre.windows@.update(i, with_cursor_hidden(pre.windows@[i]))
    &&& post.elements@.len() == pre.elements@.len() + 1
    &&& post.elements@.drop_last() == pre.elements@
    &&& fresh_element(post.elements@.last(), settings)
}

/// What a successful update does to the scene: cameras and windows
/// untouched, and the single tracked element re-posed against the resolved
/// window's height and pointer reading.
pub open spec fn update_transition<Curs, Cam>(
    pre: Scene,
    post: Scene,
    settings: CursorSettings<Curs, Cam>,
) -> bool {
    let w = pre.windows@[scene_window_index(pre)];
    &&& post.cameras@ == pre.cameras@
    &&& post.windows@ == pre.windows@
    &&& post.elements@.len() == 1
    &&& element_updated(
        pre.elements@[0],
        post.elements@[0],
        w.height,
        settings.render_offset,
        w.pointer,
    )
}

/// The cursor plugin: the settings both routines read.
///
/// An entity carrying the `Cam` marker must exist — exactly one — before the
/// setup routine runs; the routines resolve that camera's render target to a
/// window each time they run, falling back to the primary window when the
/// target is not a window.
#[derive(Debug)]
pub struct FancyCursor<Curs = UserCursor, Cam = UserCamera> {
    pub settings: CursorSettings<Curs, Cam>,
}

impl<Curs, Cam> CursorSettings<Curs, Cam> {
    /// Wrap the settings into the plugin.
    pub fn build(self) -> (r: FancyCursor<Curs, Cam>)
        ensures
            r.settings == self,
    {
        FancyCursor { settings: self }
    }
}

impl<Curs, Cam> From<CursorSettings<Curs, Cam>> for FancyCursor<Curs, Cam> {
    fn from(settings: CursorSettings<Curs, Cam>) -> (r: Self) {
        FancyCursor { settings }
    }
}

impl<Curs, Cam> vstd::std_specs::convert::FromSpecImpl<CursorSettings<Curs, Cam>> for FancyCursor<Curs, Cam> {
    open spec fn obeys_from_spec() -> bool {
        true
    }

    open spec fn from_spec(settings: CursorSettings<Curs, Cam>) -> Self {
        FancyCursor { settings }
    }
}

impl FancyCursor<UserCursor, UserCamera> {
    /// Plugin for a cursor drawn from the given image, with the default
    /// settings otherwise.
    pub fn from_image(path: String) -> (r: Self)
        ensures
            r.settings.img_path == path,
            r.settings.size == (Size { width: Val::Px(36), height: Val::Px(36) }),
            r.settings.render_offset == (Vec2 { x: 0, y: 0 }),
            r.settings.z_index == ZIndex::Global(15),
            r.settings.cursor_marker == UserCursor,
    {
        CursorSettings::from_image(path).build()
    }
}

impl<Curs, Cam> FancyCursor<Curs, Cam> {
    /// The one-time setup routine. With exactly one tagged camera it hides
    /// the operating-system cursor on the camera's window and creates the
    /// tracked element from the settings; with zero or several tagged
    /// cameras it refuses with the matching cardinality error and leaves the
    /// scene untouched.
    pub fn create_setup(&self, scene: &mut Scene) -> (r: Result<(), CursorError>)
        requires
            window_resolvable(*old(scene)),
        ensures
            r is Ok <==> old(scene).cameras@.len() == 1,
            old(scene).cameras@.len() == 0 ==> r == Err::<(), CursorError>(CursorError::NoCamera),
            old(scene).cameras@.len() > 1 ==> r == Err::<(), CursorError>(
                CursorError::MultipleCameras,
            ),
            r is Err ==> *final(scene) == *old(scene),
            r is Ok ==> setup_transition(*old(scene), *final(scene), self.settings),
    {
        let id = match resolve_target(&scene.cameras) {
            Ok(id) => id,
            Err(e) => {
                return Err(e);
            },
        };
        let wi = find_window(&scene.windows, id).unwrap();
        let mut w = scene.windows[wi];
        w.cursor_visible = false;
        scene.windows.set(wi, w);
        scene.elements.push(
            TrackedElement {
                size: self.settings.size,
                z_index: self.settings.z_index,
                image: self.settings.img_path.clone(),
                left: Val::Auto,
                top: Val::Auto,
                visibility: Visibility::Visible,
            },
        );
        proof {
            assert(scene.elements@.drop_last() =~= old(scene).elements@);
        }
        Ok(())
    }

    /// The per-frame update routine. It re-resolves the tagged camera and
    /// its window exactly as the setup does, then moves the single tracked
    /// element to the window's pointer reading as [`pose_ok`] states. Zero
    /// or several tagged cameras, and zero or several tracked elements, are
    /// refused with the matching cardinality error, the scene untouched.
    /// A pointer outside the window is not an error: the element is parked
    /// off-screen and hidden.
    pub fn create_update(&self, scene: &mut Scene) -> (r: Result<(), CursorError>)
        requires
            window_resolvable(*old(scene)),
        ensures
            r is Ok <==> (old(scene).cameras@.len() == 1 && old(scene).elements@.len() == 1),
            old(scene).cameras@.len() == 0 ==> r == Err::<(), CursorError>(CursorError::NoCamera),
            old(scene).cameras@.len() > 1 ==> r == Err::<(), CursorError>(
                CursorError::MultipleCameras,
            ),
            old(scene).cameras@.len() == 1 && old(scene).elements@.len() == 0 ==> r == Err::<
                (),
                CursorError,
            >(CursorError::NoElement),
            old(scene).cameras@.len() == 1 && old(scene).elements@.len() > 1 ==> r == Err::<
                (),
                CursorError,
            >(CursorError::MultipleElements),
            r is Err ==> *final(scene) == *old(scene),
            r is Ok ==> update_transition(*old(scene), *final(scene), self.settings),
    {
        let id = match resolve_target(&scene.cameras) {
            Ok(id) => id,
            Err(e) => {
                return Err(e);
            },
        };
        let wi = find_window(&scene.windows, id).unwrap();
        if scene.elements.len() == 0 {
            return Err(CursorError::NoElement);
        }
        if scene.elements.len() > 1 {
            return Err(CursorError::MultipleElements);
        }
        let w = scene.windows[wi];
        let mut e = scene.elements.pop().unwrap();
        match w.pointer {
            Some(p) => {
                let left: i64 = p.x as i64 + self.settings.render_offset.x as i64;
                let top: i64 = w.height as i64 - (p.y as i64 + self.settings.render_offset.y
                    as i64);
                e.left = Val::Px(left);
                e.top = Val::Px(top);
                e.visibility = Visibility::Visible;
            },
            None => {
                e.left = Val::Px(-100);
                e.top = Val::Px(-100);
                e.visibility = Visibility::Hidden;
            },
        }
        scene.elements.push(e);
        Ok(())
    }
}

/// Law: one run of the setup on a scene that holds no tracked element yet
/// leaves exactly one tracked element, whatever the settings.
pub proof fn lemma_setup_creates_single_element<Curs, Cam>(
    pre: Scene,
    post: Scene,
    settings: CursorSettings<Curs, Cam>,
)
    requires
        pre.elements@.len() == 0,
        setup_transition(pre, post, settings),
    ensures
        post.elements@.len() == 1,
{
}

/// Law: the element's state after an update does not depend on its state
/// before it. Two updates against the same window height, offset and pointer
/// reading end in the same element, whatever the two prior poses were — in
/// particular, re-running the update with identical input changes nothing,
/// and a pointer reading of "absent" parks the element hidden at
/// (-100, -100) regardless of the prior frame.
pub proof fn lemma_update_independent_of_prior_state(
    pre1: TrackedElement,
    pre2: TrackedElement,
    post1: TrackedElement,
    post2: TrackedElement,
    height: i32,
    offset: Vec2,
    pointer: Option<Vec2>,
)
    requires
        pre1.size == pre2.size,
        pre1.z_index == pre2.z_index,
        pre1.image == pre2.image,
        element_updated(pre1, post1, height, offset, pointer),
        element_updated(pre2, post2, height, offset, pointer),
    ensures
        post1 == post2,
{
}

/// Law: changing only the stacking order in the settings changes only the
/// created element's stacking order; every other field of the fresh element
/// is the same. (The update routine reads the settings only through
/// `render_offset`, so no per-frame behaviour changes either: see
/// [`update_transition`].)
pub proof fn lemma_z_index_changes_only_stacking<Curs, Cam>(
    s1: CursorSettings<Curs, Cam>,
    s2: CursorSettings<Curs, Cam>,
    e1: TrackedElement,
    e2: TrackedElement,
)
    requires
        s1.img_path == s2.img_path,
        s1.size == s2.size,
        s1.render_offset == s2.render_offset,
        s1.cursor_marker == s2.cursor_marker,
        fresh_element(e1, s1),
        fresh_element(e2, s2),
    ensures
        e1.z_index == s1.z_index,
        e2.z_index == s2.z_index,
        e1.size == e2.size,
        e1.image == e2.image,
        e1.left == e2.left,
        e1.top == e2.top,
        e1.visibility == e2.visibility,
{
}

} // verus!
