//! Configuration for the cursor plugin: which image to show, how large, at
//! what offset and stacking order, and the marker types that tag the tracked
//! element and the camera whose window is followed.

use crate::ui::{Size, Val, Vec2, ZIndex};
use vstd::prelude::*;

verus! {

/// Default marker for the entity that serves as the user camera followed by
/// the fancy cursor.
#[derive(Clone, Copy, Debug, Default, PartialEq, Eq, Hash, Structural)]
pub struct UserCamera;

/// Default marker for the entity that serves as the custom cursor.
#[derive(Clone, Copy, Debug, Default, PartialEq, Eq, Hash, Structural)]
pub struct UserCursor;

/// Everything the two routines need to know: the image to draw, its display
/// size, a pixel offset added to the pointer position, the element's
/// stacking order, the marker placed on the created element, and (as a type
/// parameter) the marker of the camera to follow.
///
/// Immutable after construction; built fluently from [`CursorSettings::from_image`]
/// or [`CursorSettings::basic`].
#[derive(Debug)]
pub struct CursorSettings<Curs = UserCursor, Cam = UserCamera> {
    pub img_path: String,
    pub size: Size,
    pub render_offset: Vec2,
    pub z_index: ZIndex,
    pub cursor_marker: Curs,
    pub _phantom_camera: core::marker::PhantomData<Cam>,
}

impl<Curs, Cam> CursorSettings<Curs, Cam> {
    /// Replace the image path, keeping every other field.
    pub fn img_path(self, path: String) -> (s: Self)
        ensures
            s.img_path == path,
            s.size == self.size,
            s.render_offset == self.render_offset,
            s.z_index == self.z_index,
            s.cursor_marker == self.cursor_marker,
    {
        Self { img_path: path, ..self }
    }

    /// Replace the display size, keeping every other field.
    pub fn size(self, size: Size) -> (s: Self)
        ensures
            s.size == size,
            s.img_path == self.img_path,
            s.render_offset == self.render_offset,
            s.z_index == self.z_index,
            s.cursor_marker == self.cursor_marker,
    {
        Self { size, ..self }
    }

    /// Replace the pixel offset added to the pointer position, keeping every
    /// other field.
    pub fn render_offset(self, offset: Vec2) -> (s: Self)
        ensures
            s.render_offset == offset,
            s.img_path == self.img_path,
            s.size == self.size,
            s.z_index == self.z_index,
            s.cursor_marker == self.cursor_marker,
    {
        Self { render_offset: offset, ..self }
    }

    /// Replace the stacking order of the element, keeping every other field.
    pub fn z_index(self, z_index: ZIndex) -> (s: Self)
        ensures
            s.z_index == z_index,
            s.img_path == self.img_path,
            s.size == self.size,
            s.render_offset == self.render_offset,
            s.cursor_marker == self.cursor_marker,
    {
        Self { z_index, ..self }
    }

    /// Replace the marker placed on the created element, keeping every other
    /// field.
    pub fn cursor_marker(self, marker: Curs) -> (s: Self)
        ensures
            s.cursor_marker == marker,
            s.img_path == self.img_path,
            s.size == self.size,
            s.render_offset == self.render_offset,
            s.z_index == self.z_index,
    {
        Self { cursor_marker: marker, ..self }
    }
}

impl CursorSettings<UserCursor, UserCamera> {
    /// Settings for a cursor drawn from the given image: 36 by 36 pixels, no
    /// offset, global stacking order 15, tagged with the default markers.
    pub fn from_image(path: String) -> (s: Self)
        ensures
            s.img_path == path,
            s.size == (Size { width: Val::Px(36), height: Val::Px(36) }),
            s.render_offset == (Vec2 { x: 0, y: 0 }),
            s.z_index == ZIndex::Global(15),
            s.cursor_marker == UserCursor,
    {
        Self {
            img_path: path,
            size: Size::new(Val::Px(36), Val::Px(36)),
            render_offset: Vec2::zero(),
            z_index: ZIndex::Global(15),
            cursor_marker: UserCursor,
            _phantom_camera: core::marker::PhantomData,
        }
    }

    /// [`CursorSettings::from_image`] with the bundled default image.
    /// Alternative to type-parameter inference when only the default markers
    /// are wanted.
    pub fn basic() -> (s: Self)
        ensures
            s.img_path@ == "texture\\fancy cursor.png"@,
            s.size == (Size { width: Val::Px(36), height: Val::Px(36) }),
            s.render_offset == (Vec2 { x: 0, y: 0 }),
            s.z_index == ZIndex::Global(15),
            s.cursor_marker == UserCursor,
    {
        Self::from_image("texture\\fancy cursor.png".to_string())
    }
}

} // verus!
