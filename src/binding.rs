//! The binding discipline shared by every driver object.

use vstd::prelude::*;

verus! {

/// An object that is made current in the driver before use.
pub trait Bindable {
    fn bind(&self);

    fn unbind(&self);
}

/// An object that can issue its own draw call.
pub trait Drawable: Bindable {
    fn draw(&self);

    /// Binds the object, then draws it.
    fn draw_bind(&self) {
        self.bind();
        self.draw();
    }
}

/// A vertex array object.
pub trait VaoObject: Bindable {}

/// A vertex buffer object.
pub trait VboObject: Bindable {}

/// An element (index) buffer object.
pub trait EboObject: Bindable {}

/// A texture object.
pub trait TextureObject: Bindable {}

} // verus!
