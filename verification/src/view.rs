//! The plugin's view and the frame through which it asks to be resized.

use vstd::prelude::*;
use vstd::view::View as _;
use vstd::string::*;
use crate::base::{kResultOk, kResultTrue, tresult};
use crate::error::{Error, ErrorKind};
use crate::utils::Size;

verus! {

/// A rectangle as the plugin's view reports it.
#[derive(Clone, Copy, Debug, PartialEq, Eq, Structural)]
pub struct ViewRect {
    pub left: i32,
    pub top: i32,
    pub right: i32,
    pub bottom: i32,
}

impl Default for ViewRect {
    fn default() -> (r: Self)
        ensures
            r == (ViewRect { left: 0, top: 0, right: 0, bottom: 0 }),
    {
        ViewRect { left: 0, top: 0, right: 0, bottom: 0 }
    }
}

/// Whether two rectangles have the same edges.
pub fn is_equal(a: &ViewRect, b: &ViewRect) -> (r: bool)
    ensures
        r == (*a == *b),
{
    a.left == b.left && a.top == b.top && a.right == b.right && a.bottom == b.bottom
}

/// One thing asked of the plugin's view.
#[derive(Clone, Copy, Debug, PartialEq, Eq, Structural)]
pub enum ViewCall {
    /// Hand the frame to the view, or take it back.
    SetFrame(bool),
    /// Attach the view to the window.
    Attached,
    /// Remove the view from its window.
    Removed,
    /// Tell the view its new size.
    OnSize(ViewRect),
    /// Release the view.
    Release,
}

/// The callback object through which the view asks the window to resize
/// it. A request that arrives while another is being answered is not
/// handled again.
pub struct PlugFrame {
    attached: bool,
    recursion_guard: bool,
}

impl PlugFrame {
    pub closed spec fn attached(&self) -> bool {
        self.attached
    }

    pub closed spec fn busy(&self) -> bool {
        self.recursion_guard
    }

    pub fn new() -> (f: Box<Self>)
        ensures
            !f.attached(),
            !f.busy(),
    {
        Box::new(Self { attached: false, recursion_guard: false })
    }

    /// Remembers that the view sits in a window.
    pub fn attach(&mut self)
        ensures
            final(self).attached(),
            final(self).busy() == old(self).busy(),
    {
        self.attached = true;
    }

    /// Forgets the window.
    pub fn detach(&mut self)
        ensures
            !final(self).attached(),
            final(self).busy() == old(self).busy(),
    {
        self.attached = false;
    }

    /// Takes a resize request of the view. If no other request is being
    /// answered, the frame becomes busy and the request is to be handled:
    /// the answer says so. A request that arrives while the frame is busy is
    /// acknowledged and not handled.
    pub fn begin_resize(&mut self) -> (handle: bool)
        ensures
            handle == !old(self).busy(),
            final(self).busy(),
            final(self).attached() == old(self).attached(),
    {
        let handle = !self.recursion_guard;
        self.recursion_guard = true;
        handle
    }

    /// Concludes a resize request that was handled. With the size that the
    /// view reported, the answer is the size to post to the window, if the
    /// view sits in one; the status for the view is always success.
    pub fn resize_view(&mut self, size: ViewRect) -> (r: (tresult, Option<Size>))
        requires
            i32::MIN <= size.right - size.left <= i32::MAX,
            i32::MIN <= size.bottom - size.top <= i32::MAX,
        ensures
            !final(self).busy(),
            final(self).attached() == old(self).attached(),
            r.0 == kResultOk,
            r.1 == if old(self).attached() {
                Some(Size { width: (size.right - size.left) as i32, height: (size.bottom - size.top) as i32 })
            } else {
                None
            },
    {
        let width = size.right - size.left;
        let height = size.bottom - size.top;
        self.recursion_guard = false;
        if self.attached {
            (kResultOk, Some(Size::new(width, height)))
        } else {
            (kResultOk, None)
        }
    }
}

/// The plugin's view together with its frame.
pub struct View {
    plug_frame: Box<PlugFrame>,
}

/// The rectangle of a size, at the origin.
pub open spec fn rect_of(width: i32, height: i32) -> ViewRect {
    ViewRect { left: 0, top: 0, right: width, bottom: height }
}

impl View {
    pub closed spec fn attached(&self) -> bool {
        self.plug_frame.attached()
    }

    /// Wraps a view that the controller created. The frame is to be handed
    /// to the view at once.
    pub fn new() -> (r: Result<(Self, ViewCall), Error>)
        ensures
            r matches Ok((view, call)) && !view.attached() && call == ViewCall::SetFrame(true),
    {
        Ok((Self { plug_frame: PlugFrame::new() }, ViewCall::SetFrame(true)))
    }

    /// The calls before the view is dropped: the frame is taken back.
    pub fn release(&mut self) -> (calls: Vec<ViewCall>)
        ensures
            final(self).attached() == old(self).attached(),
            calls@ == seq![ViewCall::SetFrame(false), ViewCall::Release],
    {
        let mut calls: Vec<ViewCall> = Vec::new();
        calls.push(ViewCall::SetFrame(false));
        calls.push(ViewCall::Release);
        calls
    }

    /// Records the answer to [`ViewCall::Attached`].
    pub fn attach(&mut self, status: tresult) -> (r: Result<(), Error>)
        ensures
            match r {
                Ok(()) => status == kResultOk && final(self).attached(),
                Err(e) => status != kResultOk && final(self).attached() == old(self).attached()
                    && e.is(ErrorKind::CallFailed, "failed to attach view to window"),
            },
    {
        if status != kResultOk {
            return Err(Error::new(ErrorKind::CallFailed, "failed to attach view to window"));
        }
        self.plug_frame.attach();
        Ok(())
    }

    /// Records the answer to [`ViewCall::Removed`]. The frame forgets the
    /// window whatever the view answered.
    pub fn detach(&mut self, status: tresult) -> (r: Result<(), Error>)
        ensures
            !final(self).attached(),
            match r {
                Ok(()) => status == kResultOk,
                Err(e) => status != kResultOk && e.is(
                    ErrorKind::CallFailed,
                    "failed to remove view to window",
                ),
            },
    {
        self.plug_frame.detach();
        if status != kResultOk {
            return Err(Error::new(ErrorKind::CallFailed, "failed to remove view to window"));
        }
        Ok(())
    }

    /// Whether the view said that it can be resized.
    pub fn can_resize(&self, status: tresult) -> (r: bool)
        ensures
            r == (status == kResultTrue),
    {
        status == kResultTrue
    }

    /// The size of the view: the right and bottom edges that it reported.
    pub fn get_size(&self, reported: ViewRect) -> (s: Size)
        ensures
            s == (Size { width: reported.right, height: reported.bottom }),
    {
        Size::new(reported.right, reported.bottom)
    }

    /// What to tell the view when the window has a new size: nothing if the
    /// view reported its size and has that size already, else the new
    /// rectangle.
    pub fn on_size(&self, width: i32, height: i32, old_status: tresult, old_size: ViewRect) -> (r: Result<Option<ViewCall>, Error>)
        ensures
            r matches Ok(call) && call == if old_status == kResultTrue && old_size == rect_of(
                width,
                height,
            ) {
                None
            } else {
                Some(ViewCall::OnSize(rect_of(width, height)))
            },
    {
        let new_size = ViewRect { left: 0, top: 0, right: width, bottom: height };
        if old_status == kResultTrue {
            if is_equal(&old_size, &new_size) {
                return Ok(None);
            }
        }
        Ok(Some(ViewCall::OnSize(new_size)))
    }

    /// The size that the view insists on, if it rejected the proposed size
    /// and its own size differs from it.
    pub fn constrain_size(&self, size: &Size, check_status: tresult, current: ViewRect) -> (r: Option<Size>)
        requires
            i32::MIN <= current.right - current.left <= i32::MAX,
            i32::MIN <= current.bottom - current.top <= i32::MAX,
        ensures
            r == if check_status != kResultTrue && (Size {
                width: (current.right - current.left) as i32,
                height: (current.bottom - current.top) as i32,
            }) != *size {
                Some(
                    Size {
                        width: (current.right - current.left) as i32,
                        height: (current.bottom - current.top) as i32,
                    },
                )
            } else {
                None
            },
    {
        if check_status != kResultTrue {
            let new_size = Size::new(current.right - current.left, current.bottom - current.top);
            if !new_size.equals(size) {
                return Some(new_size);
            }
        }
        None
    }
}

} // verus!
