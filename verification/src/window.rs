//! The host window as far as the session decides on it: which view it
//! shows, how window and view agree on a size, and what becomes of the
//! messages that the window system delivers.

use vstd::prelude::*;
use vstd::string::*;
use vstd::view::View as _;
use crate::error::{Error, ErrorKind};
use crate::utils::Size;
use crate::view::{View, ViewCall};

verus! {

/// Whether a view that can be resized is fitted to the window, rather than
/// the window to the view.
pub const ENABLE_VIEW_RESIZE: bool = true;

/// The smallest extent of a view, in either direction, to which the window
/// is fitted.
pub const MIN_VIEW_EXTENT: i32 = 16;

/// The messages of the window system that the window answers itself.
#[derive(Clone, Copy, Debug, PartialEq, Eq, Structural)]
pub enum Message {
    Create,
    EraseBackground,
    Paint,
    Size,
    Sizing,
    ViewResize,
    GetDpiScaledSize,
    DpiChanged,
    Close,
    Destroy,
    Timer,
    Other,
}

/// The number of the message that is sent when the window is created.
pub const WM_CREATE: u32 = 0x0001;

/// The number of the message that is sent when the window is destroyed.
pub const WM_DESTROY: u32 = 0x0002;

/// The number of the message that is sent after the window changed its size.
pub const WM_SIZE: u32 = 0x0005;

/// The number of the message that asks the window to paint itself.
pub const WM_PAINT: u32 = 0x000F;

/// The number of the message that asks the window to close.
pub const WM_CLOSE: u32 = 0x0010;

/// The number of the message that asks the window to erase its background.
pub const WM_ERASEBKGND: u32 = 0x0014;

/// The number of the message that a timer sends.
pub const WM_TIMER: u32 = 0x0113;

/// The number of the message that is sent while the user drags the border.
pub const WM_SIZING: u32 = 0x0214;

/// The number of the message that is sent after the resolution changed.
pub const WM_DPICHANGED: u32 = 0x02E0;

/// The number of the message that asks for the size at a new resolution.
pub const WM_GETDPISCALEDSIZE: u32 = 0x02E4;

/// The number of the message by which the view's frame asks for a new size.
pub const WM_USER_VIEW_RESIZE: u32 = 0x0401;

/// The message that a number stands for.
pub open spec fn message_of(number: u32) -> Message {
    if number == WM_CREATE {
        Message::Create
    } else if number == WM_ERASEBKGND {
        Message::EraseBackground
    } else if number == WM_PAINT {
        Message::Paint
    } else if number == WM_SIZE {
        Message::Size
    } else if number == WM_SIZING {
        Message::Sizing
    } else if number == WM_USER_VIEW_RESIZE {
        Message::ViewResize
    } else if number == WM_GETDPISCALEDSIZE {
        Message::GetDpiScaledSize
    } else if number == WM_DPICHANGED {
        Message::DpiChanged
    } else if number == WM_CLOSE {
        Message::Close
    } else if number == WM_DESTROY {
        Message::Destroy
    } else if number == WM_TIMER {
        Message::Timer
    } else {
        Message::Other
    }
}

/// What the window does about a message.
#[derive(Clone, Copy, Debug, PartialEq, Eq, Structural)]
pub enum Action {
    /// Leave the message to the window system's default handling.
    Default,
    /// Answer the message with this result and do nothing else.
    Answer(isize),
    /// Paint the window.
    Paint,
    /// Tell the view the new size of the client area.
    ResizeView,
    /// Let the view constrain the rectangle that the user drags.
    ConstrainSizing,
    /// Resize the window to the size that the view asked for.
    ResizeWindow(i32, i32),
    /// Tell the view the scale factor of the new resolution.
    ScaleForDpi,
    /// As [`Action::ScaleForDpi`], then answer that a size is proposed.
    ScaleForDpiAndPropose,
    /// Move the window to the rectangle that the window system suggests.
    ApplySuggestedRect,
    /// Tell the view the scale factor of the window's resolution.
    ScaleForWindow,
    /// Detach the view and destroy the window.
    CloseWindow,
    /// Forget the window and end the message loop.
    Quit,
}

/// One thing asked of the window system.
#[derive(Clone, Copy, Debug, PartialEq, Eq, Structural)]
pub enum WindowCall {
    /// Show the window.
    Show,
    /// Stop the window's timer.
    StopTimer,
    /// Release what the painter holds.
    DisposePainter,
    /// Close the window.
    Close,
    /// Run the message loop until the window is gone.
    EventLoop,
    /// A call on the view that the window shows.
    View(ViewCall),
}

/// How window and view agree on a size when a view is attached.
#[derive(Clone, Copy, Debug, PartialEq, Eq, Structural)]
pub enum Fit {
    /// The view takes the size of the window's client area.
    ViewToWindow(i32, i32),
    /// The window takes the size of the view.
    WindowToView(i32, i32),
    /// Both keep their size.
    Keep,
}

/// The host window.
pub struct Window {
    pub hwnd: bool,
    pub view: Option<View>,
    pub dpi_changing: bool,
    pub dpi_changed_size: Size,
}

/// The calls that take a view out of its window: it is told that it is
/// removed, gives back the frame, and is released.
pub open spec fn detach_calls(has_view: bool) -> Seq<WindowCall> {
    if has_view {
        seq![
            WindowCall::View(ViewCall::Removed),
            WindowCall::View(ViewCall::SetFrame(false)),
            WindowCall::View(ViewCall::Release),
        ]
    } else {
        seq![]
    }
}

/// The calls that close a window whose handle is valid: the timer is
/// stopped, the view is taken out, the painter is released and the window
/// is closed.
pub open spec fn window_close_calls(has_view: bool) -> Seq<WindowCall> {
    seq![WindowCall::StopTimer] + detach_calls(has_view) + seq![
        WindowCall::DisposePainter,
        WindowCall::Close,
    ]
}

/// The low sixteen bits of a word.
pub fn lo_word(l: u32) -> (w: u16)
    ensures
        w == l % 0x1_0000,
{
    (l % 0x1_0000) as u16
}

/// The high sixteen bits of a word.
pub fn hi_word(l: u32) -> (w: u16)
    ensures
        w == l / 0x1_0000,
{
    (l / 0x1_0000) as u16
}

/// The low eight bits of a half word.
pub fn lo_byte(l: u16) -> (b: u8)
    ensures
        b == l % 0x100,
{
    (l % 0x100) as u8
}

/// The high eight bits of a half word.
pub fn hi_byte(l: u16) -> (b: u8)
    ensures
        b == l / 0x100,
{
    (l / 0x100) as u8
}

impl Window {
    /// Wraps the window that the window system created, if it created one.
    pub fn new(created: bool) -> (r: Result<Box<Self>, Error>)
        ensures
            match r {
                Ok(w) => created && w.hwnd && w.view is None && !w.dpi_changing
                    && w.dpi_changed_size == (Size { width: 0, height: 0 }),
                Err(e) => !created && e.is(ErrorKind::CreationFailed, "failed to create window"),
            },
    {
        if !created {
            return Err(Error::new(ErrorKind::CreationFailed, "failed to create window"));
        }
        Ok(
            Box::new(
                Self {
                    hwnd: true,
                    view: None,
                    dpi_changing: false,
                    dpi_changed_size: Size::new(0, 0),
                },
            ),
        )
    }

    /// Whether the window's handle is valid.
    pub fn handle(&self) -> (h: bool)
        ensures
            h == self.hwnd,
    {
        self.hwnd
    }

    /// Judges whether the timer can be stopped: only a window with a valid
    /// handle has one.
    pub fn stop_timer(&mut self) -> (r: Result<WindowCall, Error>)
        ensures
            *final(self) == *old(self),
            match r {
                Ok(call) => old(self).hwnd && call == WindowCall::StopTimer,
                Err(e) => !old(self).hwnd && e.is(
                    ErrorKind::PreconditionFailed,
                    "invalid window handle",
                ),
            },
    {
        if !self.hwnd {
            return Err(Error::new(ErrorKind::PreconditionFailed, "invalid window handle"));
        }
        Ok(WindowCall::StopTimer)
    }

    /// Takes the view out of the window. The calls to make are returned in
    /// their order; none if the window shows no view.
    pub fn detach_view(&mut self) -> (r: Result<Vec<WindowCall>, Error>)
        ensures
            final(self).view is None,
            final(self).hwnd == old(self).hwnd,
            final(self).dpi_changing == old(self).dpi_changing,
            final(self).dpi_changed_size == old(self).dpi_changed_size,
            r matches Ok(calls) && calls@ == detach_calls(old(self).view is Some),
    {
        let mut calls: Vec<WindowCall> = Vec::new();
        match self.view.take() {
            Some(_view) => {
                calls.push(WindowCall::View(ViewCall::Removed));
                calls.push(WindowCall::View(ViewCall::SetFrame(false)));
                calls.push(WindowCall::View(ViewCall::Release));
            },
            None => {},
        }
        assert(calls@ =~= detach_calls(old(self).view is Some));
        Ok(calls)
    }

    /// Closes the window. The calls to make are returned in their order; a
    /// window that was closed before asks for none.
    pub fn dispose(&mut self) -> (calls: Vec<WindowCall>)
        ensures
            !final(self).hwnd,
            final(self).view is None,
            calls@ == if old(self).hwnd {
                window_close_calls(old(self).view is Some)
            } else {
                detach_calls(old(self).view is Some)
            },
    {
        let mut calls: Vec<WindowCall> = Vec::new();
        if self.hwnd {
            calls.push(WindowCall::StopTimer);
        }
        match self.view.take() {
            Some(_view) => {
                calls.push(WindowCall::View(ViewCall::Removed));
                calls.push(WindowCall::View(ViewCall::SetFrame(false)));
                calls.push(WindowCall::View(ViewCall::Release));
            },
            None => {},
        }
        if self.hwnd {
            calls.push(WindowCall::DisposePainter);
            calls.push(WindowCall::Close);
            self.hwnd = false;
        }
        assert(calls@ =~= if old(self).hwnd {
            window_close_calls(old(self).view is Some)
        } else {
            detach_calls(old(self).view is Some)
        });
        calls
    }

    /// Takes an attached view into the window. A view that the window
    /// showed before has to be taken out first.
    pub fn attach_view(&mut self, view: View) -> (r: Result<(), Error>)
        ensures
            final(self).hwnd == old(self).hwnd,
            final(self).dpi_changing == old(self).dpi_changing,
            final(self).dpi_changed_size == old(self).dpi_changed_size,
            match r {
                Ok(()) => old(self).hwnd && old(self).view is None && final(self).view == Some(
                    view,
                ),
                Err(e) => final(self).view == old(self).view && e.kind
                    == ErrorKind::PreconditionFailed && !(old(self).hwnd && old(self).view is None),
            },
    {
        if !self.hwnd {
            return Err(Error::new(ErrorKind::PreconditionFailed, "invalid window handle"));
        }
        if self.view.is_some() {
            return Err(Error::new(ErrorKind::PreconditionFailed, "window already shows a view"));
        }
        self.view = Some(view);
        Ok(())
    }

    /// How window and view agree on a size once the view is attached: a
    /// view that can be resized takes the size of the client area; else the
    /// window takes the size of the view, unless the view is tiny.
    pub fn fit(can_resize: bool, client: Size, view_size: Size) -> (f: Fit)
        ensures
            f == if ENABLE_VIEW_RESIZE && can_resize {
                Fit::ViewToWindow(client.width, client.height)
            } else if view_size.width > MIN_VIEW_EXTENT && view_size.height > MIN_VIEW_EXTENT {
                Fit::WindowToView(view_size.width, view_size.height)
            } else {
                Fit::Keep
            },
    {
        if ENABLE_VIEW_RESIZE && can_resize {
            Fit::ViewToWindow(client.width, client.height)
        } else if view_size.width > MIN_VIEW_EXTENT && view_size.height > MIN_VIEW_EXTENT {
            Fit::WindowToView(view_size.width, view_size.height)
        } else {
            Fit::Keep
        }
    }

    /// Takes a request to give the client area a new size. While the
    /// resolution changes the size is only remembered. Otherwise the answer
    /// says whether the window has to be resized: it has, unless the client
    /// area has that size already.
    pub fn resize(&mut self, width: i32, height: i32, current: Size) -> (resize: bool)
        ensures
            final(self).hwnd == old(self).hwnd,
            final(self).view == old(self).view,
            final(self).dpi_changing == old(self).dpi_changing,
            final(self).dpi_changed_size == if old(self).dpi_changing {
                Size { width, height }
            } else {
                old(self).dpi_changed_size
            },
            resize == (!old(self).dpi_changing && current != (Size { width, height })),
    {
        if self.dpi_changing {
            self.dpi_changed_size.set(width, height);
            return false;
        }
        let new_size = Size::new(width, height);
        !new_size.equals(&current)
    }

    /// The rectangle that the user drags, as the view constrains it: its
    /// right and bottom edges, for an old and a new size of the window, the
    /// present size of the client area, and the size that the view insists
    /// on. The frame around the client area keeps its thickness.
    pub fn constrain_sizing(left: i32, top: i32, old_size: Size, client_size: Size, constraint: Size) -> (r: (i32, i32))
        requires
            i32::MIN <= old_size.width - client_size.width <= i32::MAX,
            i32::MIN <= old_size.height - client_size.height <= i32::MAX,
            i32::MIN <= left + constraint.width + (old_size.width - client_size.width) <= i32::MAX,
            i32::MIN <= left + constraint.width <= i32::MAX,
            i32::MIN <= top + constraint.height + (old_size.height - client_size.height) <= i32::MAX,
            i32::MIN <= top + constraint.height <= i32::MAX,
        ensures
            r.0 == left + constraint.width + (old_size.width - client_size.width),
            r.1 == top + constraint.height + (old_size.height - client_size.height),
    {
        let diff = Size::diff(&old_size, &client_size);
        (left + constraint.width + diff.width, top + constraint.height + diff.height)
    }

    /// Decides what to do about a message of the window system.
    ///
    /// `wparam` and `lparam` are the message's two parameters, cut to
    /// thirty-two bits where they carry a size.
    pub fn on_event(&mut self, message: u32, wparam: u32, lparam: u32) -> (action: Action)
        ensures
            final(self).hwnd == old(self).hwnd,
            final(self).view == old(self).view,
            final(self).dpi_changing == match message_of(message) {
                Message::GetDpiScaledSize => true,
                Message::DpiChanged => false,
                _ => old(self).dpi_changing,
            },
            final(self).dpi_changed_size == if message_of(message) == Message::DpiChanged && old(self).dpi_changing {
                Size { width: 0, height: 0 }
            } else {
                old(self).dpi_changed_size
            },
            action == match message_of(message) {
                Message::Create | Message::Other => Action::Default,
                Message::EraseBackground => Action::Answer(1),
                Message::Paint => Action::Paint,
                Message::Size => Action::ResizeView,
                Message::Sizing => Action::ConstrainSizing,
                Message::ViewResize => Action::ResizeWindow(wparam as i32, lparam as i32),
                Message::GetDpiScaledSize => if old(self).dpi_changed_size.width != 0 && old(self).dpi_changed_size.height != 0 {
                    Action::ScaleForDpiAndPropose
                } else {
                    Action::ScaleForDpi
                },
                Message::DpiChanged => if old(self).dpi_changing {
                    Action::ApplySuggestedRect
                } else {
                    Action::ScaleForWindow
                },
                Message::Close => Action::CloseWindow,
                Message::Destroy => Action::Quit,
                Message::Timer => Action::Answer(0),
            },
    {
        if message == WM_CREATE {
            Action::Default
        } else if message == WM_ERASEBKGND {
            Action::Answer(1)
        } else if message == WM_PAINT {
            Action::Paint
        } else if message == WM_SIZE {
            Action::ResizeView
        } else if message == WM_SIZING {
            Action::ConstrainSizing
        } else if message == WM_USER_VIEW_RESIZE {
            Action::ResizeWindow(
                #[verifier::truncate]
                (wparam as i32),
                #[verifier::truncate]
                (lparam as i32),
            )
        } else if message == WM_GETDPISCALEDSIZE {
            self.dpi_changing = true;
            if self.dpi_changed_size.width != 0 && self.dpi_changed_size.height != 0 {
                Action::ScaleForDpiAndPropose
            } else {
                Action::ScaleForDpi
            }
        } else if message == WM_DPICHANGED {
            if self.dpi_changing {
                self.dpi_changing = false;
                self.dpi_changed_size.zero();
                Action::ApplySuggestedRect
            } else {
                Action::ScaleForWindow
            }
        } else if message == WM_CLOSE {
            Action::CloseWindow
        } else if message == WM_DESTROY {
            Action::Quit
        } else if message == WM_TIMER {
            Action::Answer(0)
        } else {
            Action::Default
        }
    }
}

} // verus!
