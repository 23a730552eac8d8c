//! The parameter and user-interface capability of a plugin.

use vstd::prelude::*;
use vstd::view::View as _;
use vstd::string::*;
use crate::base::{kResultFalse, kResultOk, tresult};
use crate::error::{Error, ErrorKind};
use crate::text::{decode_utf16, encode_terminated, terminated, utf16_decoded, utf16_encoded};
use crate::view::{View, ViewCall};

verus! {

/// The number of UTF-16 units in a text buffer of the binary interface.
pub const STRING128_CAPACITY: usize = 128;

/// The callback object through which a controller reports edits. This host
/// takes no edits: every report is refused.
pub struct ComponentHandler {}

impl ComponentHandler {
    pub fn new() -> (h: Box<Self>) {
        Box::new(Self {  })
    }

    pub fn begin_edit(&self, _id: u32) -> (status: tresult)
        ensures
            status == kResultFalse,
    {
        kResultFalse
    }

    pub fn end_edit(&self, _id: u32) -> (status: tresult)
        ensures
            status == kResultFalse,
    {
        kResultFalse
    }

    /// The value is a double-precision number, given as its bit pattern.
    pub fn perform_edit(&self, _id: u32, _value_normalized: u64) -> (status: tresult)
        ensures
            status == kResultFalse,
    {
        kResultFalse
    }

    pub fn restart_component(&self, _flags: i32) -> (status: tresult)
        ensures
            status == kResultFalse,
    {
        kResultFalse
    }
}

/// One thing asked of an edit controller.
#[derive(Clone, Copy, Debug, PartialEq, Eq, Structural)]
pub enum ControllerCall {
    /// Initialize the controller with the host context.
    Initialize,
    /// Have the controller give up what it holds.
    Terminate,
    /// Ask the controller for its editor view.
    CreateView,
}

/// Metadata of one parameter. Texts are UTF-16 buffers of the binary
/// interface; the default value is a double-precision number, kept as its
/// bit pattern.
pub struct ParameterInfo {
    pub id: u32,
    pub title: Vec<u16>,
    pub short_title: Vec<u16>,
    pub units: Vec<u16>,
    pub step_count: i32,
    pub default_normalized_value: u64,
    pub unit_id: i32,
    pub flags: i32,
}

/// The edit controller of a component. `is_instance` says that the
/// controller is an object of its own, created beside the component, which
/// this host has to initialize and terminate; a controller that the
/// component itself implements shares the component's life.
pub struct EditController {
    pub component_handler: Box<ComponentHandler>,
    pub is_instance: bool,
}

/// The calls that terminate a controller: one, if it is an object of its own.
pub open spec fn terminate_calls(is_instance: bool) -> Seq<ControllerCall> {
    if is_instance {
        seq![ControllerCall::Terminate]
    } else {
        seq![]
    }
}

impl EditController {
    /// Wraps a controller: one that the component implements, or one that
    /// was created as an object of its own.
    pub fn new(is_instance: bool) -> (c: Self)
        ensures
            c.is_instance == is_instance,
    {
        Self { component_handler: ComponentHandler::new(), is_instance }
    }

    /// Records the answer to [`ControllerCall::Initialize`], which is made
    /// only for a controller that is an object of its own. For any other
    /// controller there is nothing to initialize and the answer is not
    /// looked at.
    pub fn initialize(&mut self, status: tresult) -> (r: Result<(), Error>)
        ensures
            final(self).is_instance == old(self).is_instance,
            match r {
                Ok(()) => !old(self).is_instance || status == kResultOk,
                Err(e) => old(self).is_instance && status != kResultOk && e.is(
                    ErrorKind::InitializationFailed,
                    "failed to initialize edit controller component",
                ),
            },
    {
        if !self.is_instance {
            return Ok(());
        }
        if status != kResultOk {
            return Err(
                Error::new(
                    ErrorKind::InitializationFailed,
                    "failed to initialize edit controller component",
                ),
            );
        }
        Ok(())
    }

    /// The calls that terminate the controller.
    pub fn terminate(&mut self) -> (r: Result<Vec<ControllerCall>, Error>)
        ensures
            final(self).is_instance == old(self).is_instance,
            r matches Ok(calls) && calls@ == terminate_calls(old(self).is_instance),
    {
        let mut calls: Vec<ControllerCall> = Vec::new();
        if self.is_instance {
            calls.push(ControllerCall::Terminate);
        }
        assert(calls@ =~= terminate_calls(self.is_instance));
        Ok(calls)
    }

    /// Gives the controller up: it is terminated if it is an object of its
    /// own. Afterwards nothing is left to terminate, so that giving it up
    /// again asks for nothing.
    pub fn dispose(&mut self) -> (calls: Vec<ControllerCall>)
        ensures
            !final(self).is_instance,
            calls@ == terminate_calls(old(self).is_instance),
    {
        let calls = match self.terminate() {
            Ok(calls) => calls,
            Err(_) => Vec::new(),
        };
        self.is_instance = false;
        calls
    }

    fn state_result(status: tresult) -> (r: Result<(), Error>)
        ensures
            match r {
                Ok(()) => status == kResultOk,
                Err(e) => status != kResultOk && e.is(
                    ErrorKind::CallFailed,
                    "failed to get edit controller state",
                ),
            },
    {
        if status != kResultOk {
            return Err(Error::new(ErrorKind::CallFailed, "failed to get edit controller state"));
        }
        Ok(())
    }

    /// Judges the controller's answer when it was given the component's state.
    pub fn set_component_state(&self, status: tresult) -> (r: Result<(), Error>)
        ensures
            match r {
                Ok(()) => status == kResultOk,
                Err(e) => status != kResultOk && e.is(
                    ErrorKind::CallFailed,
                    "failed to get edit controller state",
                ),
            },
    {
        Self::state_result(status)
    }

    /// Judges the controller's answer when it was given its own state.
    pub fn set_state(&self, status: tresult) -> (r: Result<(), Error>)
        ensures
            match r {
                Ok(()) => status == kResultOk,
                Err(e) => status != kResultOk && e.is(
                    ErrorKind::CallFailed,
                    "failed to get edit controller state",
                ),
            },
    {
        Self::state_result(status)
    }

    /// Judges the controller's answer when it was asked for its state.
    pub fn get_state(&self, status: tresult) -> (r: Result<(), Error>)
        ensures
            match r {
                Ok(()) => status == kResultOk,
                Err(e) => status != kResultOk && e.is(
                    ErrorKind::CallFailed,
                    "failed to get edit controller state",
                ),
            },
    {
        Self::state_result(status)
    }

    /// The metadata that the controller filled in, if it reported success.
    pub fn get_parameter_info(&self, status: tresult, info: ParameterInfo) -> (r: Result<ParameterInfo, Error>)
        ensures
            match r {
                Ok(i) => status == kResultOk && i == info,
                Err(e) => status != kResultOk && e.is(
                    ErrorKind::CallFailed,
                    "failed to get edit parameter info",
                ),
            },
    {
        if status != kResultOk {
            return Err(Error::new(ErrorKind::CallFailed, "failed to get edit parameter info"));
        }
        Ok(info)
    }

    /// The text that the controller wrote for a parameter value: all units
    /// of its buffer, decoded. A buffer that is no UTF-16 text is refused.
    pub fn get_param_string_by_value(&self, status: tresult, buffer: &Vec<u16>) -> (r: Result<String, Error>)
        ensures
            match r {
                Ok(s) => status == kResultOk && utf16_decoded(buffer@) == Some(s@),
                Err(e) => e.is(ErrorKind::CallFailed, "failed to get param string by value") && (
                status != kResultOk || utf16_decoded(buffer@) is None),
            },
    {
        if status != kResultOk {
            return Err(Error::new(ErrorKind::CallFailed, "failed to get param string by value"));
        }
        match decode_utf16(buffer.as_slice()) {
            Some(s) => Ok(s),
            None => Err(Error::new(ErrorKind::CallFailed, "failed to get param string by value")),
        }
    }

    /// The buffer in which a text is handed to the controller: its UTF-16
    /// units, cut to what the buffer holds, and NUL-terminated.
    pub fn param_string_buffer(s: &str) -> (buffer: Vec<u16>)
        ensures
            buffer@ == terminated(utf16_encoded(s@), STRING128_CAPACITY as int),
    {
        encode_terminated(s, STRING128_CAPACITY)
    }

    /// The value that the controller gave for a text, if it reported
    /// success. The value is a double-precision number, as its bit pattern.
    pub fn get_param_value_by_string(&self, status: tresult, value_normalized: u64) -> (r: Result<u64, Error>)
        ensures
            match r {
                Ok(v) => status == kResultOk && v == value_normalized,
                Err(e) => status != kResultOk && e.is(
                    ErrorKind::CallFailed,
                    "failed to get param value by string",
                ),
            },
    {
        if status != kResultOk {
            return Err(Error::new(ErrorKind::CallFailed, "failed to get param value by string"));
        }
        Ok(value_normalized)
    }

    /// Judges the controller's answer when a parameter was set.
    pub fn set_param_normalized(&self, status: tresult) -> (r: Result<(), Error>)
        ensures
            match r {
                Ok(()) => status == kResultOk,
                Err(e) => status != kResultOk && e.is(
                    ErrorKind::CallFailed,
                    "failed to set component handler",
                ),
            },
    {
        if status != kResultOk {
            return Err(Error::new(ErrorKind::CallFailed, "failed to set component handler"));
        }
        Ok(())
    }

    /// Judges the controller's answer when it was given the component handler.
    pub fn set_component_handler(&self, status: tresult) -> (r: Result<(), Error>)
        ensures
            match r {
                Ok(()) => status == kResultOk,
                Err(e) => status != kResultOk && e.is(
                    ErrorKind::CallFailed,
                    "failed to set component handler",
                ),
            },
    {
        if status != kResultOk {
            return Err(Error::new(ErrorKind::CallFailed, "failed to set component handler"));
        }
        Ok(())
    }

    /// Wraps the view that the controller created, if it created one. The
    /// call to make on the new view is returned beside it.
    pub fn create_view(&self, view_present: bool) -> (r: Result<(View, ViewCall), Error>)
        ensures
            match r {
                Ok((view, call)) => view_present && !view.attached() && call == ViewCall::SetFrame(
                    true,
                ),
                Err(e) => !view_present && e.is(ErrorKind::CreationFailed, "failed to create view"),
            },
    {
        if !view_present {
            return Err(Error::new(ErrorKind::CreationFailed, "failed to create view"));
        }
        View::new()
    }
}

} // verus!
