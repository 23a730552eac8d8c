//! The host as the plugin sees it.

use vstd::prelude::*;
use vstd::string::*;
use crate::base::{kResultFalse, kResultOk, tresult};
use crate::error::{Error, ErrorKind};
use crate::text::{encode_terminated, terminated, utf16_encoded};

verus! {

/// The name by which the host introduces itself.
pub const HOST_NAME: &'static str = "Keystone";

/// The number of UTF-16 units in the buffer that a plugin offers for a name.
pub const NAME_CAPACITY: usize = 128;

/// The callback object that is handed to the plugin as its host context.
pub struct HostApplication {}

impl HostApplication {
    pub fn new() -> (h: Box<Self>) {
        Box::new(Self {  })
    }

    /// Answers the plugin's question for the name of the host: the units to
    /// write into the plugin's buffer, terminator included.
    pub fn get_name(&self) -> (r: (tresult, Vec<u16>))
        ensures
            r.0 == kResultOk,
            r.1@ == terminated(utf16_encoded(HOST_NAME@), NAME_CAPACITY as int),
    {
        (kResultOk, encode_terminated(HOST_NAME, NAME_CAPACITY))
    }

    /// The host creates no objects for the plugin.
    pub fn create_instance(&self) -> (status: tresult)
        ensures
            status == kResultFalse,
    {
        kResultFalse
    }

    /// The host claims support for none of the optional plugin interfaces.
    pub fn is_pluginterface_supported(&self) -> (status: tresult)
        ensures
            status == kResultFalse,
    {
        kResultFalse
    }

    /// Judges the answer to the query for the host's own base interface,
    /// which is what a plugin is initialized with.
    pub fn get_context(&self, status: tresult) -> (r: Result<(), Error>)
        ensures
            match r {
                Ok(()) => status == kResultOk,
                Err(e) => status != kResultOk && e.is(
                    ErrorKind::InterfaceNotSupported,
                    "unable to get host context",
                ),
            },
    {
        if status != kResultOk {
            return Err(Error::new(ErrorKind::InterfaceNotSupported, "unable to get host context"));
        }
        Ok(())
    }
}

/// The host side of a session.
pub struct Host {
    host_application: Box<HostApplication>,
}

impl Host {
    pub fn new() -> (r: Result<Self, Error>)
        ensures
            r is Ok,
    {
        Ok(Self { host_application: HostApplication::new() })
    }

    /// The host holds nothing that needs to be given up.
    pub fn dispose(&mut self)
        ensures
            *final(self) == *old(self),
    {
    }

    /// The callback object of this host.
    pub fn application(&self) -> (h: &HostApplication) {
        &*self.host_application
    }

    /// Judges the answer to the query for the host context.
    pub fn get_context(&self, status: tresult) -> (r: Result<(), Error>)
        ensures
            match r {
                Ok(()) => status == kResultOk,
                Err(e) => status != kResultOk && e.is(
                    ErrorKind::InterfaceNotSupported,
                    "unable to get host context",
                ),
            },
    {
        self.host_application.get_context(status)
    }
}

} // verus!
