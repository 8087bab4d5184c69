//! Where a queue lives and who asks for it.

use vstd::prelude::*;
use crate::types::MQEndpoint;

verus! {

/// The parts of an endpoint that locate a queue and identify the caller.
pub struct Options {
    pub hostname: String,
    pub port: String,
    pub qmgr: String,
    pub queue_name: String,
    pub app_user: String,
    pub app_pass: String,
}

impl Default for Options {
    /// Every field is the empty string.
    fn default() -> (options: Options)
        ensures
            options.hostname@ == Seq::<char>::empty(),
            options.port@ == Seq::<char>::empty(),
            options.qmgr@ == Seq::<char>::empty(),
            options.queue_name@ == Seq::<char>::empty(),
            options.app_user@ == Seq::<char>::empty(),
            options.app_pass@ == Seq::<char>::empty(),
    {
        Options {
            hostname: String::new(),
            port: String::new(),
            qmgr: String::new(),
            queue_name: String::new(),
            app_user: String::new(),
            app_pass: String::new(),
        }
    }
}

impl Options {
    /// Copies out of an endpoint what locates the queue and names the caller.
    pub fn of_endpoint(endpoint: &MQEndpoint) -> (options: Options)
        ensures
            options.hostname@ == endpoint@.host,
            options.port@ == endpoint@.port,
            options.qmgr@ == endpoint@.qmgr,
            options.queue_name@ == endpoint@.queue_name,
            options.app_user@ == endpoint@.app_user,
            options.app_pass@ == endpoint@.app_password,
    {
        Options {
            hostname: endpoint.host.clone(),
            port: endpoint.port.clone(),
            qmgr: endpoint.qmgr.clone(),
            queue_name: endpoint.queue_name.clone(),
            app_user: endpoint.app_user.clone(),
            app_pass: endpoint.app_password.clone(),
        }
    }

    /// Hands out the host name for writing; the other fields stay as they are.
    pub fn hostname_mut(&mut self) -> (field: &mut String)
        ensures
            *field == old(self).hostname,
            *final(self) == (Options { hostname: *final(field), ..*old(self) }),
    {
        &mut self.hostname
    }

    /// Hands out the port for writing; the other fields stay as they are.
    pub fn port_mut(&mut self) -> (field: &mut String)
        ensures
            *field == old(self).port,
            *final(self) == (Options { port: *final(field), ..*old(self) }),
    {
        &mut self.port
    }

    /// Hands out the queue manager's name for writing; the other fields stay as they are.
    pub fn qmgr_mut(&mut self) -> (field: &mut String)
        ensures
            *field == old(self).qmgr,
            *final(self) == (Options { qmgr: *final(field), ..*old(self) }),
    {
        &mut self.qmgr
    }

    /// Hands out the queue's name for writing; the other fields stay as they are.
    pub fn queue_name_mut(&mut self) -> (field: &mut String)
        ensures
            *field == old(self).queue_name,
            *final(self) == (Options { queue_name: *final(field), ..*old(self) }),
    {
        &mut self.queue_name
    }

    /// Hands out the user name for writing; the other fields stay as they are.
    pub fn app_user_mut(&mut self) -> (field: &mut String)
        ensures
            *field == old(self).app_user,
            *final(self) == (Options { app_user: *final(field), ..*old(self) }),
    {
        &mut self.app_user
    }

    /// Hands out the password for writing; the other fields stay as they are.
    pub fn app_pass_mut(&mut self) -> (field: &mut String)
        ensures
            *field == old(self).app_pass,
            *final(self) == (Options { app_pass: *final(field), ..*old(self) }),
    {
        &mut self.app_pass
    }
}

} // verus!
