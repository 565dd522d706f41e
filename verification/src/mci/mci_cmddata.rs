//! A command for the controller with its data and the response it got.

use vstd::prelude::*;

use super::mci_data::MCIData;

verus! {

/// A command, its argument, flags, optional data, and what came back.
#[derive(Debug, Clone)]
pub struct MCICmdData {
    pub cmdidx: u32,
    pub cmdarg: u32,
    pub response: [u32; 4],
    pub flag: u32,
    pub data: Option<MCIData>,
    pub success: bool,
}

impl MCICmdData {
    /// The empty command: index, argument, response and flags zero, no
    /// data, not succeeded.
    pub fn new() -> (r: Self)
        ensures
            r.cmdidx == 0,
            r.cmdarg == 0,
            r.response@ == seq![0u32, 0, 0, 0],
            r.flag == 0,
            r.data is None,
            !r.success,
    {
        MCICmdData { cmdidx: 0, cmdarg: 0, response: [0, 0, 0, 0], flag: 0, data: None, success: false }
    }

    /// Reset to the empty command.
    pub fn clear(&mut self)
        ensures
            final(self).cmdidx == 0,
            final(self).cmdarg == 0,
            final(self).response@ == seq![0u32, 0, 0, 0],
            final(self).flag == 0,
            final(self).data is None,
            !final(self).success,
    {
        self.cmdidx = 0;
        self.cmdarg = 0;
        self.response = [0, 0, 0, 0];
        self.flag = 0;
        self.data = None;
        self.success = false;
    }

    /// The command and its data went through.
    pub fn success(&self) -> (r: bool)
        ensures
            r == self.success,
    {
        self.success
    }

    /// Record whether the command went through.
    pub fn success_set(&mut self, success: bool)
        ensures
            *final(self) == (MCICmdData { success, ..*old(self) }),
    {
        self.success = success;
    }

    /// The command index.
    pub fn cmdidx(&self) -> (r: u32)
        ensures
            r == self.cmdidx,
    {
        self.cmdidx
    }

    /// Set the command index.
    pub fn cmdidx_set(&mut self, cmdidx: u32)
        ensures
            *final(self) == (MCICmdData { cmdidx, ..*old(self) }),
    {
        self.cmdidx = cmdidx;
    }

    /// The command argument.
    pub fn cmdarg(&self) -> (r: u32)
        ensures
            r == self.cmdarg,
    {
        self.cmdarg
    }

    /// Set the command argument.
    pub fn cmdarg_set(&mut self, cmdarg: u32)
        ensures
            *final(self) == (MCICmdData { cmdarg, ..*old(self) }),
    {
        self.cmdarg = cmdarg;
    }

    /// The command flags.
    pub fn flag(&self) -> (r: u32)
        ensures
            r == self.flag,
    {
        self.flag
    }

    /// Set the command flags.
    pub fn flag_set(&mut self, flag: u32)
        ensures
            *final(self) == (MCICmdData { flag, ..*old(self) }),
    {
        self.flag = flag
    }

    /// The four response words.
    pub fn get_response(&self) -> (r: &[u32; 4])
        ensures
            *r == self.response,
    {
        &self.response
    }

    /// The data, if any.
    pub fn get_data(&self) -> (r: Option<&MCIData>)
        ensures
            r matches Some(d) ==> self.data == Some(*d),
            r is None <==> self.data is None,
    {
        self.data.as_ref()
    }

    /// Replace the data.
    pub fn set_data(&mut self, data: Option<MCIData>)
        ensures
            *final(self) == (MCICmdData { data, ..*old(self) }),
    {
        self.data = data
    }
}

} // verus!
