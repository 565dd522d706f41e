//! A host-level transfer: a command and, optionally, the data that goes
//! with it.

use vstd::prelude::*;

use super::constants::{MCIHostCmdType, MCIHostResponseType};

verus! {

/// The data part of a transfer.
#[derive(Debug, Clone)]
pub struct MCIHostData {
    /// A stream transfer rather than a block transfer.
    pub stream_transfer: bool,
    pub enable_auto_command12: bool,
    pub enable_auto_command23: bool,
    /// Move all data even when an error occurs.
    pub enable_ignore_error: bool,
    /// Normal, tuning or boot data.
    pub data_type: u8,
    pub block_size: usize,
    pub block_count: u32,
    /// Buffer the card's data is read into.
    pub rx_data: Option<Vec<u32>>,
    /// Data written to the card.
    pub tx_data: Option<Vec<u32>>,
}

impl MCIHostData {
    /// No data: every flag off, no block, no buffer.
    pub fn new() -> (r: Self)
        ensures
            !r.stream_transfer,
            !r.enable_auto_command12,
            !r.enable_auto_command23,
            !r.enable_ignore_error,
            r.data_type == 0,
            r.block_size == 0,
            r.block_count == 0,
            r.rx_data is None,
            r.tx_data is None,
    {
        MCIHostData {
            stream_transfer: false,
            enable_auto_command12: false,
            enable_auto_command23: false,
            enable_ignore_error: false,
            data_type: 0,
            block_size: 0,
            block_count: 0,
            rx_data: None,
            tx_data: None,
        }
    }

    pub fn stream_transfer(&self) -> (r: bool)
        ensures
            r == self.stream_transfer,
    {
        self.stream_transfer
    }

    pub fn enable_auto_command12(&self) -> (r: bool)
        ensures
            r == self.enable_auto_command12,
    {
        self.enable_auto_command12
    }

    pub fn enable_auto_command12_set(&mut self, enable_auto_command12: bool)
        ensures
            *final(self) == (MCIHostData { enable_auto_command12, ..*old(self) }),
    {
        self.enable_auto_command12 = enable_auto_command12
    }

    pub fn enable_auto_command23(&self) -> (r: bool)
        ensures
            r == self.enable_auto_command23,
    {
        self.enable_auto_command23
    }

    pub fn enable_ignore_error(&self) -> (r: bool)
        ensures
            r == self.enable_ignore_error,
    {
        self.enable_ignore_error
    }

    pub fn data_type(&self) -> (r: u8)
        ensures
            r == self.data_type,
    {
        self.data_type
    }

    pub fn block_size(&self) -> (r: usize)
        ensures
            r == self.block_size,
    {
        self.block_size
    }

    pub fn block_size_set(&mut self, block_size: usize)
        ensures
            *final(self) == (MCIHostData { block_size, ..*old(self) }),
    {
        self.block_size = block_size;
    }

    pub fn block_count(&self) -> (r: u32)
        ensures
            r == self.block_count,
    {
        self.block_count
    }

    pub fn block_count_set(&mut self, block_count: u32)
        ensures
            *final(self) == (MCIHostData { block_count, ..*old(self) }),
    {
        self.block_count = block_count;
    }

    pub fn rx_data(&self) -> (r: Option<&Vec<u32>>)
        ensures
            r matches Some(v) ==> self.rx_data == Some(*v),
            r is None <==> self.rx_data is None,
    {
        self.rx_data.as_ref()
    }

    pub fn rx_data_set(&mut self, rx_data: Option<Vec<u32>>)
        ensures
            *final(self) == (MCIHostData { rx_data, ..*old(self) }),
    {
        self.rx_data = rx_data
    }

    /// Take the receive buffer out, leaving none.
    pub fn rx_data_take(&mut self) -> (r: Option<Vec<u32>>)
        ensures
            r == old(self).rx_data,
            *final(self) == (MCIHostData { rx_data: None, ..*old(self) }),
    {
        let r = self.rx_data.take();
        r
    }

    pub fn tx_data(&self) -> (r: Option<&Vec<u32>>)
        ensures
            r matches Some(v) ==> self.tx_data == Some(*v),
            r is None <==> self.tx_data is None,
    {
        self.tx_data.as_ref()
    }

    pub fn tx_data_set(&mut self, tx_data: Option<Vec<u32>>)
        ensures
            *final(self) == (MCIHostData { tx_data, ..*old(self) }),
    {
        self.tx_data = tx_data
    }

    /// Take the transmit buffer out, leaving none.
    pub fn tx_data_take(&mut self) -> (r: Option<Vec<u32>>)
        ensures
            r == old(self).tx_data,
            *final(self) == (MCIHostData { tx_data: None, ..*old(self) }),
    {
        let r = self.tx_data.take();
        r
    }
}

/// A command of a transfer and the response it got.
#[derive(Debug, Clone, Copy)]
pub struct MCIHostCmd {
    pub index: u32,
    pub argument: u32,
    pub cmd_type: MCIHostCmdType,
    pub response_type: MCIHostResponseType,
    pub response: [u32; 4],
    /// Status bits of the response that count as errors.
    pub response_error_flags: u32,
    pub flags: u32,
}

impl MCIHostCmd {
    /// Command 0 with no argument, normal, expecting no response.
    pub fn new() -> (r: Self)
        ensures
            r.index == 0,
            r.argument == 0,
            r.cmd_type == MCIHostCmdType::Normal,
            r.response_type == MCIHostResponseType::NoResponse,
            r.response@ == seq![0u32, 0, 0, 0],
            r.response_error_flags == 0,
            r.flags == 0,
    {
        MCIHostCmd {
            index: 0,
            argument: 0,
            cmd_type: MCIHostCmdType::Normal,
            response_type: MCIHostResponseType::NoResponse,
            response: [0, 0, 0, 0],
            response_error_flags: 0,
            flags: 0,
        }
    }

    pub fn index(&self) -> (r: u32)
        ensures
            r == self.index,
    {
        self.index
    }

    pub fn index_set(&mut self, index: u32)
        ensures
            *final(self) == (MCIHostCmd { index, ..*old(self) }),
    {
        self.index = index
    }

    pub fn argument(&self) -> (r: u32)
        ensures
            r == self.argument,
    {
        self.argument
    }

    pub fn argument_set(&mut self, argument: u32)
        ensures
            *final(self) == (MCIHostCmd { argument, ..*old(self) }),
    {
        self.argument = argument
    }

    pub fn cmd_type(&self) -> (r: MCIHostCmdType)
        ensures
            r == self.cmd_type,
    {
        self.cmd_type
    }

    pub fn cmd_type_set(&mut self, cmd_type: MCIHostCmdType)
        ensures
            *final(self) == (MCIHostCmd { cmd_type, ..*old(self) }),
    {
        self.cmd_type = cmd_type
    }

    pub fn response_type(&self) -> (r: MCIHostResponseType)
        ensures
            r == self.response_type,
    {
        self.response_type
    }

    pub fn response_type_set(&mut self, response_type: MCIHostResponseType)
        ensures
            *final(self) == (MCIHostCmd { response_type, ..*old(self) }),
    {
        self.response_type = response_type
    }

    pub fn response(&self) -> (r: &[u32; 4])
        ensures
            *r == self.response,
    {
        &self.response
    }

    /// Replace the response words.
    pub fn response_set(&mut self, response: [u32; 4])
        ensures
            *final(self) == (MCIHostCmd { response, ..*old(self) }),
    {
        self.response = response
    }

    pub fn response_error_flags(&self) -> (r: u32)
        ensures
            r == self.response_error_flags,
    {
        self.response_error_flags
    }

    pub fn response_error_flags_set(&mut self, flags: u32)
        ensures
            *final(self) == (MCIHostCmd { response_error_flags: flags, ..*old(self) }),
    {
        self.response_error_flags = flags
    }

    pub fn flags(&self) -> (r: u32)
        ensures
            r == self.flags,
    {
        self.flags
    }
}

/// A command and its optional data.
#[derive(Debug, Clone)]
pub struct MCIHostTransfer {
    pub data: Option<MCIHostData>,
    pub cmd: Option<MCIHostCmd>,
}

impl MCIHostTransfer {
    /// A transfer with neither command nor data.
    pub fn new() -> (r: Self)
        ensures
            r.data is None,
            r.cmd is None,
    {
        MCIHostTransfer { data: None, cmd: None }
    }

    pub fn data(&self) -> (r: Option<&MCIHostData>)
        ensures
            r matches Some(d) ==> self.data == Some(*d),
            r is None <==> self.data is None,
    {
        self.data.as_ref()
    }

    pub fn set_data(&mut self, data: Option<MCIHostData>)
        ensures
            final(self).data == data,
            final(self).cmd == old(self).cmd,
    {
        self.data = data
    }

    pub fn cmd(&self) -> (r: Option<&MCIHostCmd>)
        ensures
            r matches Some(c) ==> self.cmd == Some(*c),
            r is None <==> self.cmd is None,
    {
        self.cmd.as_ref()
    }

    pub fn set_cmd(&mut self, cmd: Option<MCIHostCmd>)
        ensures
            final(self).cmd == cmd,
            final(self).data == old(self).data,
    {
        self.cmd = cmd
    }
}

} // verus!
