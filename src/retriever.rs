use vstd::prelude::*;

verus! {

/// Keeps an integer that a polling loop refreshes from a back-end: the command
/// to send, where, and how often, with a stop signal that is armed once.
pub struct I64Retriever {
    pub data: i64,
    pub address: String,
    pub cmd: Vec<String>,
    pub interval_ms: u64,
    /// The sending half of the stop signal is still here.
    pub stop_signal_sender: bool,
    /// The receiving half of the stop signal is still here: the loop has not started.
    pub stop_signal_receiver: bool,
}

impl I64Retriever {
    pub fn new(init_data: i64, address: String, cmd: Vec<String>, interval_ms: u64) -> (r: Self)
        ensures
            r.data == init_data,
            r.address == address,
            r.cmd == cmd,
            r.interval_ms == interval_ms,
            r.stop_signal_sender,
            r.stop_signal_receiver,
    {
        I64Retriever {
            data: init_data,
            address,
            cmd,
            interval_ms,
            stop_signal_sender: true,
            stop_signal_receiver: true,
        }
    }

    pub fn get_data(&self) -> (r: i64)
        ensures
            r == self.data,
    {
        self.data
    }

    /// Stores what the polling loop read.
    pub fn set_data(&mut self, data: i64)
        ensures
            final(self).data == data,
            final(self).stop_signal_sender == old(self).stop_signal_sender,
            final(self).stop_signal_receiver == old(self).stop_signal_receiver,
    {
        self.data = data;
    }

    /// Takes the receiving half of the stop signal: true the first time only,
    /// and the polling loop runs only then.
    pub fn start(&mut self) -> (r: bool)
        ensures
            r == old(self).stop_signal_receiver,
            !final(self).stop_signal_receiver,
            final(self).stop_signal_sender == old(self).stop_signal_sender,
            final(self).data == old(self).data,
    {
        if self.stop_signal_receiver {
            self.stop_signal_receiver = false;
            true
        } else {
            false
        }
    }

    /// Takes the sending half of the stop signal: true the first time only.
    pub fn try_stop(&mut self) -> (r: bool)
        ensures
            r == old(self).stop_signal_sender,
            !final(self).stop_signal_sender,
            final(self).stop_signal_receiver == old(self).stop_signal_receiver,
            final(self).data == old(self).data,
    {
        if self.stop_signal_sender {
            self.stop_signal_sender = false;
            true
        } else {
            false
        }
    }

    /// As `try_stop`.
    pub fn stop(&mut self) -> (r: bool)
        ensures
            r == old(self).stop_signal_sender,
            !final(self).stop_signal_sender,
            final(self).stop_signal_receiver == old(self).stop_signal_receiver,
            final(self).data == old(self).data,
    {
        self.try_stop()
    }
}

} // verus!
