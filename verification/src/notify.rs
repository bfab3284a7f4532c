//! One asynchronous notification, as it was taken from a connection's queue.

use crate::marshal::{as_raw, inbound_message, text_or_empty};
use vstd::prelude::*;

verus! {

/// A notification, as contracts see it.
pub ghost struct NotifyModel {
    pub relname: Option<Seq<u8>>,
    pub be_pid: i32,
    pub extra: Option<Seq<u8>>,
}

/// One notification: the channel it was raised on, the process id of the
/// backend that raised it, and its payload. The two texts are kept as the
/// bytes that came in, absent where the native side gave a null pointer. The
/// value stands for itself: it holds nothing of the connection it came from.
#[derive(Debug)]
pub struct PgNotify {
    relname: Option<Vec<u8>>,
    be_pid: i32,
    extra: Option<Vec<u8>>,
}

impl View for PgNotify {
    type V = NotifyModel;

    closed spec fn view(&self) -> NotifyModel {
        NotifyModel {
            relname: self.relname.deep_view(),
            be_pid: self.be_pid,
            extra: self.extra.deep_view(),
        }
    }
}

impl PgNotify {
    /// Puts together a notification from what was read off the native side.
    pub fn new(relname: Option<Vec<u8>>, be_pid: i32, extra: Option<Vec<u8>>) -> (n: PgNotify)
        ensures
            n@ == (NotifyModel {
                relname: relname.deep_view(),
                be_pid,
                extra: extra.deep_view(),
            }),
    {
        PgNotify { relname, be_pid, extra }
    }

    /// The name of the channel.
    pub fn relname(&self) -> (name: String)
        ensures
            name@ == inbound_message(self@.relname),
    {
        text_or_empty(as_raw(&self.relname))
    }

    /// The process id of the notifying backend.
    pub fn be_pid(&self) -> (pid: i32)
        ensures
            pid == self@.be_pid,
    {
        self.be_pid
    }

    /// The payload; empty where none was sent.
    pub fn extra(&self) -> (payload: String)
        ensures
            payload@ == inbound_message(self@.extra),
    {
        text_or_empty(as_raw(&self.extra))
    }
}

} // verus!
