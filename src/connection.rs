//! The decisions of one connection's handler: reading until end of stream,
//! then reporting the decoded batch.
use vstd::prelude::*;
use vstd::string::StringExecFns;
use crate::user::{User, report_blocks};

verus! {

/// What one read from the connection gave.
pub enum ReadEvent {
    /// The text that the read returned; empty when the peer closed the stream.
    Received(String),
    /// The read failed; the description of the failure.
    Failed(String),
}

/// The text gathered so far from one connection.
pub struct ReadSession {
    received: String,
}

/// What a handler does after one read.
pub enum Next {
    /// Read again, from this session.
    Reading(ReadSession),
    /// The stream ended; the whole text received from it.
    Complete(String),
    /// The read failed; the message to log. Nothing received is used.
    Aborted(String),
}

/// The message logged when a read fails with description `d`.
pub open spec fn read_failure(d: Seq<char>) -> Seq<char> {
    "Error while reading from stream! "@ + d
}

impl View for ReadSession {
    type V = Seq<char>;

    closed spec fn view(&self) -> Seq<char> {
        self.received@
    }
}

impl ReadSession {
    /// A session that has received nothing yet.
    pub fn new() -> (r: ReadSession)
        ensures
            r@ == Seq::<char>::empty(),
    {
        ReadSession { received: String::new() }
    }

    /// The text received so far.
    pub fn received(&self) -> (r: &str)
        ensures
            r@ == self@,
    {
        self.received.as_str()
    }

    /// The step after one read: an empty read ends the stream and hands over
    /// all that was received; a read with text adds it and reads on; a failed
    /// read aborts the connection.
    pub fn on_read(self, event: ReadEvent) -> (r: Next)
        ensures
            match event {
                ReadEvent::Received(t) => if t@.len() == 0 {
                    r matches Next::Complete(c) && c@ == self@
                } else {
                    r matches Next::Reading(s) && s@ == self@ + t@
                },
                ReadEvent::Failed(d) => r matches Next::Aborted(m) && m@ == read_failure(d@),
            },
    {
        match event {
            ReadEvent::Received(t) => {
                if t.as_str().is_empty() {
                    Next::Complete(self.received)
                } else {
                    let mut received = self.received;
                    received.append(t.as_str());
                    Next::Reading(ReadSession { received })
                }
            },
            ReadEvent::Failed(d) => {
                Next::Aborted(String::from_str("Error while reading from stream! ").concat(d.as_str()))
            },
        }
    }
}

/// The step after decoding: a decoded batch gives one block to print per
/// record, in order; a decode failure gives its message and nothing to print.
pub fn report_decoded(decoded: Result<Vec<User>, String>) -> (r: Result<Vec<String>, String>)
    ensures
        match decoded {
            Ok(users) => r matches Ok(blocks) && blocks@.len() == users@.len()
                && forall|i: int| 0 <= i < users@.len() ==> (#[trigger] blocks@[i])@ == users@[i].block(),
            Err(e) => r == Err::<Vec<String>, String>(e),
        },
{
    match decoded {
        Ok(users) => Ok(report_blocks(&users)),
        Err(e) => Err(e),
    }
}

} // verus!
