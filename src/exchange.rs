use crate::codec::{read_response, reply_outcome, PROMPT_BYTE, WAKE_BYTE};
use crate::error::{CommandResult, Error};
use serialport::Error as PortError;
use std::io::Error as IoError;
use vstd::prelude::*;
use vstd::utf8::encode_utf8;

verus! {

/// A port operation that the exchange asks its driver to perform.
#[derive(Debug)]
pub enum PortAction {
    /// Discard whatever is waiting in the port's input buffer.
    ClearInput,
    /// Write all these bytes.
    Write(Vec<u8>),
    /// Read exactly one byte: the device's prompt.
    ReadPrompt,
    /// Open the reply window and read what has arrived.
    Listen,
    /// Read again within the reply window that is open.
    ReadMore,
}

/// What became of the port operation last asked for.
#[derive(Debug)]
pub enum PortEvent {
    /// Outcome of [`PortAction::ClearInput`].
    Cleared(Result<(), PortError>),
    /// Outcome of [`PortAction::Write`].
    Wrote(Result<(), IoError>),
    /// Outcome of [`PortAction::ReadPrompt`].
    Prompt(Result<u8, IoError>),
    /// Outcome of a read within the reply window (other than a time-out).
    Received(Result<Vec<u8>, IoError>),
    /// A read within the reply window timed out: nothing new has arrived yet.
    ReadTimedOut,
    /// The reply window closed before the read was attempted.
    WindowClosed,
}

/// Where an exchange stands.
#[derive(Debug, Clone, Copy, PartialEq, Eq, Structural)]
pub enum Stage {
    /// Waiting for the input buffer to be cleared.
    Clearing,
    /// Waiting for the wake byte to be written.
    Waking,
    /// Waiting for the prompt byte.
    Prompting,
    /// Waiting for the frame to be written.
    Framing,
    /// Gathering the reply until the window closes.
    Collecting,
    /// The exchange has produced its outcome.
    Done,
}

/// What the exchange needs next.
#[derive(Debug)]
pub enum Progress {
    /// Perform this port operation and report back.
    Next(PortAction),
    /// The exchange is over, with this outcome.
    Finished(CommandResult),
}

/// Whether `event` reports on the operation that an exchange at `stage` asked for.
pub open spec fn fits(stage: Stage, event: PortEvent) -> bool {
    match stage {
        Stage::Clearing => event is Cleared,
        Stage::Waking | Stage::Framing => event is Wrote,
        Stage::Prompting => event is Prompt,
        Stage::Collecting => event is Received || event is ReadTimedOut || event is WindowClosed,
        Stage::Done => false,
    }
}

/// How an exchange at `pre` moves to `post` on `event`, handing back `p`.
pub open spec fn advanced(pre: Exchange, event: PortEvent, post: Exchange, p: Progress) -> bool {
    &&& post.frame() == pre.frame()
    &&& p is Finished <==> post.stage() == Stage::Done
    &&& match event {
        PortEvent::Cleared(Ok(())) => {
            &&& post.stage() == Stage::Waking
            &&& p matches Progress::Next(PortAction::Write(b)) && b@ == seq![WAKE_BYTE]
        },
        PortEvent::Cleared(Err(e)) => p == Progress::Finished(
            Err(Error::SerialError { source: e }),
        ),
        PortEvent::Wrote(Ok(())) => {
            &&& pre.stage() == Stage::Waking ==> post.stage() == Stage::Prompting
                && (p matches Progress::Next(PortAction::ReadPrompt))
            &&& pre.stage() == Stage::Framing ==> post.stage() == Stage::Collecting
                && post.received() == Seq::<u8>::empty()
                && (p matches Progress::Next(PortAction::Listen))
        },
        PortEvent::Wrote(Err(e)) => p == Progress::Finished(
            Err(Error::SerialIOError { source: e }),
        ),
        PortEvent::Prompt(Ok(b)) => if b == PROMPT_BYTE {
            &&& post.stage() == Stage::Framing
            &&& p matches Progress::Next(PortAction::Write(w)) && w@ == encode_utf8(
                pre.frame(),
            )
        } else {
            p == Progress::Finished(Err(Error::CommandSendInvalidState))
        },
        PortEvent::Prompt(Err(e)) => p == Progress::Finished(
            Err(Error::SerialIOError { source: e }),
        ),
        PortEvent::Received(Ok(bytes)) => {
            &&& post.stage() == Stage::Collecting
            &&& post.received() == pre.received() + bytes@
            &&& p matches Progress::Next(PortAction::ReadMore)
        },
        PortEvent::ReadTimedOut => {
            &&& post.stage() == Stage::Collecting
            &&& post.received() == pre.received()
            &&& p matches Progress::Next(PortAction::ReadMore)
        },
        PortEvent::Received(Err(e)) => p == Progress::Finished(
            Err(Error::SerialIOError { source: e }),
        ),
        PortEvent::WindowClosed => p matches Progress::Finished(r) && reply_outcome(
            r,
            pre.received(),
            pre.frame(),
        ),
    }
}

/// One request/reply exchange with the device: clear the input, wake the
/// device, wait for its prompt, send the frame, then gather the reply (which
/// starts with the echo of the frame) until the reply window closes.
pub struct Exchange {
    frame: String,
    stage: Stage,
    received: Vec<u8>,
}

impl Exchange {
    /// The frame this exchange sends.
    pub closed spec fn frame(&self) -> Seq<char> {
        self.frame@
    }

    /// Where this exchange stands.
    pub closed spec fn stage(&self) -> Stage {
        self.stage
    }

    /// The reply bytes gathered so far.
    pub closed spec fn received(&self) -> Seq<u8> {
        self.received@
    }

    /// Starts an exchange that sends `frame`; the first step clears the input.
    pub fn new(frame: String) -> (r: (Exchange, PortAction))
        ensures
            r.0.frame() == frame@,
            r.0.stage() == Stage::Clearing,
            r.0.received() == Seq::<u8>::empty(),
            r.1 is ClearInput,
    {
        (Exchange { frame, stage: Stage::Clearing, received: Vec::new() }, PortAction::ClearInput)
    }

    /// Whether `event` reports on the operation this exchange asked for last.
    pub fn accepts(&self, event: &PortEvent) -> (r: bool)
        ensures
            r == fits(self.stage(), *event),
    {
        match self.stage {
            Stage::Clearing => matches!(event, PortEvent::Cleared(_)),
            Stage::Waking | Stage::Framing => matches!(event, PortEvent::Wrote(_)),
            Stage::Prompting => matches!(event, PortEvent::Prompt(_)),
            Stage::Collecting => matches!(
                event,
                PortEvent::Received(_) | PortEvent::ReadTimedOut | PortEvent::WindowClosed
            ),
            Stage::Done => false,
        }
    }

    /// Takes in the outcome of the last port operation and decides the next
    /// one, or the exchange's outcome. Port failures end the exchange with the
    /// port's error; a prompt other than `>` ends it with
    /// `CommandSendInvalidState`; a read that timed out inside the window is
    /// retried while any other read failure ends the exchange; when the
    /// window closes the gathered reply is interpreted.
    pub fn advance(&mut self, event: PortEvent) -> (p: Progress)
        requires
            fits(old(self).stage(), event),
        ensures
            advanced(*old(self), event, *final(self), p),
    {
        match event {
            PortEvent::Cleared(Ok(())) => {
                self.stage = Stage::Waking;
                let wake = vec![WAKE_BYTE];
                assert(wake@ =~= seq![WAKE_BYTE]);
                Progress::Next(PortAction::Write(wake))
            },
            PortEvent::Cleared(Err(e)) => {
                self.stage = Stage::Done;
                Progress::Finished(Err(Error::SerialError { source: e }))
            },
            PortEvent::Wrote(Ok(())) => {
                if self.stage == Stage::Waking {
                    self.stage = Stage::Prompting;
                    Progress::Next(PortAction::ReadPrompt)
                } else {
                    self.stage = Stage::Collecting;
                    self.received = Vec::new();
                    Progress::Next(PortAction::Listen)
                }
            },
            PortEvent::Wrote(Err(e)) => {
                self.stage = Stage::Done;
                Progress::Finished(Err(Error::SerialIOError { source: e }))
            },
            PortEvent::Prompt(Ok(b)) => {
                if b == PROMPT_BYTE {
                    self.stage = Stage::Framing;
                    Progress::Next(PortAction::Write(self.frame.as_str().as_bytes_vec()))
                } else {
                    self.stage = Stage::Done;
                    Progress::Finished(Err(Error::CommandSendInvalidState))
                }
            },
            PortEvent::Prompt(Err(e)) => {
                self.stage = Stage::Done;
                Progress::Finished(Err(Error::SerialIOError { source: e }))
            },
            PortEvent::Received(Ok(bytes)) => {
                let mut i: usize = 0;
                let ghost start = self.received@;
                while i < bytes.len()
                    invariant
                        i <= bytes@.len(),
                        self.received@ == start + bytes@.subrange(0, i as int),
                        self.frame == old(self).frame,
                        self.stage == old(self).stage,
                    decreases bytes@.len() - i,
                {
                    self.received.push(bytes[i]);
                    i = i + 1;
                    assert(bytes@.subrange(0, i as int) =~= bytes@.subrange(0, i - 1 as int).push(
                        bytes@[i - 1],
                    ));
                }
                assert(bytes@.subrange(0, i as int) =~= bytes@);
                Progress::Next(PortAction::ReadMore)
            },
            PortEvent::ReadTimedOut => Progress::Next(PortAction::ReadMore),
            PortEvent::Received(Err(e)) => {
                self.stage = Stage::Done;
                Progress::Finished(Err(Error::SerialIOError { source: e }))
            },
            PortEvent::WindowClosed => {
                self.stage = Stage::Done;
                Progress::Finished(read_response(self.received.as_slice(), self.frame.as_str()))
            },
        }
    }
}

} // verus!
