//! The serial command line: bytes are gathered into lines, each line is
//! admitted or refused according to who is logged in, and the command's
//! result is framed into the reply sent back.
use vstd::prelude::*;
use crate::signals::{EventBits, Source, StatusFlag, status_bits, source_flag};

verus! {

/// Capacity of the line buffer; a line that fills it is dropped.
pub const LINE_BUFFER_SIZE: usize = 256;

/// Bytes received since the last complete line.
#[derive(Debug)]
pub struct LineBuffer {
    pub bytes: Vec<u8>,
}

/// A complete line without its `\n` and the `\r` before it, if any.
pub open spec fn line_of(content: Seq<u8>) -> Seq<u8> {
    let body = content.drop_last();
    if body.len() > 0 && body.last() == 13 { body.drop_last() } else { body }
}

impl LineBuffer {
    /// An empty buffer.
    pub fn new() -> (r: LineBuffer)
        ensures
            r.bytes@.len() == 0,
    {
        LineBuffer { bytes: Vec::new() }
    }

    /// Takes one received byte. The buffer is emptied when it becomes full
    /// (the line is lost). When the byte ends a line (`\n`), the line is
    /// handed back without its line ending and the buffer is emptied.
    pub fn push_byte(&mut self, b: u8) -> (r: Option<Vec<u8>>)
        requires
            old(self).bytes@.len() < LINE_BUFFER_SIZE,
        ensures
            final(self).bytes@.len() < LINE_BUFFER_SIZE,
            ({
                let pushed = old(self).bytes@.push(b);
                let kept = if pushed.len() >= LINE_BUFFER_SIZE { Seq::<u8>::empty() } else { pushed };
                if kept.len() > 0 && kept.last() == 10 {
                    (r matches Some(line) && line@ == line_of(kept)) && final(self).bytes@.len() == 0
                } else {
                    r is None && final(self).bytes@ == kept
                }
            }),
    {
        self.bytes.push(b);
        if self.bytes.len() >= LINE_BUFFER_SIZE {
            self.bytes = Vec::new();
        }
        let n = self.bytes.len();
        if n > 0 && self.bytes[n - 1] == 10u8 {
            let mut line = self.bytes.clone();
            assert(line@ =~= self.bytes@);
            line.pop();
            let m = line.len();
            if m > 0 && line[m - 1] == 13u8 {
                line.pop();
            }
            self.bytes = Vec::new();
            Some(line)
        } else {
            None
        }
    }
}

/// What happens to a complete command line.
#[derive(Clone, Copy, PartialEq, Eq, Debug, Structural)]
pub enum Admission {
    /// Lines from this source are not served: the line is dropped silently.
    Drop,
    /// Somebody is logged in from another source: the line is answered `KO`.
    Refuse,
    /// The line is executed. When nobody is logged in, the source's command
    /// flag is raised for the time of the command (`raised`); otherwise the
    /// session timer is restarted.
    Run { raised: Option<u32>, restart_timer: bool },
}

/// Decides how a line from `source` is served, given the status bits.
pub fn admission(source: Source, status: EventBits) -> (r: Admission)
    ensures
        r == (if source != Source::Uart {
            Admission::Drop
        } else if status & status_bits(StatusFlag::UserLogged) != 0 && status & status_bits(source_flag(source)) == 0 {
            Admission::Refuse
        } else if status & status_bits(StatusFlag::UserLogged) != 0 {
            Admission::Run { raised: None, restart_timer: true }
        } else {
            Admission::Run { raised: Some(status_bits(source_flag(source))), restart_timer: false }
        }),
{
    if source != Source::Uart {
        return Admission::Drop;
    }
    let flag = StatusFlag::from_source(source).bits();
    let logged = status & StatusFlag::UserLogged.bits() != 0;
    if logged && status & flag == 0 {
        Admission::Refuse
    } else if logged {
        Admission::Run { raised: None, restart_timer: true }
    } else {
        Admission::Run { raised: Some(flag), restart_timer: false }
    }
}

/// The reply `OK\r\n`.
pub open spec fn reply_ok() -> Seq<u8> { seq![79u8, 75u8, 13u8, 10u8] }

/// The reply `KO\r\n`.
pub open spec fn reply_ko() -> Seq<u8> { seq![75u8, 79u8, 13u8, 10u8] }

/// The reply to a command: `KO` when it failed, `OK` when it succeeded with
/// an empty answer, otherwise the answer's prefix and text followed by a
/// line break and `OK`.
pub open spec fn reply_spec(result: Option<(Seq<u8>, Seq<u8>)>) -> Seq<u8> {
    match result {
        None => reply_ko(),
        Some((prefix, payload)) => if payload.len() == 0 {
            reply_ok()
        } else {
            prefix + payload + seq![13u8, 10u8] + reply_ok()
        },
    }
}

/// Frames the reply to a command (see `reply_spec`); `result` holds the
/// answer's prefix and text, or nothing when the command failed.
pub fn frame_reply(result: &Option<(Vec<u8>, Vec<u8>)>) -> (r: Vec<u8>)
    ensures
        r@ == reply_spec(match result { Some((p, t)) => Some((p@, t@)), None => None }),
{
    match result {
        None => vec![75u8, 79u8, 13u8, 10u8],
        Some((prefix, payload)) => {
            if payload.len() == 0 {
                vec![79u8, 75u8, 13u8, 10u8]
            } else {
                let mut out = prefix.clone();
                assert(out@ =~= prefix@);
                let ghost start = out@;
                let mut i: usize = 0;
                while i < payload.len()
                    invariant
                        0 <= i <= payload@.len(),
                        out@ == start + payload@.take(i as int),
                    decreases payload.len() - i,
                {
                    out.push(payload[i]);
                    i = i + 1;
                    assert(out@ =~= start + payload@.take(i as int));
                }
                assert(payload@.take(i as int) =~= payload@);
                out.push(13u8);
                out.push(10u8);
                out.push(79u8);
                out.push(75u8);
                out.push(13u8);
                out.push(10u8);
                assert(out@ =~= prefix@ + payload@ + seq![13u8, 10u8] + reply_ok());
                out
            }
        },
    }
}

} // verus!
