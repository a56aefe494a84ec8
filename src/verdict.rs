use vstd::prelude::*;

use crate::channel::{DiagnosticRecord, EventChannel};

verus! {

/// The kernel's action code for a program fault: the packet is dropped and the
/// fault traced.
pub const XDP_ABORTED: u32 = 0;
/// The kernel's action code for dropping the packet.
pub const XDP_DROP: u32 = 1;
/// The kernel's action code for handing the packet on to the network stack.
pub const XDP_PASS: u32 = 2;
/// The kernel's action code for sending the packet back out of its interface.
pub const XDP_TX: u32 = 3;
/// The kernel's action code for sending the packet elsewhere.
pub const XDP_REDIRECT: u32 = 4;

/// The decision taken for one packet.
#[derive(Debug, Clone, Copy, PartialEq, Eq, Structural)]
pub enum Verdict {
    Aborted,
    Drop,
    Pass,
    Tx,
    Redirect,
}

/// The action code that the kernel reads for a verdict.
pub open spec fn verdict_code(v: Verdict) -> u32 {
    match v {
        Verdict::Aborted => XDP_ABORTED,
        Verdict::Drop => XDP_DROP,
        Verdict::Pass => XDP_PASS,
        Verdict::Tx => XDP_TX,
        Verdict::Redirect => XDP_REDIRECT,
    }
}

impl Verdict {
    /// The action code that the kernel reads for this verdict.
    pub fn code(&self) -> (r: u32)
        ensures
            r == verdict_code(*self),
    {
        match self {
            Verdict::Aborted => XDP_ABORTED,
            Verdict::Drop => XDP_DROP,
            Verdict::Pass => XDP_PASS,
            Verdict::Tx => XDP_TX,
            Verdict::Redirect => XDP_REDIRECT,
        }
    }

    /// The verdict that an action code stands for, if any.
    pub fn from_code(c: u32) -> (r: Option<Verdict>)
        ensures
            match r {
                Some(v) => verdict_code(v) == c,
                None => c > XDP_REDIRECT,
            },
    {
        if c == XDP_ABORTED {
            Some(Verdict::Aborted)
        } else if c == XDP_DROP {
            Some(Verdict::Drop)
        } else if c == XDP_PASS {
            Some(Verdict::Pass)
        } else if c == XDP_TX {
            Some(Verdict::Tx)
        } else if c == XDP_REDIRECT {
            Some(Verdict::Redirect)
        } else {
            None
        }
    }
}

/// What the filter program sees of one packet.
#[derive(Debug, Clone, Copy, PartialEq, Eq, Structural)]
pub struct PacketContext {
    /// Length of the packet's bytes.
    pub len: u32,
    /// Index of the interface the packet arrived on.
    pub ifindex: u32,
}

/// The notice that the filter program writes for every packet.
pub open spec fn receipt_notice() -> Seq<char> {
    "received a packet"@
}

/// `after` is `before` with a receipt notice added, when there was room for
/// one, and `before` unchanged otherwise.
pub open spec fn receipt_logged(before: Seq<DiagnosticRecord>, after: Seq<DiagnosticRecord>, cap: nat) -> bool {
    if before.len() < cap {
        &&& after.len() == before.len() + 1
        &&& after.drop_last() == before
        &&& after.last().message@ == receipt_notice()
    } else {
        after == before
    }
}

/// The body of the filter program: notes the packet's receipt on the event
/// channel and passes the packet on.
pub fn try_xdp_hello(ctx: &PacketContext, channel: &mut EventChannel) -> (r: Result<u32, u32>)
    requires
        old(channel).wf(),
    ensures
        final(channel).wf(),
        final(channel).capacity() == old(channel).capacity(),
        receipt_logged(old(channel).records(), final(channel).records(), old(channel).capacity()),
        r == Ok::<u32, u32>(XDP_PASS),
{
    let notice = DiagnosticRecord { message: String::from_str("received a packet") };
    if channel.push(notice) {
        assert(channel.records().drop_last() =~= old(channel).records());
    }
    Ok(XDP_PASS)
}

/// The action code handed to the kernel for a result of the program's body: a
/// fault becomes `XDP_ABORTED`, never anything else.
pub fn entry_verdict(r: Result<u32, u32>) -> (c: u32)
    ensures
        c == match r {
            Ok(v) => v,
            Err(_) => XDP_ABORTED,
        },
{
    match r {
        Ok(ret) => ret,
        Err(_) => XDP_ABORTED,
    }
}

/// The filter program's entry: runs the body on one packet and turns its
/// result into the action code that the kernel reads.
pub fn xdp_hello(ctx: &PacketContext, channel: &mut EventChannel) -> (c: u32)
    requires
        old(channel).wf(),
    ensures
        final(channel).wf(),
        final(channel).capacity() == old(channel).capacity(),
        receipt_logged(old(channel).records(), final(channel).records(), old(channel).capacity()),
        c == XDP_PASS,
        c == verdict_code(Verdict::Pass),
{
    entry_verdict(try_xdp_hello(ctx, channel))
}

} // verus!
