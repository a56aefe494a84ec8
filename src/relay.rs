use vstd::prelude::*;

use crate::channel::{DiagnosticRecord, EventChannel};

verus! {

/// The buffer after each record of `burst` was offered in turn; a record that
/// finds it full is dropped.
pub open spec fn offer_all(
    buf: Seq<DiagnosticRecord>,
    cap: nat,
    burst: Seq<DiagnosticRecord>,
) -> Seq<DiagnosticRecord>
    decreases burst.len(),
{
    if burst.len() == 0 {
        buf
    } else {
        let b = offer_all(buf, cap, burst.drop_last());
        if b.len() < cap {
            b.push(burst.last())
        } else {
            b
        }
    }
}

/// What the relay has delivered, and what is left in the buffer, after one
/// tick per burst: the burst is offered, then at most `rate` records go out.
pub open spec fn relay_ticks(
    buf: Seq<DiagnosticRecord>,
    cap: nat,
    bursts: Seq<Seq<DiagnosticRecord>>,
    rate: nat,
) -> (Seq<DiagnosticRecord>, Seq<DiagnosticRecord>)
    decreases bursts.len(),
{
    if bursts.len() == 0 {
        (Seq::empty(), buf)
    } else {
        let (d, rem) = relay_ticks(buf, cap, bursts.drop_last(), rate);
        let b = offer_all(rem, cap, bursts.last());
        let k = if rate < b.len() {
            rate as int
        } else {
            b.len() as int
        };
        (d + b.take(k), b.skip(k))
    }
}

/// Everything the relay delivers over the ticks and then on stopping, when it
/// drains what is still buffered.
pub open spec fn relay_delivered(
    buf: Seq<DiagnosticRecord>,
    cap: nat,
    bursts: Seq<Seq<DiagnosticRecord>>,
    rate: nat,
) -> Seq<DiagnosticRecord> {
    relay_ticks(buf, cap, bursts, rate).0 + relay_ticks(buf, cap, bursts, rate).1
}

proof fn lemma_offer_all_bounded(buf: Seq<DiagnosticRecord>, cap: nat, burst: Seq<DiagnosticRecord>)
    requires
        buf.len() <= cap,
    ensures
        offer_all(buf, cap, burst).len() <= cap,
    decreases burst.len(),
{
    if burst.len() > 0 {
        lemma_offer_all_bounded(buf, cap, burst.drop_last());
    }
}

proof fn lemma_relay_ticks_bounded(
    buf: Seq<DiagnosticRecord>,
    cap: nat,
    bursts: Seq<Seq<DiagnosticRecord>>,
    rate: nat,
)
    requires
        buf.len() <= cap,
    ensures
        relay_ticks(buf, cap, bursts, rate).0.len() <= rate * bursts.len(),
        relay_ticks(buf, cap, bursts, rate).1.len() <= cap,
    decreases bursts.len(),
{
    if bursts.len() > 0 {
        let n = bursts.len() - 1;
        lemma_relay_ticks_bounded(buf, cap, bursts.drop_last(), rate);
        let rem = relay_ticks(buf, cap, bursts.drop_last(), rate).1;
        lemma_offer_all_bounded(rem, cap, bursts.last());
        assert(rate * n + rate == rate * bursts.len()) by (nonlinear_arith)
            requires
                n + 1 == bursts.len(),
        ;
    }
}

/// However fast records are produced, the relay delivers no more than the
/// channel's capacity plus its drain rate times the number of ticks, the
/// final drain on stopping included.
pub proof fn lemma_relay_delivery_bound(
    buf: Seq<DiagnosticRecord>,
    cap: nat,
    bursts: Seq<Seq<DiagnosticRecord>>,
    rate: nat,
)
    requires
        buf.len() <= cap,
    ensures
        relay_delivered(buf, cap, bursts, rate).len() <= cap + rate * bursts.len(),
{
    lemma_relay_ticks_bounded(buf, cap, bursts, rate);
}

/// Offers each record of `burst` to the channel, oldest first, and returns how
/// many were kept.
pub fn offer_burst(channel: &mut EventChannel, burst: &Vec<DiagnosticRecord>) -> (kept: usize)
    requires
        old(channel).wf(),
    ensures
        final(channel).wf(),
        final(channel).capacity() == old(channel).capacity(),
        final(channel).records() == offer_all(old(channel).records(), old(channel).capacity(), burst@),
        kept == final(channel).records().len() - old(channel).records().len(),
        kept <= burst@.len(),
{
    let mut kept: usize = 0;
    let mut i: usize = 0;
    while i < burst.len()
        invariant
            channel.wf(),
            channel.capacity() == old(channel).capacity(),
            i <= burst@.len(),
            kept <= i,
            channel.records().len() == old(channel).records().len() + kept,
            channel.records() == offer_all(
                old(channel).records(),
                old(channel).capacity(),
                burst@.subrange(0, i as int),
            ),
        decreases burst.len() - i,
    {
        assert(burst@.subrange(0, i + 1).drop_last() =~= burst@.subrange(0, i as int));
        if channel.push(burst[i].duplicate()) {
            kept = kept + 1;
        }
        i = i + 1;
    }
    assert(burst@.subrange(0, i as int) =~= burst@);
    kept
}

/// Runs the relay for one tick per burst, delivering at most `rate` records
/// a tick, then stops it: what is still buffered is delivered too, so the
/// channel is left empty.
pub fn relay_run(channel: &mut EventChannel, bursts: &Vec<Vec<DiagnosticRecord>>, rate: usize) -> (delivered: Vec<DiagnosticRecord>)
    requires
        old(channel).wf(),
    ensures
        final(channel).wf(),
        final(channel).capacity() == old(channel).capacity(),
        final(channel).records() == Seq::<DiagnosticRecord>::empty(),
        delivered@ == relay_delivered(old(channel).records(), old(channel).capacity(), bursts@.map_values(|b: Vec<DiagnosticRecord>| b@), rate as nat),
{
    let ghost all = bursts@.map_values(|b: Vec<DiagnosticRecord>| b@);
    let ghost start = old(channel).records();
    let ghost cap = old(channel).capacity();
    let mut delivered: Vec<DiagnosticRecord> = Vec::new();
    let mut t: usize = 0;
    assert(all.subrange(0, 0) =~= Seq::<Seq<DiagnosticRecord>>::empty());
    while t < bursts.len()
        invariant
            channel.wf(),
            channel.capacity() == cap,
            cap == old(channel).capacity(),
            start == old(channel).records(),
            all == bursts@.map_values(|b: Vec<DiagnosticRecord>| b@),
            t <= bursts@.len(),
            delivered@ == relay_ticks(start, cap, all.subrange(0, t as int), rate as nat).0,
            channel.records() == relay_ticks(start, cap, all.subrange(0, t as int), rate as nat).1,
        decreases bursts.len() - t,
    {
        assert(all.subrange(0, t + 1).drop_last() =~= all.subrange(0, t as int));
        assert(all.subrange(0, t + 1).last() == bursts@[t as int]@);
        offer_burst(channel, &bursts[t]);
        let mut out = channel.drain(rate);
        let ghost got = out@;
        let ghost before = delivered@;
        delivered.append(&mut out);
        assert(delivered@ =~= before + got);
        t = t + 1;
    }
    assert(all.subrange(0, t as int) =~= all);
    let mut rest = channel.drain_all();
    delivered.append(&mut rest);
    delivered
}

} // verus!
