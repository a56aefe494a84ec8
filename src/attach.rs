use vstd::prelude::*;

verus! {

/// Where on an interface's receive path the program is hooked.
#[derive(Debug, Clone, Copy, PartialEq, Eq, Structural)]
pub enum HookMode {
    /// The driver's hook if it has one, else the generic one.
    Default,
    /// The generic hook in the network stack, for any driver.
    Generic,
    /// The driver's own hook.
    Driver,
    /// The network card itself.
    Offload,
}

/// How to attach: the hook, and whether an existing attachment on the same
/// interface and hook may be replaced.
#[derive(Debug, Clone, Copy, PartialEq, Eq, Structural)]
pub struct HookFlags {
    pub mode: HookMode,
    pub replace: bool,
}

impl HookFlags {
    /// The default: the default hook, never replacing.
    pub fn default_flags() -> (r: HookFlags)
        ensures
            r == default_hook_flags(),
    {
        HookFlags { mode: HookMode::Default, replace: false }
    }
}

/// The default hook flags.
pub open spec fn default_hook_flags() -> HookFlags {
    HookFlags { mode: HookMode::Default, replace: false }
}

/// A live binding of the program to an interface and hook.
#[derive(Debug, Clone, Copy, PartialEq, Eq, Structural)]
pub struct AttachmentHandle {
    pub id: u64,
    pub ifindex: u32,
    pub mode: HookMode,
}

/// Why an attach failed.
#[derive(Debug, Clone, Copy, PartialEq, Eq, Structural)]
pub enum AttachError {
    /// No interface has that name or index.
    InterfaceNotFound,
    /// The interface and hook already carry a program.
    AlreadyAttached,
    /// The driver lacks the requested hook; the generic hook may serve.
    UnsupportedMode,
}

/// The elements of `s` that satisfy `keep`, in order.
pub open spec fn keep_where(
    s: Seq<AttachmentHandle>,
    keep: spec_fn(AttachmentHandle) -> bool,
) -> Seq<AttachmentHandle>
    decreases s.len(),
{
    if s.len() == 0 {
        s
    } else {
        let r = keep_where(s.drop_last(), keep);
        if keep(s.last()) {
            r.push(s.last())
        } else {
            r
        }
    }
}

/// The bindings of `s` but the one with handle `id`.
pub open spec fn without_handle(s: Seq<AttachmentHandle>, id: u64) -> Seq<AttachmentHandle> {
    keep_where(s, |h: AttachmentHandle| h.id != id)
}

/// The bindings of `s` but those on interface `ifindex` and hook `mode`.
pub open spec fn without_pair(s: Seq<AttachmentHandle>, ifindex: u32, mode: HookMode) -> Seq<
    AttachmentHandle,
> {
    keep_where(s, |h: AttachmentHandle| !(h.ifindex == ifindex && h.mode == mode))
}

/// Whether some binding of `s` is on interface `ifindex` and hook `mode`.
pub open spec fn pair_bound(s: Seq<AttachmentHandle>, ifindex: u32, mode: HookMode) -> bool {
    exists|i: int| 0 <= i < s.len() && s[i].ifindex == ifindex && #[trigger] s[i].mode == mode
}

/// Whether some binding of `s` has handle `id`.
pub open spec fn handle_bound(s: Seq<AttachmentHandle>, id: u64) -> bool {
    exists|i: int| 0 <= i < s.len() && #[trigger] s[i].id == id
}

/// A table of bindings is well formed when no interface and hook carry two
/// of them and every handle is below the next one to be given out.
pub open spec fn table_wf(s: Seq<AttachmentHandle>, next_id: u64) -> bool {
    &&& forall|i: int, j: int|
        0 <= i < j < s.len() ==> !(#[trigger] s[i].ifindex == #[trigger] s[j].ifindex && s[i].mode
            == s[j].mode)
    &&& forall|i: int| 0 <= i < s.len() ==> #[trigger] s[i].id < next_id
}

/// The bindings and next handle after an attach, and its result.
pub open spec fn attach_outcome(
    s: Seq<AttachmentHandle>,
    next_id: u64,
    ifindex: u32,
    flags: HookFlags,
) -> (Seq<AttachmentHandle>, u64, Result<AttachmentHandle, AttachError>) {
    if ifindex == 0 {
        (s, next_id, Err(AttachError::InterfaceNotFound))
    } else if pair_bound(s, ifindex, flags.mode) && !flags.replace {
        (s, next_id, Err(AttachError::AlreadyAttached))
    } else {
        let h = AttachmentHandle { id: next_id, ifindex, mode: flags.mode };
        (without_pair(s, ifindex, flags.mode).push(h), (next_id + 1) as u64, Ok(h))
    }
}

proof fn lemma_keep_where_from(s: Seq<AttachmentHandle>, keep: spec_fn(AttachmentHandle) -> bool)
    ensures
        forall|i: int|
            0 <= i < keep_where(s, keep).len() ==> {
                &&& keep(#[trigger] keep_where(s, keep)[i])
                &&& exists|j: int| 0 <= j < s.len() && s[j] == keep_where(s, keep)[i]
            },
        keep_where(s, keep).len() <= s.len(),
    decreases s.len(),
{
    if s.len() > 0 {
        lemma_keep_where_from(s.drop_last(), keep);
        let r = keep_where(s.drop_last(), keep);
        assert forall|i: int| 0 <= i < keep_where(s, keep).len() implies {
            &&& keep(#[trigger] keep_where(s, keep)[i])
            &&& exists|j: int| 0 <= j < s.len() && s[j] == keep_where(s, keep)[i]
        } by {
            if i < r.len() {
                let j = choose|j: int| 0 <= j < s.drop_last().len() && s.drop_last()[j] == r[i];
                assert(s[j] == keep_where(s, keep)[i]);
            } else {
                assert(s[s.len() - 1] == keep_where(s, keep)[i]);
            }
        }
    }
}

proof fn lemma_keep_where_all(s: Seq<AttachmentHandle>, keep: spec_fn(AttachmentHandle) -> bool)
    requires
        forall|i: int| 0 <= i < s.len() ==> keep(#[trigger] s[i]),
    ensures
        keep_where(s, keep) == s,
    decreases s.len(),
{
    if s.len() > 0 {
        lemma_keep_where_all(s.drop_last(), keep);
        assert(s.drop_last().push(s.last()) =~= s);
    }
}

proof fn lemma_keep_where_twice(s: Seq<AttachmentHandle>, keep: spec_fn(AttachmentHandle) -> bool)
    ensures
        keep_where(keep_where(s, keep), keep) == keep_where(s, keep),
{
    lemma_keep_where_from(s, keep);
    lemma_keep_where_all(keep_where(s, keep), keep);
}

proof fn lemma_keep_where_unique(s: Seq<AttachmentHandle>, keep: spec_fn(AttachmentHandle) -> bool)
    requires
        forall|i: int, j: int|
            0 <= i < j < s.len() ==> !(#[trigger] s[i].ifindex == #[trigger] s[j].ifindex
                && s[i].mode == s[j].mode),
    ensures
        forall|i: int, j: int|
            0 <= i < j < keep_where(s, keep).len() ==> !(#[trigger] keep_where(s, keep)[i].ifindex
                == #[trigger] keep_where(s, keep)[j].ifindex && keep_where(s, keep)[i].mode
                == keep_where(s, keep)[j].mode),
    decreases s.len(),
{
    if s.len() > 0 {
        let d = s.drop_last();
        lemma_keep_where_unique(d, keep);
        lemma_keep_where_from(d, keep);
        let r = keep_where(d, keep);
        let out = keep_where(s, keep);
        assert forall|i: int, j: int| 0 <= i < j < out.len() implies !(#[trigger] out[i].ifindex
            == #[trigger] out[j].ifindex && out[i].mode == out[j].mode) by {
            if j >= r.len() {
                let k = choose|k: int| 0 <= k < d.len() && d[k] == r[i];
                assert(s[k] == out[i]);
                assert(s[s.len() - 1] == out[j]);
            } else {
                assert(out[i] == r[i] && out[j] == r[j]);
            }
        }
    }
}

/// Attaching then detaching on an interface and hook that were free, with
/// the default flags, leaves the bindings as they were, so the pair can be
/// attached again.
pub proof fn lemma_attach_detach_round_trip(s: Seq<AttachmentHandle>, next_id: u64, ifindex: u32)
    requires
        table_wf(s, next_id),
        next_id < u64::MAX,
        ifindex != 0,
        !pair_bound(s, ifindex, HookMode::Default),
    ensures
        ({
            let (s1, n1, r) = attach_outcome(s, next_id, ifindex, default_hook_flags());
            &&& r is Ok
            &&& without_handle(s1, r->Ok_0.id) == s
            &&& table_wf(without_handle(s1, r->Ok_0.id), n1)
            &&& attach_outcome(without_handle(s1, r->Ok_0.id), n1, ifindex, default_hook_flags()).2 is Ok
        }),
{
    let m = HookMode::Default;
    let pk = |h: AttachmentHandle| !(h.ifindex == ifindex && h.mode == m);
    lemma_keep_where_all(s, pk);
    let h = AttachmentHandle { id: next_id, ifindex, mode: m };
    let s1 = s.push(h);
    assert(s1.drop_last() =~= s);
    let ik = |g: AttachmentHandle| g.id != next_id;
    lemma_keep_where_all(s, ik);
    assert(without_handle(s1, next_id) == s);
}

/// Detaching a handle a second time changes nothing.
pub proof fn lemma_detach_idempotent(s: Seq<AttachmentHandle>, id: u64)
    ensures
        without_handle(without_handle(s, id), id) == without_handle(s, id),
{
    lemma_keep_where_twice(s, |h: AttachmentHandle| h.id != id);
}

/// After a successful attach, a second attach on the same interface and hook,
/// without leave to replace, fails with `AlreadyAttached`; the first binding
/// stays live and the table is unchanged.
pub proof fn lemma_attach_twice_refused(
    s: Seq<AttachmentHandle>,
    next_id: u64,
    ifindex: u32,
    flags: HookFlags,
)
    requires
        table_wf(s, next_id),
        next_id < u64::MAX,
        !flags.replace,
        attach_outcome(s, next_id, ifindex, flags).2 is Ok,
    ensures
        ({
            let (s1, n1, r) = attach_outcome(s, next_id, ifindex, flags);
            &&& attach_outcome(s1, n1, ifindex, flags) == (
                s1,
                n1,
                Err::<AttachmentHandle, AttachError>(AttachError::AlreadyAttached),
            )
            &&& handle_bound(s1, r->Ok_0.id)
        }),
{
    let (s1, n1, r) = attach_outcome(s, next_id, ifindex, flags);
    let last = s1.len() - 1;
    assert(s1[last].ifindex == ifindex && s1[last].mode == flags.mode);
    assert(pair_bound(s1, ifindex, flags.mode));
    assert(s1[last].id == r->Ok_0.id);
}

/// The bindings of the program to interfaces.
pub struct Attachments {
    bound: Vec<AttachmentHandle>,
    next_id: u64,
}

impl Attachments {
    /// The live bindings, oldest first.
    pub closed spec fn bindings(&self) -> Seq<AttachmentHandle> {
        self.bound@
    }

    /// The handle that the next attach gives out.
    pub closed spec fn next_handle(&self) -> u64 {
        self.next_id
    }

    /// No interface and hook carry two bindings, and handles stay fresh.
    pub open spec fn wf(&self) -> bool {
        table_wf(self.bindings(), self.next_handle())
    }

    /// A table with no bindings.
    pub fn new() -> (r: Attachments)
        ensures
            r.wf(),
            r.bindings() == Seq::<AttachmentHandle>::empty(),
            r.next_handle() == 1,
    {
        Attachments { bound: Vec::new(), next_id: 1 }
    }

    /// Whether another handle can still be given out.
    pub fn can_attach(&self) -> (r: bool)
        ensures
            r == (self.next_handle() < u64::MAX),
    {
        self.next_id < u64::MAX
    }

    /// Whether interface `ifindex` and hook `mode` carry the program.
    pub fn is_attached(&self, ifindex: u32, mode: HookMode) -> (r: bool)
        ensures
            r == pair_bound(self.bindings(), ifindex, mode),
    {
        let mut i: usize = 0;
        while i < self.bound.len()
            invariant
                i <= self.bound@.len(),
                forall|k: int| 0 <= k < i ==> !(self.bound@[k].ifindex == ifindex && #[trigger] self.bound@[k].mode == mode),
            decreases self.bound.len() - i,
        {
            if self.bound[i].ifindex == ifindex && self.bound[i].mode == mode {
                return true;
            }
            i = i + 1;
        }
        false
    }

    /// Whether the binding with handle `id` is live.
    pub fn is_live(&self, h: &AttachmentHandle) -> (r: bool)
        ensures
            r == handle_bound(self.bindings(), h.id),
    {
        let mut i: usize = 0;
        while i < self.bound.len()
            invariant
                i <= self.bound@.len(),
                forall|k: int| 0 <= k < i ==> #[trigger] self.bound@[k].id != h.id,
            decreases self.bound.len() - i,
        {
            if self.bound[i].id == h.id {
                return true;
            }
            i = i + 1;
        }
        false
    }

    /// Binds the program to interface `ifindex` at the hook that `flags`
    /// names. Index 0 names no interface. A pair already bound is refused
    /// unless `flags` allows replacing, in which case the old binding goes.
    pub fn attach(&mut self, ifindex: u32, flags: HookFlags) -> (r: Result<AttachmentHandle, AttachError>)
        requires
            old(self).wf(),
            old(self).next_handle() < u64::MAX,
        ensures
            final(self).wf(),
            (final(self).bindings(), final(self).next_handle(), r) == attach_outcome(
                old(self).bindings(),
                old(self).next_handle(),
                ifindex,
                flags,
            ),
    {
        if ifindex == 0 {
            return Err(AttachError::InterfaceNotFound);
        }
        if self.is_attached(ifindex, flags.mode) && !flags.replace {
            return Err(AttachError::AlreadyAttached);
        }
        let ghost s = self.bound@;
        let mut kept: Vec<AttachmentHandle> = Vec::new();
        let mut i: usize = 0;
        while i < self.bound.len()
            invariant
                s == self.bound@,
                i <= s.len(),
                kept@ == without_pair(s.subrange(0, i as int), ifindex, flags.mode),
            decreases self.bound.len() - i,
        {
            assert(s.subrange(0, i + 1).drop_last() =~= s.subrange(0, i as int));
            let b = self.bound[i];
            assert(s.subrange(0, i + 1).last() == b);
            if !(b.ifindex == ifindex && b.mode == flags.mode) {
                kept.push(b);
            }
            i = i + 1;
        }
        assert(s.subrange(0, i as int) =~= s);
        proof {
            let pk = |g: AttachmentHandle| !(g.ifindex == ifindex && g.mode == flags.mode);
            lemma_keep_where_from(s, pk);
            lemma_keep_where_unique(s, pk);
        }
        let h = AttachmentHandle { id: self.next_id, ifindex, mode: flags.mode };
        kept.push(h);
        self.bound = kept;
        self.next_id = self.next_id + 1;
        proof {
            let pk = |g: AttachmentHandle| !(g.ifindex == ifindex && g.mode == flags.mode);
            let w = keep_where(s, pk);
            assert forall|k: int| 0 <= k < w.len() implies #[trigger] w[k].id < old(self).next_id by {
                let j = choose|j: int| 0 <= j < s.len() && s[j] == w[k];
            }
            assert forall|k: int| 0 <= k < w.len() implies !(#[trigger] w[k].ifindex == ifindex && w[k].mode == flags.mode) by {
                assert(pk(w[k]));
            }
        }
        Ok(h)
    }

    /// Unbinds the binding with handle `h`. A handle no longer bound is let
    /// be: detaching twice is the same as detaching once.
    pub fn detach(&mut self, h: &AttachmentHandle)
        requires
            old(self).wf(),
        ensures
            final(self).wf(),
            final(self).bindings() == without_handle(old(self).bindings(), h.id),
            final(self).next_handle() == old(self).next_handle(),
    {
        let ghost s = self.bound@;
        let mut kept: Vec<AttachmentHandle> = Vec::new();
        let mut i: usize = 0;
        while i < self.bound.len()
            invariant
                s == self.bound@,
                i <= s.len(),
                kept@ == without_handle(s.subrange(0, i as int), h.id),
            decreases self.bound.len() - i,
        {
            assert(s.subrange(0, i + 1).drop_last() =~= s.subrange(0, i as int));
            let b = self.bound[i];
            assert(s.subrange(0, i + 1).last() == b);
            if b.id != h.id {
                kept.push(b);
            }
            i = i + 1;
        }
        assert(s.subrange(0, i as int) =~= s);
        proof {
            let ik = |g: AttachmentHandle| g.id != h.id;
            lemma_keep_where_from(s, ik);
            lemma_keep_where_unique(s, ik);
            let w = keep_where(s, ik);
            assert forall|k: int| 0 <= k < w.len() implies #[trigger] w[k].id < self.next_id by {
                let j = choose|j: int| 0 <= j < s.len() && s[j] == w[k];
            }
        }
        self.bound = kept;
    }
}

} // verus!
