//! The platform-level interrupt controller: one 32-source group with a
//! pending bitmap and per-source priorities, two contexts each with enable
//! and claimed bitmaps, a priority threshold and an external-interrupt
//! latch (EIP), and the claim/complete handshake a guest driver drives
//! through the memory-mapped registers.
//!
//! Source id 0 is reserved: a claim that finds no eligible source returns 0,
//! so no real source may carry that id.

use vstd::prelude::*;

use crate::bits::atomic_set_bit;
use crate::bits::bit32;
use crate::bits::lemma_bit32_and3;
use crate::bits::lemma_bit32_merge;
use crate::bits::lemma_bit32_shift_test;
use crate::bits::lemma_with_bit32;
use crate::bits::with_bit32;
use crate::device::Device;
use crate::device::MMIOAccess;
use crate::device::MMIOResult;

verus! {

/// The context whose EIP the top-level interrupt query reports (the guest's
/// supervisor context on this board).
pub const VS_CONTEXT: usize = 1;

/// One group of 32 interrupt sources: a pending bitmap and one 32-bit
/// priority register per source.
#[derive(PartialEq, Eq, Debug)]
pub struct PLICInterruptX32 {
    pub pending: u32,
    pub priority: [u32; 32],
}

/// One interrupt consumer: which sources it has enabled, which it holds
/// claimed, its priority threshold, and its external-interrupt latch.
#[derive(Clone, Copy, PartialEq, Eq, Structural, Debug)]
pub struct PLICContext {
    pub enable_bits: u32,
    pub claimed_bits: u32,
    pub threshold: u32,
    pub eip: bool,
}

/// Mathematical state of the controller.
pub ghost struct PlicView {
    pub pending: u32,
    pub priority: Seq<u32>,
    pub contexts: Seq<PLICContext>,
    pub sources: u32,
}

/// Eligibility, the one rule behind both claim and EIP: the source is real
/// (id 0 is reserved), enabled for the context, pending, not already
/// claimed by the context, and its priority is positive and above the
/// context's threshold.
pub open spec fn claim_eligible(v: PlicView, ctx: int, s: int) -> bool {
    &&& 1 <= s < 32
    &&& 0 <= ctx < v.contexts.len()
    &&& bit32(v.contexts[ctx].enable_bits, s as u32)
    &&& bit32(v.pending, s as u32)
    &&& !bit32(v.contexts[ctx].claimed_bits, s as u32)
    &&& v.priority[s] > 0
    &&& v.priority[s] > v.contexts[ctx].threshold
}

/// Whether any source is eligible for the context right now.
pub open spec fn some_claimable(v: PlicView, ctx: int) -> bool {
    exists|s: int| claim_eligible(v, ctx, s)
}

/// `w` wins arbitration for `ctx`: it is eligible, and every eligible
/// source has strictly lower priority, or equal priority and an id no
/// lower (ties resolve to the lowest id).
pub open spec fn claim_winner_is(v: PlicView, ctx: int, w: int) -> bool {
    &&& claim_eligible(v, ctx, w)
    &&& forall|j: int|
        #[trigger] claim_eligible(v, ctx, j) ==> (v.priority[w] > v.priority[j] || (v.priority[w]
            == v.priority[j] && w <= j))
}

/// The ascending scan over source ids `1..k`: the eligible source with the
/// strictly greatest priority, keeping the first seen on ties; 0 when none
/// is eligible.
pub open spec fn best_upto(v: PlicView, ctx: int, k: int) -> int
    decreases k,
{
    if k <= 1 {
        0
    } else {
        let b = best_upto(v, ctx, k - 1);
        let i = k - 1;
        if claim_eligible(v, ctx, i) && (b == 0 || v.priority[i] > v.priority[b]) {
            i
        } else {
            b
        }
    }
}

/// The source a claim on `ctx` returns: the arbitration winner, or 0 when
/// nothing is eligible.
pub open spec fn claim_choice(v: PlicView, ctx: int) -> int {
    best_upto(v, ctx, 32)
}

/// The state after `ctx` claims source `w`: `w`'s pending bit cleared, its
/// claimed bit for `ctx` set, everything else untouched.
pub open spec fn after_claim(v: PlicView, ctx: int, w: int) -> PlicView {
    PlicView {
        pending: with_bit32(v.pending, w as u32, false),
        contexts: v.contexts.update(
            ctx,
            PLICContext {
                claimed_bits: with_bit32(v.contexts[ctx].claimed_bits, w as u32, true),
                ..v.contexts[ctx]
            },
        ),
        ..v
    }
}

/// What one claim does: state afterwards and the returned source id.
pub open spec fn claim_step(v: PlicView, ctx: int) -> (PlicView, int) {
    let w = claim_choice(v, ctx);
    if w == 0 {
        (v, 0)
    } else {
        (after_claim(v, ctx, w), w)
    }
}

/// The state after `ctx` completes source `irq` (an id within the group):
/// only the claimed bit is cleared; pending is untouched, so a
/// still-asserting source re-arms on the next recomputation.
pub open spec fn after_complete(v: PlicView, ctx: int, irq: int) -> PlicView {
    PlicView {
        contexts: v.contexts.update(
            ctx,
            PLICContext {
                claimed_bits: with_bit32(v.contexts[ctx].claimed_bits, irq as u32, false),
                ..v.contexts[ctx]
            },
        ),
        ..v
    }
}

/// Recomputation: every registered source's pending bit is re-derived from
/// the live interrupt lines, then the context's EIP latch becomes exactly
/// "some source is eligible".
pub open spec fn recompute(v: PlicView, ctx: int, lines: u32) -> PlicView {
    let v2 = PlicView { pending: (v.pending & !v.sources) | (lines & v.sources), ..v };
    PlicView {
        contexts: v2.contexts.update(
            ctx,
            PLICContext { eip: some_claimable(v2, ctx), ..v2.contexts[ctx] },
        ),
        ..v2
    }
}

/// `best_upto` returns 0 exactly when no source in the scanned prefix is
/// eligible, and otherwise an arbitration winner for the prefix.
proof fn lemma_best_upto(v: PlicView, ctx: int, k: int)
    requires
        1 <= k <= 32,
    ensures
        best_upto(v, ctx, k) == 0 ==> forall|j: int| 1 <= j < k ==> !claim_eligible(v, ctx, j),
        best_upto(v, ctx, k) != 0 ==> {
            let b = best_upto(v, ctx, k);
            &&& 1 <= b < k
            &&& claim_eligible(v, ctx, b)
            &&& forall|j: int|
                1 <= j < k && #[trigger] claim_eligible(v, ctx, j) ==> (v.priority[b]
                    > v.priority[j] || (v.priority[b] == v.priority[j] && b <= j))
        },
    decreases k,
{
    if k > 1 {
        lemma_best_upto(v, ctx, k - 1);
    }
}

/// The claim choice is 0 exactly when nothing is eligible; otherwise it is
/// the arbitration winner.
pub proof fn lemma_claim_choice(v: PlicView, ctx: int)
    ensures
        claim_choice(v, ctx) == 0 ==> !some_claimable(v, ctx),
        claim_choice(v, ctx) != 0 ==> claim_winner_is(v, ctx, claim_choice(v, ctx)),
{
    lemma_best_upto(v, ctx, 32);
}

/// A source that is disabled for a context is never returned by a claim on
/// that context, whatever its live state.
pub proof fn lemma_disabled_never_claimed(v: PlicView, ctx: int, s: int)
    requires
        1 <= s < 32,
        !bit32(v.contexts[ctx].enable_bits, s as u32),
    ensures
        claim_step(v, ctx).1 != s,
{
    lemma_claim_choice(v, ctx);
}

/// A source a context already holds claimed is not returned by a further
/// claim, and stays claimed across it: without an intervening complete, no
/// source id repeats.
pub proof fn lemma_claimed_not_reclaimed(v: PlicView, ctx: int, s: int)
    requires
        0 <= ctx < v.contexts.len(),
        1 <= s < 32,
        bit32(v.contexts[ctx].claimed_bits, s as u32),
    ensures
        claim_step(v, ctx).1 != s,
        bit32(claim_step(v, ctx).0.contexts[ctx].claimed_bits, s as u32),
{
    lemma_claim_choice(v, ctx);
    let w = claim_choice(v, ctx);
    if w != 0 {
        lemma_with_bit32(v.contexts[ctx].claimed_bits, w as u32, true, s as u32);
    }
}

/// The source ids returned by `n` consecutive claims on one context, with
/// no complete in between.
pub open spec fn claim_run(v: PlicView, ctx: int, n: nat) -> Seq<int>
    decreases n,
{
    if n == 0 {
        Seq::empty()
    } else {
        seq![claim_step(v, ctx).1] + claim_run(claim_step(v, ctx).0, ctx, (n - 1) as nat)
    }
}

/// A run of `n` claims returns `n` source ids.
pub proof fn lemma_claim_run_len(v: PlicView, ctx: int, n: nat)
    ensures
        claim_run(v, ctx, n).len() == n,
    decreases n,
{
    if n > 0 {
        lemma_claim_run_len(claim_step(v, ctx).0, ctx, (n - 1) as nat);
    }
}

/// A source a context holds claimed is returned by no claim of a whole
/// run, and stays claimed across it.
proof fn lemma_claimed_all_run(v: PlicView, ctx: int, n: nat, k: int, s: int)
    requires
        0 <= ctx < v.contexts.len(),
        1 <= s < 32,
        bit32(v.contexts[ctx].claimed_bits, s as u32),
        0 <= k < n,
    ensures
        claim_run(v, ctx, n)[k] != s,
    decreases n,
{
    lemma_claimed_not_reclaimed(v, ctx, s);
    let v2 = claim_step(v, ctx).0;
    let rest = claim_run(v2, ctx, (n - 1) as nat);
    lemma_claim_run_len(v2, ctx, (n - 1) as nat);
    assert(claim_run(v, ctx, n) == seq![claim_step(v, ctx).1] + rest);
    if k > 0 {
        lemma_claimed_all_run(v2, ctx, (n - 1) as nat, k - 1, s);
        assert(claim_run(v, ctx, n)[k] == rest[k - 1]);
    } else {
        assert(claim_run(v, ctx, n)[0] == claim_step(v, ctx).1);
    }
}

/// Across any run of consecutive claims on one context, with no complete
/// in between, no source id repeats: a claim either returns a new source
/// or reports that nothing is eligible.
pub proof fn lemma_claim_run_no_repeat(v: PlicView, ctx: int, n: nat, i: int, j: int)
    requires
        0 <= ctx < v.contexts.len(),
        0 <= i < j < n,
        claim_run(v, ctx, n)[i] != 0,
    ensures
        claim_run(v, ctx, n)[j] != claim_run(v, ctx, n)[i],
    decreases n,
{
    let w = claim_step(v, ctx).1;
    let v2 = claim_step(v, ctx).0;
    let rest = claim_run(v2, ctx, (n - 1) as nat);
    lemma_claim_run_len(v2, ctx, (n - 1) as nat);
    assert(claim_run(v, ctx, n) == seq![w] + rest);
    assert(claim_run(v, ctx, n)[j] == rest[j - 1]);
    if i == 0 {
        assert(claim_run(v, ctx, n)[0] == w);
        lemma_claim_choice(v, ctx);
        lemma_with_bit32(v.contexts[ctx].claimed_bits, w as u32, true, w as u32);
        lemma_claimed_all_run(v2, ctx, (n - 1) as nat, j - 1, w);
    } else {
        assert(claim_run(v, ctx, n)[i] == rest[i - 1]);
        lemma_claim_run_no_repeat(v2, ctx, (n - 1) as nat, i - 1, j - 1);
    }
}

/// Among eligible sources, claim follows priority: a strictly
/// lower-priority source is never returned while a higher one is eligible,
/// and the returned source's priority is at least the higher one's.
pub proof fn lemma_priority_ordering(v: PlicView, ctx: int, s1: int, s2: int)
    requires
        claim_eligible(v, ctx, s1),
        claim_eligible(v, ctx, s2),
        v.priority[s1] > v.priority[s2],
    ensures
        claim_step(v, ctx).1 != 0,
        claim_step(v, ctx).1 != s2,
        v.priority[claim_step(v, ctx).1] >= v.priority[s1],
{
    lemma_claim_choice(v, ctx);
}

/// Threshold gating: a source whose priority is at or below the context's
/// threshold is not eligible, is never claimed, and cannot witness EIP; if
/// every source is gated, nothing is claimable at all.
pub proof fn lemma_threshold_gating(v: PlicView, ctx: int, s: int)
    requires
        1 <= s,
        v.priority[s] <= v.contexts[ctx].threshold,
    ensures
        !claim_eligible(v, ctx, s),
        claim_step(v, ctx).1 != s,
        (forall|j: int|
            1 <= j < 32 ==> v.priority[j] <= v.contexts[ctx].threshold) ==> !some_claimable(
            v,
            ctx,
        ),
{
    lemma_claim_choice(v, ctx);
}

/// A context's claimed bitmap moves only through the claim/complete
/// handshake: an access to any other register leaves it untouched.
pub proof fn lemma_claimed_only_by_handshake(v: PlicView, offset: usize, access: MMIOAccess, ctx: int)
    requires
        v.contexts.len() == 2,
        0 <= ctx < 2,
        !(spec_parse(offset) matches Some(PLICMemoryMap::ClaimComplete { .. })),
    ensures
        plic_step(v, offset, access).0.contexts[ctx].claimed_bits
            == v.contexts[ctx].claimed_bits,
{
    if offset % 4 == 0 {
        match spec_parse(offset) {
            Some(reg) => match access {
                MMIOAccess::StoreWord(val) => {
                    match reg {
                        PLICMemoryMap::EnableX32 { ctx: c2, source_div32 } => {
                            if c2 < 2 && source_div32 == 0 {
                                assert(plic_store(v, reg, val).0.contexts[ctx]
                                    == (if ctx == c2 {
                                    PLICContext { enable_bits: val, ..v.contexts[ctx] }
                                } else {
                                    v.contexts[ctx]
                                }));
                            }
                        },
                        PLICMemoryMap::Threshold { ctx: c2 } => {
                            if c2 < 2 {
                                assert(plic_store(v, reg, val).0.contexts[ctx]
                                    == (if ctx == c2 {
                                    PLICContext { threshold: val, ..v.contexts[ctx] }
                                } else {
                                    v.contexts[ctx]
                                }));
                            }
                        },
                        _ => {},
                    }
                },
                _ => {},
            },
            None => {},
        }
    }
}

/// Recomputation re-derives every registered source's pending bit from
/// its live line and leaves every unregistered source's bit alone.
pub proof fn lemma_recompute_pending(v: PlicView, c: int, lines: u32, s: u32)
    requires
        s < 32,
    ensures
        bit32(recompute(v, c, lines).pending, s) == (if bit32(v.sources, s) {
            bit32(lines, s)
        } else {
            bit32(v.pending, s)
        }),
{
    lemma_bit32_merge(v.pending, lines, v.sources, s);
}

/// Recomputation rewrites pending bits and the EIP latch, never a claimed
/// bitmap: only complete releases a claimed source.
pub proof fn lemma_recompute_keeps_claimed(v: PlicView, c: int, lines: u32, ctx: int)
    requires
        0 <= ctx < v.contexts.len(),
        0 <= c < v.contexts.len(),
    ensures
        recompute(v, c, lines).contexts[ctx].claimed_bits == v.contexts[ctx].claimed_bits,
{
}

/// Register round-trip: storing priority `p` for source `s` and loading it
/// back returns `p`.
pub proof fn lemma_priority_roundtrip(v: PlicView, s: usize, p: u32)
    requires
        s < 32,
        v.priority.len() == 32,
    ensures
        plic_step(v, (s * 4) as usize, MMIOAccess::StoreWord(p)).1 == MMIOResult::Handled(0),
        plic_step(
            plic_step(v, (s * 4) as usize, MMIOAccess::StoreWord(p)).0,
            (s * 4) as usize,
            MMIOAccess::LoadWord,
        ).1 == MMIOResult::Handled(p as u64),
{
    let offset = (s * 4) as usize;
    assert(offset % 4 == 0 && offset / 4 == s) by (nonlinear_arith)
        requires
            offset == s * 4,
            s < 32,
    ;
}

/// What a word load of a decoded register returns, and what it does to the
/// state (only a claim register load has a side effect).
pub open spec fn plic_load(v: PlicView, reg: PLICMemoryMap) -> (PlicView, MMIOResult) {
    match reg {
        PLICMemoryMap::Priority { source } => {
            if source < 32 {
                (v, MMIOResult::Handled(v.priority[source as int] as u64))
            } else {
                (v, MMIOResult::Malformed)
            }
        },
        PLICMemoryMap::PendingX32 { source_div32 } => {
            if source_div32 == 0 {
                (v, MMIOResult::Handled(v.pending as u64))
            } else {
                (v, MMIOResult::Malformed)
            }
        },
        PLICMemoryMap::EnableX32 { ctx, source_div32 } => {
            if ctx < 2 && source_div32 == 0 {
                (v, MMIOResult::Handled(v.contexts[ctx as int].enable_bits as u64))
            } else {
                (v, MMIOResult::Malformed)
            }
        },
        PLICMemoryMap::Threshold { ctx } => {
            if ctx < 2 {
                (v, MMIOResult::Handled(v.contexts[ctx as int].threshold as u64))
            } else {
                (v, MMIOResult::Malformed)
            }
        },
        PLICMemoryMap::ClaimComplete { ctx } => {
            if ctx < 2 {
                (claim_step(v, ctx as int).0, MMIOResult::Handled(claim_step(v, ctx as int).1 as u64))
            } else {
                (v, MMIOResult::Malformed)
            }
        },
    }
}

/// What a word store to a decoded register does. The pending bitmap is
/// producer-written, and a completion value must name a source of the
/// group: either store is malformed otherwise.
pub open spec fn plic_store(v: PlicView, reg: PLICMemoryMap, val: u32) -> (PlicView, MMIOResult) {
    match reg {
        PLICMemoryMap::Priority { source } => {
            if source < 32 {
                (PlicView { priority: v.priority.update(source as int, val), ..v }, MMIOResult::Handled(0))
            } else {
                (v, MMIOResult::Malformed)
            }
        },
        PLICMemoryMap::PendingX32 { .. } => (v, MMIOResult::Malformed),
        PLICMemoryMap::EnableX32 { ctx, source_div32 } => {
            if ctx < 2 && source_div32 == 0 {
                (
                    PlicView {
                        contexts: v.contexts.update(
                            ctx as int,
                            PLICContext { enable_bits: val, ..v.contexts[ctx as int] },
                        ),
                        ..v
                    },
                    MMIOResult::Handled(0),
                )
            } else {
                (v, MMIOResult::Malformed)
            }
        },
        PLICMemoryMap::Threshold { ctx } => {
            if ctx < 2 {
                (
                    PlicView {
                        contexts: v.contexts.update(
                            ctx as int,
                            PLICContext { threshold: val, ..v.contexts[ctx as int] },
                        ),
                        ..v
                    },
                    MMIOResult::Handled(0),
                )
            } else {
                (v, MMIOResult::Malformed)
            }
        },
        PLICMemoryMap::ClaimComplete { ctx } => {
            if ctx < 2 && val < 32 {
                (after_complete(v, ctx as int, val as int), MMIOResult::Handled(0))
            } else {
                (v, MMIOResult::Malformed)
            }
        },
    }
}

/// What one access does to the controller: unaligned or non-word accesses
/// and offsets outside the register map are malformed.
pub open spec fn plic_step(v: PlicView, offset: usize, access: MMIOAccess) -> (PlicView, MMIOResult) {
    if offset % 4 != 0 {
        (v, MMIOResult::Malformed)
    } else {
        match spec_parse(offset) {
            None => (v, MMIOResult::Malformed),
            Some(reg) => match access {
                MMIOAccess::LoadWord => plic_load(v, reg),
                MMIOAccess::StoreWord(val) => plic_store(v, reg, val),
                _ => (v, MMIOResult::Malformed),
            },
        }
    }
}

/// A register of the controller, decoded from an MMIO offset.
#[derive(Clone, Copy, PartialEq, Eq, Structural, Debug)]
pub enum PLICMemoryMap {
    Priority { source: usize },
    PendingX32 { source_div32: usize },
    EnableX32 { ctx: usize, source_div32: usize },
    Threshold { ctx: usize },
    ClaimComplete { ctx: usize },
}

/// The register an offset decodes to, or none for the holes in the map.
pub open spec fn spec_parse(offset: usize) -> Option<PLICMemoryMap> {
    if offset < 0x1000 {
        Some(PLICMemoryMap::Priority { source: offset / 4 })
    } else if offset < 0x1080 {
        Some(PLICMemoryMap::PendingX32 { source_div32: (((offset - 0x1000) / 4) as usize) })
    } else if 0x2000 <= offset && offset < 0x1f2000 {
        Some(
            PLICMemoryMap::EnableX32 {
                ctx: (((offset - 0x2000) / 0x80) as usize),
                source_div32: ((((offset - 0x2000) % 0x80) / 4) as usize),
            },
        )
    } else if 0x200000 <= offset && offset < 0x4000000 {
        if (offset - 0x200000) % 0x1000 < 4 {
            Some(PLICMemoryMap::Threshold { ctx: (((offset - 0x200000) / 0x1000) as usize) })
        } else if (offset - 0x200000) % 0x1000 < 8 {
            Some(PLICMemoryMap::ClaimComplete { ctx: (((offset - 0x200000) / 0x1000) as usize) })
        } else {
            None
        }
    } else {
        None
    }
}

impl PLICMemoryMap {
    /// Decodes an offset into the owning register. The mapping is complete:
    /// every offset decodes to a register or to none.
    pub fn parse(offset: usize) -> (r: Option<PLICMemoryMap>)
        ensures
            r == spec_parse(offset),
    {
        if offset < 0x1000 {
            return Some(PLICMemoryMap::Priority { source: offset / 4 });
        }
        if offset >= 0x1000 && offset < 0x1080 {
            return Some(PLICMemoryMap::PendingX32 { source_div32: (offset - 0x1000) / 4 });
        }
        if offset >= 0x2000 && offset < 0x1f2000 {
            let o = offset - 0x2000;
            return Some(PLICMemoryMap::EnableX32 { ctx: o / 0x80, source_div32: (o % 0x80) / 4 });
        }
        if offset >= 0x200000 && offset < 0x4000000 {
            let o = offset - 0x200000;
            let register = o % 0x1000;
            if register < 4 {
                return Some(PLICMemoryMap::Threshold { ctx: o / 0x1000 });
            }
            if register < 8 {
                return Some(PLICMemoryMap::ClaimComplete { ctx: o / 0x1000 });
            }
        }
        None
    }
}

/// The reset state of the controller: nothing pending, priorities and
/// thresholds zero, nothing enabled or claimed, no EIP, with the given
/// static source map.
pub open spec fn plic_reset(v: PlicView, sources: u32) -> bool {
    &&& v.pending == 0
    &&& v.priority.len() == 32
    &&& (forall|i: int| 0 <= i < 32 ==> v.priority[i] == 0)
    &&& v.contexts.len() == 2
    &&& (forall|i: int|
        0 <= i < 2 ==> v.contexts[i] == (PLICContext {
            enable_bits: 0,
            claimed_bits: 0,
            threshold: 0,
            eip: false,
        }))
    &&& v.sources == sources
}

/// PLIC interrupt controller: one 32-source group, two contexts, and the
/// static mask of source ids that carry a registered device.
pub struct PLIC {
    interrupts: PLICInterruptX32,
    contexts: [PLICContext; 2],
    sources: u32,
}

impl View for PLIC {
    type V = PlicView;

    closed spec fn view(&self) -> PlicView {
        PlicView {
            pending: self.interrupts.pending,
            priority: self.interrupts.priority@,
            contexts: self.contexts@,
            sources: self.sources,
        }
    }
}

impl PLIC {
    /// A fresh controller: nothing pending, all priorities and thresholds
    /// zero, nothing enabled or claimed, no EIP. `sources` is the static
    /// mask of source ids wired to a device.
    pub fn new(sources: u32) -> (r: Self)
        ensures
            plic_reset(r@, sources),
    {
        let zero_ctx = PLICContext { enable_bits: 0, claimed_bits: 0, threshold: 0, eip: false };
        PLIC {
            interrupts: PLICInterruptX32 { pending: 0, priority: [0u32; 32] },
            contexts: [zero_ctx, zero_ctx],
            sources,
        }
    }

    /// The context's external-interrupt latch, as last recomputed.
    pub fn eip(&self, ctx: usize) -> (r: bool)
        requires
            ctx < 2,
        ensures
            r == self@.contexts[ctx as int].eip,
    {
        self.contexts[ctx].eip
    }

    /// Recomputation: re-derives every registered source's pending bit from
    /// the live interrupt lines (`lines` bit `i` is source `i`'s line), then
    /// latches the context's EIP from the eligibility rule.
    pub fn update_eip_for_context(&mut self, ctx: usize, lines: u32)
        requires
            ctx < 2,
        ensures
            final(self)@ == recompute(old(self)@, ctx as int, lines),
    {
        self.interrupts.pending = (self.interrupts.pending & !self.sources) | (lines
            & self.sources);
        let ghost v = self@;
        let enabled = self.contexts[ctx].enable_bits;
        let claimed = self.contexts[ctx].claimed_bits;
        let threshold = self.contexts[ctx].threshold;
        let epc = enabled & self.interrupts.pending & !claimed;
        let mut found = false;
        let mut i: usize = 1;  // source id 0 is reserved
        while i < 32 && !found
            invariant
                1 <= i <= 32,
                v == self@,
                enabled == v.contexts[ctx as int].enable_bits,
                claimed == v.contexts[ctx as int].claimed_bits,
                threshold == v.contexts[ctx as int].threshold,
                epc == enabled & v.pending & !claimed,
                ctx < 2,
                v.contexts.len() == 2,
                v.priority.len() == 32,
                !found ==> forall|j: int| 1 <= j < i ==> !claim_eligible(v, ctx as int, j),
                found ==> some_claimable(v, ctx as int),
            decreases 32 - i,
        {
            proof {
                lemma_bit32_shift_test(epc, i as u32);
                lemma_bit32_and3(enabled, v.pending, claimed, i as u32);
            }
            if (epc >> (i as u32)) & 1 == 1 {
                let priority = self.interrupts.priority[i];
                if priority > 0 && priority > threshold {
                    found = true;
                    proof {
                        assert(claim_eligible(v, ctx as int, i as int));
                    }
                }
            }
            i = i + 1;
        }
        proof {
            if !found {
                assert forall|s: int| !claim_eligible(v, ctx as int, s) by {
                    if 1 <= s < 32 {
                        assert(!claim_eligible(v, ctx as int, s));
                    }
                }
            }
        }
        let c = self.contexts[ctx];
        self.contexts[ctx] = PLICContext { eip: found, ..c };
        proof {
            let vf = recompute(old(self)@, ctx as int, lines);
            assert(some_claimable(v, ctx as int) == found);
            assert(self@.contexts =~= vf.contexts);
            assert(self@ =~= vf);
        }
    }

    /// Claim: among the eligible sources, the strictly-greatest-priority one
    /// wins, ties to the lowest id; its pending bit is cleared and its
    /// claimed bit for the context is set. With nothing eligible, 0 is
    /// returned and nothing changes.
    pub fn claim_interrupt(&mut self, ctx: usize) -> (r: usize)
        requires
            ctx < 2,
        ensures
            r as int == claim_step(old(self)@, ctx as int).1,
            final(self)@ == claim_step(old(self)@, ctx as int).0,
            r < 32,
    {
        let ghost v = self@;
        let enabled = self.contexts[ctx].enable_bits;
        let claimed = self.contexts[ctx].claimed_bits;
        let threshold = self.contexts[ctx].threshold;
        let epc = enabled & self.interrupts.pending & !claimed;
        let mut highest: u32 = 0;
        let mut chosen: usize = 0;
        let mut i: usize = 1;  // source id 0 is reserved
        while i < 32
            invariant
                1 <= i <= 32,
                v == self@,
                enabled == v.contexts[ctx as int].enable_bits,
                claimed == v.contexts[ctx as int].claimed_bits,
                threshold == v.contexts[ctx as int].threshold,
                epc == enabled & v.pending & !claimed,
                ctx < 2,
                v.contexts.len() == 2,
                v.priority.len() == 32,
                chosen as int == best_upto(v, ctx as int, i as int),
                chosen == 0 ==> highest == 0,
                chosen != 0 ==> 1 <= chosen < i && highest == v.priority[chosen as int],
            decreases 32 - i,
        {
            proof {
                lemma_bit32_shift_test(epc, i as u32);
                lemma_bit32_and3(enabled, v.pending, claimed, i as u32);
            }
            if (epc >> (i as u32)) & 1 == 1 {
                let priority = self.interrupts.priority[i];
                if priority > 0 && priority > threshold && (chosen == 0 || priority > highest) {
                    chosen = i;
                    highest = priority;
                }
            }
            i = i + 1;
        }
        if chosen == 0 {
            return 0;
        }
        atomic_set_bit(&mut self.interrupts.pending, chosen as u8, false);
        let c = self.contexts[ctx];
        self.contexts[ctx] = PLICContext { claimed_bits: c.claimed_bits | (1u32 << (chosen as u32)), ..c };
        proof {
            let vf = after_claim(v, ctx as int, chosen as int);
            assert(self@.contexts =~= vf.contexts);
            assert(self@ =~= vf);
        }
        chosen
    }

    /// Complete: clears only the context's claimed bit for `irq`, which
    /// must name a source of the group (the register handler surfaces a
    /// malformed access for anything else).
    pub fn complete_interrupt(&mut self, ctx: usize, irq: usize)
        requires
            ctx < 2,
            irq < 32,
        ensures
            final(self)@ == after_complete(old(self)@, ctx as int, irq as int),
    {
        let c = self.contexts[ctx];
        self.contexts[ctx] = PLICContext { claimed_bits: c.claimed_bits & !(1u32 << (irq as u32)), ..c };
        proof {
            let vf = after_complete(old(self)@, ctx as int, irq as int);
            assert(self@.contexts =~= vf.contexts);
            assert(self@ =~= vf);
        }
    }

    /// The interrupt group that owns source `id`, with the source's index
    /// inside it; none for an id beyond the single group.
    pub fn get_interrupt_slice(&self, id: usize) -> (r: Option<(&PLICInterruptX32, usize)>)
        ensures
            (id < 32) == (r is Some),
            id < 32 ==> (match r {
                Some(p) => p.0.pending == self@.pending && p.0.priority@ == self@.priority && p.1
                    == id % 32,
                None => false,
            }),
    {
        if id / 32 < 1 {
            Some((&self.interrupts, id % 32))
        } else {
            None
        }
    }

    /// The record of context `id`, or none for an id beyond the two
    /// contexts.
    pub fn get_context(&self, id: usize) -> (r: Option<&PLICContext>)
        ensures
            (id < 2) == (r is Some),
            id < 2 ==> (match r {
                Some(c) => *c == self@.contexts[id as int],
                None => false,
            }),
    {
        if id < 2 {
            Some(&self.contexts[id])
        } else {
            None
        }
    }

    /// Recomputes pending bits and the supervisor context's EIP from the
    /// live interrupt lines, and reports the latch.
    pub fn has_interrupt(&mut self, lines: u32) -> (r: bool)
        ensures
            final(self)@ == recompute(old(self)@, VS_CONTEXT as int, lines),
            r == final(self)@.contexts[VS_CONTEXT as int].eip,
    {
        self.update_eip_for_context(VS_CONTEXT, lines);
        self.eip(VS_CONTEXT)
    }

    /// Handles a word access per the register map. Reading the
    /// claim/complete register performs the claim as a side effect; writing
    /// it completes the written source id.
    pub fn handle_mmio(&mut self, offset: usize, access: MMIOAccess) -> (r: MMIOResult)
        ensures
            final(self)@ == plic_step(old(self)@, offset, access).0,
            r == plic_step(old(self)@, offset, access).1,
    {
        if offset % 4 != 0 {
            return MMIOResult::Malformed;
        }
        let reg = match PLICMemoryMap::parse(offset) {
            Some(x) => x,
            None => {
                return MMIOResult::Malformed;
            },
        };
        match access {
            MMIOAccess::LoadWord => {
                match reg {
                    PLICMemoryMap::Priority { source } => {
                        if source < 32 {
                            MMIOResult::Handled(self.interrupts.priority[source] as u64)
                        } else {
                            MMIOResult::Malformed
                        }
                    },
                    PLICMemoryMap::PendingX32 { source_div32 } => {
                        if source_div32 == 0 {
                            MMIOResult::Handled(self.interrupts.pending as u64)
                        } else {
                            MMIOResult::Malformed
                        }
                    },
                    PLICMemoryMap::EnableX32 { ctx, source_div32 } => {
                        if ctx < 2 && source_div32 == 0 {
                            MMIOResult::Handled(self.contexts[ctx].enable_bits as u64)
                        } else {
                            MMIOResult::Malformed
                        }
                    },
                    PLICMemoryMap::Threshold { ctx } => {
                        if ctx < 2 {
                            MMIOResult::Handled(self.contexts[ctx].threshold as u64)
                        } else {
                            MMIOResult::Malformed
                        }
                    },
                    PLICMemoryMap::ClaimComplete { ctx } => {
                        if ctx < 2 {
                            let id = self.claim_interrupt(ctx);
                            MMIOResult::Handled(id as u64)
                        } else {
                            MMIOResult::Malformed
                        }
                    },
                }
            },
            MMIOAccess::StoreWord(val) => {
                match reg {
                    PLICMemoryMap::Priority { source } => {
                        if source < 32 {
                            self.interrupts.priority[source] = val;
                            MMIOResult::Handled(0)
                        } else {
                            MMIOResult::Malformed
                        }
                    },
                    PLICMemoryMap::PendingX32 { .. } => MMIOResult::Malformed,
                    PLICMemoryMap::EnableX32 { ctx, source_div32 } => {
                        if ctx < 2 && source_div32 == 0 {
                            let c = self.contexts[ctx];
                            self.contexts[ctx] = PLICContext { enable_bits: val, ..c };
                            MMIOResult::Handled(0)
                        } else {
                            MMIOResult::Malformed
                        }
                    },
                    PLICMemoryMap::Threshold { ctx } => {
                        if ctx < 2 {
                            let c = self.contexts[ctx];
                            self.contexts[ctx] = PLICContext { threshold: val, ..c };
                            MMIOResult::Handled(0)
                        } else {
                            MMIOResult::Malformed
                        }
                    },
                    PLICMemoryMap::ClaimComplete { ctx } => {
                        if ctx < 2 && val < 32 {
                            self.complete_interrupt(ctx, val as usize);
                            MMIOResult::Handled(0)
                        } else {
                            MMIOResult::Malformed
                        }
                    },
                }
            },
            _ => MMIOResult::Malformed,
        }
    }

    /// The size of the controller's MMIO region.
    pub fn mmio_region_size(&self) -> (r: usize)
        ensures
            r == 0x4000000,
    {
        0x4000000
    }
}

impl Device for PLIC {
    fn handle_mmio(&mut self, offset: usize, access: MMIOAccess) -> MMIOResult {
        self.handle_mmio(offset, access)
    }

    fn mmio_region_size(&self) -> usize {
        self.mmio_region_size()
    }

    /// The supervisor context's latch as last recomputed; recomputation
    /// against the live lines happens through `PLIC::has_interrupt`.
    fn has_interrupt(&self) -> bool {
        self.eip(VS_CONTEXT)
    }
}

/// An interrupt-reporting device, as the top-level query handle sees it.
pub trait IrqDevice: Device {
    fn has_interrupt(&self) -> bool;
}

impl IrqDevice for PLIC {
    fn has_interrupt(&self) -> bool {
        self.eip(VS_CONTEXT)
    }
}

} // verus!
