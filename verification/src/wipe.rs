//! The wipe executor: a step machine that prescribes, for one file, the exact
//! ordered sequence of block writes and seeks a policy demands, and the fill
//! content of each block.
//!
//! The machine owns every decision: which fill pattern each block carries, how
//! many blocks cover the file, when the write cursor returns to the start, and
//! which descriptor is recorded for each finished pass. The caller performs
//! each prescribed step against the file and asks for the next; an I/O failure
//! simply abandons the machine, so a failed file never reaches a completed
//! descriptor sequence.

use vstd::prelude::*;
use crate::policy::{Policy, FillSpec, spec_passes, spec_label, spec_labels};
use crate::policy::pass_label;
use rand::Rng;

verus! {

/// Every write the executor prescribes is one block of this many bytes.
pub const BLOCK_SIZE: usize = 4096;

/// How many whole blocks a pass writes over a file of `size` bytes:
/// one more than the number of complete blocks the size fills, so the
/// final partial block is always covered. A pass never writes fewer
/// blocks, and never more. The final block is not clamped to the
/// remaining byte count: a pass may extend the file's on-disk length
/// past `size`, which is accepted — the audit record keeps the pre-wipe
/// length either way.
pub open spec fn spec_block_count(size: u64) -> int {
    size as int / 4096 + 1
}

/// The constant fill byte of a pass, or `None` for a random-fill pass.
pub open spec fn fill_byte(f: FillSpec) -> Option<u8> {
    match f {
        FillSpec::Zeros => Some(0u8),
        FillSpec::Ones => Some(0xFFu8),
        FillSpec::Random => None,
    }
}

/// Number of blocks each pass writes for a file of `size` bytes.
pub fn block_count(size: u64) -> (r: u64)
    ensures
        r == spec_block_count(size),
{
    size / 4096 + 1
}

/// The thread-local random generator of the `rand` crate, declared so that
/// a verified function can carry one; the value itself is opaque here.
#[verifier::external_type_specification]
#[verifier::external_body]
pub struct ExThreadRng(rand::rngs::ThreadRng);

/// Relies on `rand_core::Rng::fill_bytes` for `ThreadRng`: it fills the
/// buffer entirely with new random data and leaves its length unchanged.
/// Nothing is assumed about the bytes themselves: every caller's contract
/// holds for every possible outcome of the draw.
#[verifier::external_body]
fn fill_random(rng: &mut rand::rngs::ThreadRng, buf: &mut Vec<u8>)
    ensures
        final(buf)@.len() == old(buf)@.len(),
{
    rng.fill_bytes(buf.as_mut_slice());
}

/// A block in which every byte is `b`.
fn constant_block(b: u8) -> (r: Vec<u8>)
    ensures
        r@.len() == BLOCK_SIZE as int,
        forall|k: int| 0 <= k < r@.len() ==> r@[k] == b,
{
    let mut v: Vec<u8> = Vec::new();
    let mut j: usize = 0;
    while j < BLOCK_SIZE
        invariant
            j <= BLOCK_SIZE,
            v@.len() == j as int,
            forall|k: int| 0 <= k < j as int ==> v@[k] == b,
        decreases BLOCK_SIZE - j,
    {
        v.push(b);
        j = j + 1;
    }
    v
}

/// The content of one block of a pass. A constant pass always yields the
/// same pattern; a random pass refills the block from a fresh entropy draw
/// on every call, so no two blocks share a reused buffer.
pub fn fill_block(f: &FillSpec, rng: &mut rand::rngs::ThreadRng) -> (r: Vec<u8>)
    ensures
        r@.len() == BLOCK_SIZE as int,
        forall|k: int| 0 <= k < r@.len() && fill_byte(*f) is Some ==> r@[k] == fill_byte(
            *f,
        ).unwrap(),
{
    match f {
        FillSpec::Zeros => constant_block(0x00),
        FillSpec::Ones => constant_block(0xFF),
        FillSpec::Random => {
            let mut v = constant_block(0x00);
            fill_random(rng, &mut v);
            v
        },
    }
}

/// One step the executor prescribes against the open file.
#[derive(Clone, Copy, Debug, PartialEq, Eq, Structural)]
pub enum WipeStep {
    /// Write one block whose content follows the given fill rule.
    Write(FillSpec),
    /// Move the write cursor back to the start of the file.
    SeekStart,
    /// Every pass is finished; nothing more is written.
    Done,
}

/// The per-file executor state: which pass and which block within it come
/// next, and the descriptors of the passes finished so far.
pub struct WipeMachine {
    /// The policy being applied.
    pub policy: Policy,
    /// The file's length in bytes, captured before any pass began.
    pub size: u64,
    /// The ordered pass sequence of `policy`.
    pub passes: Vec<FillSpec>,
    /// Blocks each pass writes: `spec_block_count(size)`.
    pub total_blocks: u64,
    /// Index of the pass currently being written.
    pub cur_pass: usize,
    /// Blocks of the current pass already prescribed.
    pub cur_block: u64,
    /// Descriptors of the passes finished so far, in pass order.
    pub labels: Vec<String>,
}

impl WipeMachine {
    /// The machine's state is consistent with its policy and size.
    pub open spec fn wf(&self) -> bool {
        &&& self.passes@ == spec_passes(self.policy)
        &&& self.total_blocks == spec_block_count(self.size)
        &&& self.cur_pass <= self.passes@.len()
        &&& self.cur_block <= self.total_blocks
        &&& (self.cur_pass == self.passes@.len() ==> self.cur_block == 0)
        &&& self.labels.deep_view() == spec_labels(self.policy).take(self.cur_pass as int)
    }

    /// All passes have been prescribed in full.
    pub open spec fn done(&self) -> bool {
        self.cur_pass == spec_passes(self.policy).len()
    }

    /// The current pass still has blocks to write.
    pub open spec fn in_pass(&self) -> bool {
        !self.done() && self.cur_block < self.total_blocks
    }

    /// A fresh executor for one file: the pass sequence of `policy`, applied
    /// block by block over the first `size` bytes (rounded up to whole
    /// blocks), starting at the first block of the first pass.
    pub fn new(policy: &Policy, size: u64) -> (r: WipeMachine)
        ensures
            r.wf(),
            r.policy == *policy,
            r.size == size,
            r.cur_pass == 0,
            r.cur_block == 0,
            r.labels.deep_view() == Seq::<Seq<char>>::empty(),
    {
        let m = WipeMachine {
            policy: *policy,
            size,
            passes: policy.passes(),
            total_blocks: block_count(size),
            cur_pass: 0,
            cur_block: 0,
            labels: Vec::new(),
        };
        proof {
            assert(m.labels.deep_view() =~= Seq::<Seq<char>>::empty());
            assert(m.labels.deep_view() =~= spec_labels(m.policy).take(0));
        }
        m
    }

    /// The next step to perform on the file. Within a pass it prescribes one
    /// block write per call, `spec_block_count(size)` of them in all; when a
    /// pass completes, its descriptor is recorded and the cursor is sent back
    /// to the start — except after the final pass, which ends the run.
    pub fn next(&mut self) -> (r: WipeStep)
        requires
            old(self).wf(),
        ensures
            final(self).wf(),
            final(self).policy == old(self).policy,
            final(self).size == old(self).size,
            final(self).total_blocks == old(self).total_blocks,
            old(self).done() ==> {
                &&& r == WipeStep::Done
                &&& *final(self) == *old(self)
            },
            old(self).in_pass() ==> {
                &&& r == WipeStep::Write(spec_passes(old(self).policy)[old(self).cur_pass as int])
                &&& final(self).cur_pass == old(self).cur_pass
                &&& final(self).cur_block == old(self).cur_block + 1
                &&& final(self).labels == old(self).labels
            },
            (!old(self).done() && !old(self).in_pass()) ==> {
                &&& final(self).cur_pass == old(self).cur_pass + 1
                &&& final(self).cur_block == 0
                &&& final(self).labels.deep_view() == old(self).labels.deep_view().push(
                    spec_label(old(self).policy, old(self).cur_pass as int))
                &&& (r == WipeStep::SeekStart <==> !final(self).done())
                &&& (r == WipeStep::Done <==> final(self).done())
            },
    {
        if self.cur_pass == self.passes.len() {
            WipeStep::Done
        } else if self.cur_block < self.total_blocks {
            let f = self.passes[self.cur_pass];
            self.cur_block = self.cur_block + 1;
            WipeStep::Write(f)
        } else {
            let ghost prev = self.labels.deep_view();
            let lbl = pass_label(&self.policy, self.cur_pass);
            let ghost lbl_view = lbl@;
            self.labels.push(lbl);
            proof {
                assert(prev.len() == self.cur_pass as int);
                assert(self.labels@.len() == self.cur_pass as int + 1);
                assert forall|j: int| 0 <= j < self.labels.deep_view().len() implies
                    self.labels.deep_view()[j] == prev.push(lbl_view)[j] by {
                    if j < prev.len() {
                        assert(self.labels.deep_view()[j] == prev[j]);
                    } else {
                        assert(self.labels.deep_view()[j] == lbl_view);
                    }
                }
                assert(self.labels.deep_view() =~= prev.push(lbl_view));
                assert(self.labels.deep_view() =~= spec_labels(self.policy).take(
                    self.cur_pass as int + 1,
                ));
            }
            self.cur_pass = self.cur_pass + 1;
            self.cur_block = 0;
            if self.cur_pass < self.passes.len() {
                WipeStep::SeekStart
            } else {
                WipeStep::Done
            }
        }
    }

    /// Whether every pass has been prescribed in full.
    pub fn is_done(&self) -> (r: bool)
        requires
            self.wf(),
        ensures
            r == self.done(),
    {
        self.cur_pass == self.passes.len()
    }

    /// The completed descriptor sequence: exactly the descriptors of the
    /// policy's passes, one per pass, in pass order.
    pub fn into_labels(self) -> (r: Vec<String>)
        requires
            self.wf(),
            self.done(),
        ensures
            r.deep_view() == spec_labels(self.policy),
    {
        proof {
            assert(self.labels.deep_view() =~= spec_labels(self.policy));
        }
        self.labels
    }
}

/// The dry-run gate: a wipe machine exists only for a live run. Under
/// dry-run no machine is built, so the library prescribes no write or seek
/// step at all and the file's bytes are never touched.
pub fn start_file_wipe(dry_run: bool, policy: &Policy, size: u64) -> (r: Option<WipeMachine>)
    ensures
        dry_run <==> r is None,
        !dry_run ==> {
            &&& r matches Some(m)
            &&& m.wf()
            &&& m.policy == *policy
            &&& m.size == size
            &&& m.cur_pass == 0
            &&& m.cur_block == 0
        },
{
    if dry_run {
        None
    } else {
        Some(WipeMachine::new(policy, size))
    }
}

} // verus!
