//! The policy engine: a pure mapping from a wipe policy to the ordered
//! sequence of fill passes it performs, together with the human-readable
//! descriptor of each pass.

use vstd::prelude::*;
use vstd::string::*;

verus! {

/// A wipe policy: which ordered sequence of overwrite passes to run.
#[derive(Clone, Copy, Debug, PartialEq, Eq, Structural)]
pub enum Policy {
    /// Single zero-fill pass.
    Clear,
    /// Three passes: zero-fill, one-fill (0xFF), random-fill, in that order.
    Dod,
}

/// The content rule of one overwrite pass.
#[derive(Clone, Copy, Debug, PartialEq, Eq, Structural)]
pub enum FillSpec {
    /// Every byte written is 0x00.
    Zeros,
    /// Every byte written is 0xFF.
    Ones,
    /// Every block is refilled from a fresh entropy draw.
    Random,
}

/// The ordered pass sequence a policy prescribes.
pub open spec fn spec_passes(p: Policy) -> Seq<FillSpec> {
    match p {
        Policy::Clear => seq![FillSpec::Zeros],
        Policy::Dod => seq![FillSpec::Zeros, FillSpec::Ones, FillSpec::Random],
    }
}

/// The descriptor recorded for pass number `i` (zero-based) of a policy.
pub open spec fn spec_label(p: Policy, i: int) -> Seq<char> {
    if i == 0 {
        "Pass 1: zeros"@
    } else if i == 1 {
        "Pass 2: ones"@
    } else {
        "Pass 3: random"@
    }
}

/// The full descriptor sequence of a policy, one entry per pass, in pass order.
pub open spec fn spec_labels(p: Policy) -> Seq<Seq<char>> {
    Seq::new(spec_passes(p).len(), |i: int| spec_label(p, i))
}

/// The name under which a policy appears in the audit log.
pub open spec fn spec_policy_name(p: Policy) -> Seq<char> {
    match p {
        Policy::Clear => "Clear"@,
        Policy::Dod => "Dod"@,
    }
}

impl Policy {
    /// Pure, total mapping from a policy to its ordered pass sequence.
    pub fn passes(&self) -> (r: Vec<FillSpec>)
        ensures
            r@ == spec_passes(*self),
    {
        match self {
            Policy::Clear => {
                let mut v: Vec<FillSpec> = Vec::new();
                v.push(FillSpec::Zeros);
                proof {
                    assert(v@ =~= spec_passes(Policy::Clear));
                }
                v
            },
            Policy::Dod => {
                let mut v: Vec<FillSpec> = Vec::new();
                v.push(FillSpec::Zeros);
                v.push(FillSpec::Ones);
                v.push(FillSpec::Random);
                proof {
                    assert(v@ =~= spec_passes(Policy::Dod));
                }
                v
            },
        }
    }

    /// The policy's name as it is recorded in the audit log.
    pub fn name(&self) -> (r: String)
        ensures
            r@ == spec_policy_name(*self),
    {
        match self {
            Policy::Clear => String::from_str("Clear"),
            Policy::Dod => String::from_str("Dod"),
        }
    }
}

/// The descriptor of pass number `i` (zero-based) of policy `p`.
pub fn pass_label(p: &Policy, i: usize) -> (r: String)
    requires
        i < spec_passes(*p).len(),
    ensures
        r@ == spec_label(*p, i as int),
{
    if i == 0 {
        String::from_str("Pass 1: zeros")
    } else if i == 1 {
        String::from_str("Pass 2: ones")
    } else {
        String::from_str("Pass 3: random")
    }
}

/// Law: the clear policy performs exactly one pass, a zero-fill, and its
/// descriptor sequence is exactly the one zero-fill descriptor.
pub proof fn lemma_clear_is_single_zero_pass()
    ensures
        spec_passes(Policy::Clear) == seq![FillSpec::Zeros],
        spec_labels(Policy::Clear) == seq!["Pass 1: zeros"@],
{
    assert(spec_labels(Policy::Clear) =~= seq!["Pass 1: zeros"@]);
}

/// Law: the DoD policy performs exactly three passes — zero-fill, one-fill,
/// random-fill, in that order — and its descriptor sequence is exactly the
/// three matching descriptors, in the same order.
pub proof fn lemma_dod_is_zero_one_random()
    ensures
        spec_passes(Policy::Dod) == seq![FillSpec::Zeros, FillSpec::Ones, FillSpec::Random],
        spec_labels(Policy::Dod) == seq!["Pass 1: zeros"@, "Pass 2: ones"@, "Pass 3: random"@],
{
    assert(spec_labels(Policy::Dod) =~= seq![
        "Pass 1: zeros"@,
        "Pass 2: ones"@,
        "Pass 3: random"@,
    ]);
}

/// All pass descriptors of a policy, in pass order.
pub fn labels_for(p: &Policy) -> (r: Vec<String>)
    ensures
        r.deep_view() == spec_labels(*p),
{
    let passes = p.passes();
    let mut r: Vec<String> = Vec::new();
    let mut i: usize = 0;
    while i < passes.len()
        invariant
            i <= passes.len(),
            passes@ == spec_passes(*p),
            r.deep_view() == spec_labels(*p).take(i as int),
        decreases passes.len() - i,
    {
        let ghost prev = r.deep_view();
        let ghost prev_vec = r@;
        let lbl = pass_label(p, i);
        let ghost lbl_view = lbl@;
        r.push(lbl);
        proof {
            assert(r@ == prev_vec.push(lbl));
            assert(prev.len() == i);
            assert(prev_vec.len() == i);
            assert(r@.len() == i + 1);
            assert(r.deep_view().len() == i + 1);
            assert forall|j: int| 0 <= j < i + 1 implies r.deep_view()[j]
                == spec_labels(*p).take(i + 1)[j] by {
                if j < i {
                    assert(r@[j] == prev_vec[j]);
                    assert(r.deep_view()[j] == prev[j]);
                } else {
                    assert(r@[j] == lbl);
                    assert(r.deep_view()[j] == lbl_view);
                }
            }
            assert(r.deep_view() =~= spec_labels(*p).take(i + 1));
        }
        i = i + 1;
    }
    proof {
        assert(r.deep_view() =~= spec_labels(*p));
    }
    r
}

} // verus!
