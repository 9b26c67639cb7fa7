//! Staged trigger pipeline: a trigger is broadcast once, and the
//! orchestrator turns it into an ordered plan of per-bundler stage
//! invocations — all setup work first, then every registered bundler's
//! apply or clean operation in registration order. The caller performs the
//! invocations and reports each bundler's outcome independently.
use vstd::prelude::*;

verus! {

/// A zero-payload signal, broadcast once per invocation.
#[derive(Clone, Copy, PartialEq, Eq, Structural, Debug)]
pub enum Trigger {
    Apply,
    Clean,
}

/// One phase of the pipeline, run across all bundlers in fixed order.
#[derive(Clone, Copy, PartialEq, Eq, Structural, Debug)]
pub enum Stage {
    Setup,
    Apply,
    Clean,
}

/// The closed set of registered bundler kinds.
#[derive(Clone, Copy, PartialEq, Eq, Structural, Debug)]
pub enum BundlerId {
    /// Configuration bundler: materializes configuration-derived state
    /// during setup.
    Config,
    /// The dotfiles engine.
    Dotfiles,
    /// The runtime installer.
    NodeJS,
}

/// One planned call: this bundler's operation for this stage.
#[derive(Clone, Copy, PartialEq, Eq, Structural, Debug)]
pub struct Invocation {
    pub bundler: BundlerId,
    pub stage: Stage,
}

/// Whether a bundler has setup work that must run before any apply or
/// clean work begins.
pub open spec fn spec_needs_setup(b: BundlerId) -> bool {
    b is Config
}

pub fn needs_setup(b: BundlerId) -> (r: bool)
    ensures
        r == spec_needs_setup(b),
{
    matches!(b, BundlerId::Config)
}

/// The stage a trigger selects for the main pass.
pub open spec fn spec_stage_of(t: Trigger) -> Stage {
    match t {
        Trigger::Apply => Stage::Apply,
        Trigger::Clean => Stage::Clean,
    }
}

pub fn stage_of(t: Trigger) -> (r: Stage)
    ensures
        r == spec_stage_of(t),
{
    match t {
        Trigger::Apply => Stage::Apply,
        Trigger::Clean => Stage::Clean,
    }
}

/// The setup invocations: one per registered bundler that needs setup, in
/// registration order.
pub open spec fn spec_setups(regs: Seq<BundlerId>) -> Seq<Invocation>
    decreases regs.len(),
{
    if regs.len() == 0 {
        Seq::empty()
    } else {
        let rest = spec_setups(regs.drop_last());
        if spec_needs_setup(regs.last()) {
            rest.push(Invocation { bundler: regs.last(), stage: Stage::Setup })
        } else {
            rest
        }
    }
}

/// The main pass: every registered bundler's operation for the trigger, in
/// registration order.
pub open spec fn spec_mains(t: Trigger, regs: Seq<BundlerId>) -> Seq<Invocation> {
    regs.map_values(|b: BundlerId| Invocation { bundler: b, stage: spec_stage_of(t) })
}

/// The full plan for one trigger: all setup work strictly before any main
/// work.
pub open spec fn spec_plan(t: Trigger, regs: Seq<BundlerId>) -> Seq<Invocation> {
    spec_setups(regs) + spec_mains(t, regs)
}

/// Turn a trigger into the ordered invocation plan for the registered
/// bundlers.
pub fn dispatch_plan(t: Trigger, registered: &Vec<BundlerId>) -> (r: Vec<Invocation>)
    ensures
        r@ == spec_plan(t, registered@),
{
    let mut out: Vec<Invocation> = Vec::new();
    let mut idx: usize = 0;
    while idx < registered.len()
        invariant
            idx <= registered@.len(),
            out@ == spec_setups(registered@.subrange(0, idx as int)),
        decreases registered@.len() - idx,
    {
        let b = registered[idx];
        if needs_setup(b) {
            out.push(Invocation { bundler: b, stage: Stage::Setup });
        }
        proof {
            let s1 = registered@.subrange(0, idx + 1 as int);
            assert(s1.drop_last() =~= registered@.subrange(0, idx as int));
            assert(s1.last() == registered@[idx as int]);
        }
        idx = idx + 1;
    }
    proof {
        assert(registered@.subrange(0, registered@.len() as int) =~= registered@);
    }
    let stage = stage_of(t);
    let mut idx2: usize = 0;
    while idx2 < registered.len()
        invariant
            idx2 <= registered@.len(),
            out@ == spec_setups(registered@) + spec_mains(t, registered@.subrange(0, idx2 as int)),
            stage == spec_stage_of(t),
        decreases registered@.len() - idx2,
    {
        let b = registered[idx2];
        out.push(Invocation { bundler: b, stage });
        proof {
            let s1 = registered@.subrange(0, idx2 + 1 as int);
            assert(spec_mains(t, s1) =~= spec_mains(t, registered@.subrange(0, idx2 as int)).push(
                Invocation { bundler: registered@[idx2 as int], stage: spec_stage_of(t) },
            ));
            assert(out@ =~= spec_setups(registered@) + spec_mains(t, s1));
        }
        idx2 = idx2 + 1;
    }
    proof {
        assert(registered@.subrange(0, registered@.len() as int) =~= registered@);
    }
    out
}

proof fn lemma_setups_are_setup_stage(regs: Seq<BundlerId>)
    ensures
        forall|i: int|
            0 <= i < spec_setups(regs).len() ==> #[trigger] spec_setups(regs)[i].stage is Setup,
    decreases regs.len(),
{
    if regs.len() > 0 {
        lemma_setups_are_setup_stage(regs.drop_last());
    }
}

/// Stage isolation: the plan for a trigger runs every registered bundler's
/// matching operation, in registration order, after all setup work — and
/// nothing else decides the plan, so no bundler's failure can keep a later
/// bundler's operation out of the same stage dispatch.
pub proof fn lemma_stage_isolation(t: Trigger, regs: Seq<BundlerId>)
    ensures
        spec_plan(t, regs).len() == spec_setups(regs).len() + regs.len(),
        forall|i: int|
            0 <= i < regs.len() ==> spec_plan(t, regs)[spec_setups(regs).len() + i] == (Invocation {
                bundler: regs[i],
                stage: spec_stage_of(t),
            }),
        forall|i: int|
            0 <= i < spec_setups(regs).len() ==> #[trigger] spec_plan(t, regs)[i].stage is Setup,
{
    lemma_setups_are_setup_stage(regs);
    assert forall|i: int| 0 <= i < spec_setups(regs).len() implies #[trigger] spec_plan(t, regs)[i]
        .stage is Setup by {
        assert(spec_plan(t, regs)[i] == spec_setups(regs)[i]);
    }
}

/// Count of successes among per-bundler outcomes.
pub open spec fn spec_succeeded(outcomes: Seq<bool>) -> int
    decreases outcomes.len(),
{
    if outcomes.len() == 0 {
        0
    } else {
        spec_succeeded(outcomes.drop_last()) + if outcomes.last() {
            1int
        } else {
            0int
        }
    }
}

/// A stage's aggregate: how many bundler operations ran, how many
/// succeeded. Failures are logged and discarded, never propagated, so the
/// count of attempts always equals the count of registered operations.
#[derive(Clone, Copy, PartialEq, Eq, Structural, Debug)]
pub struct StageReport {
    pub attempted: usize,
    pub succeeded: usize,
}

proof fn lemma_succeeded_bound(outcomes: Seq<bool>)
    ensures
        0 <= spec_succeeded(outcomes) <= outcomes.len(),
    decreases outcomes.len(),
{
    if outcomes.len() > 0 {
        lemma_succeeded_bound(outcomes.drop_last());
    }
}

/// Aggregate a stage's per-bundler outcomes, counting every one: a
/// bundler's failure is reported independently and stops nothing.
pub fn report_outcomes(outcomes: &Vec<bool>) -> (r: StageReport)
    ensures
        r.attempted == outcomes@.len(),
        r.succeeded == spec_succeeded(outcomes@),
{
    let mut succeeded: usize = 0;
    let mut idx: usize = 0;
    while idx < outcomes.len()
        invariant
            idx <= outcomes@.len(),
            succeeded == spec_succeeded(outcomes@.subrange(0, idx as int)),
            succeeded <= idx,
        decreases outcomes@.len() - idx,
    {
        proof {
            let s1 = outcomes@.subrange(0, idx + 1 as int);
            assert(s1.drop_last() =~= outcomes@.subrange(0, idx as int));
            assert(s1.last() == outcomes@[idx as int]);
            lemma_succeeded_bound(outcomes@.subrange(0, idx as int));
        }
        if outcomes[idx] {
            succeeded = succeeded + 1;
        }
        idx = idx + 1;
    }
    proof {
        assert(outcomes@.subrange(0, outcomes@.len() as int) =~= outcomes@);
    }
    StageReport { attempted: outcomes.len(), succeeded }
}

} // verus!
