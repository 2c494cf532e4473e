//! The avatar pipeline: a provider of the avatar and the stages that set it,
//! one after the other, on each service. The program around the library
//! performs each stage; the run below decides which stage comes next and how
//! the run ends.

use vstd::prelude::*;

verus! {

pub struct AvatarPipeline<P, S> {
    avatar_provider: P,
    stages: Vec<S>,
}

impl<P, S> AvatarPipeline<P, S> {
    pub closed spec fn spec_provider(&self) -> P {
        self.avatar_provider
    }

    pub closed spec fn spec_stages(&self) -> Seq<S> {
        self.stages@
    }

    /// A pipeline with the given provider and no stages yet.
    pub fn new(avatar_provider: P) -> (r: Self)
        ensures
            r.spec_provider() == avatar_provider,
            r.spec_stages() == Seq::<S>::empty(),
    {
        AvatarPipeline { avatar_provider, stages: Vec::new() }
    }

    /// Appends a stage; the stages run in the order they were added.
    pub fn add(&mut self, stage: S) -> (r: &mut Self)
        ensures
            r.spec_provider() == old(self).spec_provider(),
            r.spec_stages() == old(self).spec_stages().push(stage),
            *final(self) == *final(r),
    {
        self.stages.push(stage);
        self
    }

    pub fn avatar_provider(&self) -> (r: &P)
        ensures
            *r == self.spec_provider(),
    {
        &self.avatar_provider
    }

    pub fn stages(&self) -> (r: &Vec<S>)
        ensures
            r@ == self.spec_stages(),
    {
        &self.stages
    }

    /// Starts a run, once the provider has given the avatar: the first stage
    /// is to change it, or, with no stages, the run is over at once.
    pub fn run<E>(&self) -> (r: (PipelineRun, RunAction<E>))
        ensures
            (r.0.spec_next(), r.0.spec_total(), r.1) == spec_run_start::<E>(
                self.spec_stages().len(),
            ),
    {
        let total = self.stages.len();
        if total == 0 {
            (PipelineRun { next: 0, total }, RunAction::Finish(Ok(())))
        } else {
            (PipelineRun { next: 1, total }, RunAction::ChangeAvatar(0))
        }
    }
}

/// What the program does next in a run.
pub enum RunAction<E> {
    /// Change the avatar with the stage of this index.
    ChangeAvatar(usize),
    /// The run is over, with this result.
    Finish(Result<(), E>),
}

/// A run of the pipeline's stages: `next` stages have been started, the last
/// of them is the one in flight, and there are `total` in all.
pub struct PipelineRun {
    next: usize,
    total: usize,
}

/// The state and first action of a run of `total` stages.
pub open spec fn spec_run_start<E>(total: nat) -> (nat, nat, RunAction<E>) {
    if total == 0 {
        (0, total, RunAction::Finish(Ok(())))
    } else {
        (1, total, RunAction::ChangeAvatar(0))
    }
}

/// The state and action that follow the result of the stage in flight: a
/// failed stage ends the run with its error; after a stage that succeeded
/// comes the next stage, or the end of a successful run.
pub open spec fn spec_after_stage<E>(next: nat, total: nat, result: Result<(), E>) -> (
    nat,
    nat,
    RunAction<E>,
) {
    match result {
        Err(e) => (next, total, RunAction::Finish(Err(e))),
        Ok(_) => if next < total {
            (next + 1, total, RunAction::ChangeAvatar(next as usize))
        } else {
            (next, total, RunAction::Finish(Ok(())))
        },
    }
}

impl PipelineRun {
    pub closed spec fn spec_next(&self) -> nat {
        self.next as nat
    }

    pub closed spec fn spec_total(&self) -> nat {
        self.total as nat
    }

    /// A stage is in flight.
    pub open spec fn in_flight(&self) -> bool {
        1 <= self.spec_next() <= self.spec_total()
    }

    /// Whether a stage is in flight.
    pub fn is_in_flight(&self) -> (r: bool)
        ensures
            r == self.in_flight(),
    {
        1 <= self.next && self.next <= self.total
    }

    /// Takes the result of the stage in flight and gives the next action.
    pub fn after_stage<E>(&mut self, result: Result<(), E>) -> (r: RunAction<E>)
        requires
            old(self).in_flight(),
        ensures
            (final(self).spec_next(), final(self).spec_total(), r) == spec_after_stage(
                old(self).spec_next(),
                old(self).spec_total(),
                result,
            ),
            final(self).in_flight(),
    {
        match result {
            Err(e) => RunAction::Finish(Err(e)),
            Ok(_) => {
                if self.next < self.total {
                    let k = self.next;
                    self.next = self.next + 1;
                    RunAction::ChangeAvatar(k)
                } else {
                    RunAction::Finish(Ok(()))
                }
            },
        }
    }
}

/// How many stages a run starts when the stages report `results` in order:
/// all of them, or up to and including the first that fails.
pub open spec fn stages_called<E>(results: Seq<Result<(), E>>) -> nat
    decreases results.len(),
{
    if results.len() == 0 {
        0
    } else if results[0] is Err {
        1
    } else {
        1 + stages_called(results.drop_first())
    }
}

/// The result of a run whose stages report `results` in order: the error of
/// the first stage that fails, or success.
pub open spec fn run_result<E>(results: Seq<Result<(), E>>) -> Result<(), E>
    decreases results.len(),
{
    if results.len() == 0 {
        Ok(())
    } else if results[0] is Err {
        results[0]
    } else {
        run_result(results.drop_first())
    }
}

/// The actions that follow when, from state (`next`, `total`), the stages in
/// flight report `results` one after the other, up to the end of the run.
pub open spec fn spec_actions_from<E>(next: nat, total: nat, results: Seq<Result<(), E>>) -> Seq<
    RunAction<E>,
>
    decreases results.len(),
{
    if results.len() == 0 {
        seq![]
    } else {
        let (n, t, a) = spec_after_stage(next, total, results[0]);
        if a is Finish {
            seq![a]
        } else {
            seq![a] + spec_actions_from(n, t, results.drop_first())
        }
    }
}

/// All the actions of a run of `total` stages that report `results` in
/// order.
pub open spec fn spec_run_actions<E>(total: nat, results: Seq<Result<(), E>>) -> Seq<RunAction<E>> {
    let (n, t, a) = spec_run_start::<E>(total);
    if a is Finish {
        seq![a]
    } else {
        seq![a] + spec_actions_from(n, t, results)
    }
}

proof fn lemma_actions_from<E>(next: nat, total: nat, results: Seq<Result<(), E>>)
    requires
        1 <= next <= total,
        results.len() == total - next + 1,
    ensures
        stages_called(results) >= 1,
        spec_actions_from(next, total, results) =~= Seq::new(
            (stages_called(results) - 1) as nat,
            |i: int| RunAction::<E>::ChangeAvatar((next + i) as usize),
        ).push(RunAction::Finish(run_result(results))),
    decreases results.len(),
{
    let rest = results.drop_first();
    let expected = Seq::new(
        (stages_called(results) - 1) as nat,
        |i: int| RunAction::<E>::ChangeAvatar((next + i) as usize),
    ).push(RunAction::Finish(run_result(results)));
    if results[0] is Err {
        assert(spec_actions_from(next, total, results) =~= seq![
            RunAction::Finish(results[0]),
        ]);
    } else if next == total {
        assert(rest.len() == 0);
        assert(stages_called(rest) == 0);
        assert(run_result(rest) == Ok::<(), E>(()));
        assert(spec_actions_from(next, total, results) =~= seq![RunAction::<E>::Finish(Ok(()))]);
    } else {
        lemma_actions_from(next + 1, total, rest);
        let tail = spec_actions_from(next + 1, total, rest);
        assert(spec_actions_from(next, total, results) =~= seq![
            RunAction::<E>::ChangeAvatar(next as usize),
        ] + tail);
        assert forall|i: int| 0 <= i < expected.len() implies #[trigger] expected[i] == (seq![
            RunAction::<E>::ChangeAvatar(next as usize),
        ] + tail)[i] by {
            if i > 0 {
                assert(tail[i - 1] == expected[i]);
            }
        }
    }
}

/// A run changes the avatar with the stages in the order they were added,
/// each at most once, stops at the first stage that fails, and ends with
/// that stage's error, or with success when every stage succeeded.
pub proof fn lemma_run_in_order<E>(total: nat, results: Seq<Result<(), E>>)
    requires
        results.len() == total,
    ensures
        spec_run_actions(total, results) =~= Seq::new(
            stages_called(results),
            |i: int| RunAction::<E>::ChangeAvatar(i as usize),
        ).push(RunAction::Finish(run_result(results))),
{
    if total > 0 {
        lemma_actions_from(1, total, results);
    }
}

} // verus!
