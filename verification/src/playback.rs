//! Playing a script: the steps are carried out one after another, each
//! beginning with its pause and then repeating its operations, and a cursor
//! hands the operations out one at a time in exactly that order.

use crate::action::{
    body_spec, lemma_repeat_nothing, operations, prelude_spec, repeat_spec, resolve, step_ops,
    step_spec, PointerOp, Step,
};
use crate::record::{MouseAction, MouseActionView};
use vstd::prelude::*;

verus! {

/// Everything that the steps from `from` on do, in order.
pub open spec fn ops_from(steps: Seq<Step>, from: int) -> Seq<PointerOp>
    decreases steps.len() - from,
{
    if from >= steps.len() {
        Seq::empty()
    } else {
        step_ops(steps[from]) + ops_from(steps, from + 1)
    }
}

/// Everything that a run of `steps` does, in order.
pub open spec fn script_ops(steps: Seq<Step>) -> Seq<PointerOp> {
    ops_from(steps, 0)
}

/// The steps that a sequence of records stands for.
pub open spec fn plan_spec(actions: Seq<MouseActionView>) -> Seq<Step> {
    actions.map_values(|a: MouseActionView| step_spec(a))
}

/// Makes every record of a script ready to run, in order.
pub fn plan(actions: &Vec<MouseAction>) -> (steps: Vec<Step>)
    ensures
        steps@ == plan_spec(actions@.map_values(|a: MouseAction| a@)),
{
    let mut steps: Vec<Step> = Vec::new();
    let mut i: usize = 0;
    while i < actions.len()
        invariant
            i <= actions.len(),
            steps@.len() == i,
            forall|k: int| 0 <= k < i ==> steps@[k] == step_spec(actions@[k]@),
        decreases actions.len() - i,
    {
        steps.push(resolve(&actions[i]));
        i = i + 1;
    }
    assert(steps@ =~= plan_spec(actions@.map_values(|a: MouseAction| a@)));
    steps
}

/// A cursor over the operations of a script. It owns the steps and knows
/// how far the run has come.
pub struct Playback {
    steps: Vec<Step>,
    /// The step that is being carried out.
    index: usize,
    /// The pause of that step is over.
    started: bool,
    /// How often the operations of that step have been carried out in full.
    round: u32,
    /// How many operations of the round in progress have been handed out.
    offset: usize,
}

impl Playback {
    #[verifier::type_invariant]
    spec fn wf(self) -> bool {
        &&& self.index <= self.steps@.len()
        &&& self.index < self.steps@.len() ==> {
            &&& self.round <= self.steps@[self.index as int].repeats
            &&& self.offset == 0 || self.offset < body_spec(
                self.steps@[self.index as int].action,
            ).len()
        }
    }

    /// The steps that are played.
    pub closed spec fn steps(self) -> Seq<Step> {
        self.steps@
    }

    /// What is left of the step in progress.
    spec fn rest_of_step(self) -> Seq<PointerOp> {
        let step = self.steps@[self.index as int];
        let body = body_spec(step.action);
        let pause = if self.started {
            Seq::empty()
        } else {
            prelude_spec(step.delay_ms)
        };
        let rounds = if self.round < step.repeats {
            body.skip(self.offset as int) + repeat_spec(
                body,
                (step.repeats - self.round - 1) as nat,
            )
        } else {
            Seq::empty()
        };
        pause + rounds
    }

    /// The operations that have not been handed out yet, in order.
    pub closed spec fn remaining(self) -> Seq<PointerOp> {
        if self.index >= self.steps@.len() {
            Seq::empty()
        } else {
            self.rest_of_step() + ops_from(self.steps@, self.index + 1)
        }
    }

    /// A cursor at the start of `steps`: everything is still to be done.
    pub fn new(steps: Vec<Step>) -> (playback: Playback)
        ensures
            playback.steps() == steps@,
            playback.remaining() == script_ops(steps@),
    {
        let playback = Playback { steps, index: 0, started: false, round: 0, offset: 0 };
        proof {
            if playback.steps@.len() > 0 {
                let step = playback.steps@[0];
                let body = body_spec(step.action);
                assert(body.skip(0) =~= body);
                assert(playback.rest_of_step() =~= step_ops(step)) by {
                    if step.repeats == 0 {
                        assert(repeat_spec(body, 0) =~= Seq::<PointerOp>::empty());
                    }
                }
            }
        }
        playback
    }

    /// Hands out the next operation, or `None` once the run is over.
    pub fn next_op(&mut self) -> (op: Option<PointerOp>)
        ensures
            final(self).steps() == old(self).steps(),
            match op {
                Some(o) => old(self).remaining() == seq![o] + final(self).remaining(),
                None => old(self).remaining().len() == 0 && final(self).remaining().len() == 0,
            },
    {
        proof {
            use_type_invariant(&*self);
        }
        while self.index < self.steps.len()
            invariant
                self.wf(),
                self.steps@ == old(self).steps@,
                self.remaining() == old(self).remaining(),
            decreases self.steps@.len() - self.index,
        {
            let step = self.steps[self.index];
            let ghost before = *self;
            let ghost body = body_spec(step.action);
            if !self.started {
                self.started = true;
                match step.delay_ms {
                    Some(ms) => {
                        proof {
                            assert(before.rest_of_step() =~= seq![PointerOp::Pause(ms)]
                                + self.rest_of_step());
                            assert(before.remaining() =~= seq![PointerOp::Pause(ms)]
                                + self.remaining());
                        }
                        return Some(PointerOp::Pause(ms));
                    },
                    None => {
                        assert(before.rest_of_step() =~= self.rest_of_step());
                    },
                }
            }
            let ghost middle = *self;
            let ops = operations(&step.action);
            let n: usize = ops.len();
            if self.round < step.repeats && self.offset < n {
                let op = ops[self.offset];
                if self.offset + 1 == n {
                    self.offset = 0;
                    self.round = self.round + 1;
                } else {
                    self.offset = self.offset + 1;
                }
                proof {
                    assert(body.skip(middle.offset as int) =~= seq![op] + body.skip(
                        middle.offset + 1,
                    ));
                    if middle.offset + 1 == n {
                        assert(body.skip(n as int) =~= Seq::<PointerOp>::empty());
                        assert(body.skip(0) =~= body);
                    }
                    assert(middle.rest_of_step() =~= seq![op] + self.rest_of_step());
                    assert(middle.remaining() =~= seq![op] + self.remaining());
                }
                return Some(op);
            }
            proof {
                if n == 0 {
                    assert(body =~= Seq::<PointerOp>::empty());
                    lemma_repeat_nothing((step.repeats - self.round - 1) as nat);
                }
                assert(middle.rest_of_step() =~= Seq::<PointerOp>::empty());
            }
            self.offset = 0;
            self.round = 0;
            self.started = false;
            self.index = self.index + 1;
            proof {
                if self.index < self.steps@.len() {
                    let next = self.steps@[self.index as int];
                    let next_body = body_spec(next.action);
                    assert(next_body.skip(0) =~= next_body);
                    if next.repeats == 0 {
                        assert(repeat_spec(next_body, 0) =~= Seq::<PointerOp>::empty());
                    }
                    assert(self.rest_of_step() =~= step_ops(next));
                }
                assert(middle.remaining() =~= self.remaining());
            }
        }
        None
    }
}

} // verus!
