//! Saving and restoring what a plugin stores of itself.

use vstd::prelude::*;
use vstd::slice::*;

use crate::calls::{Answer, Call};
use crate::com::K_RESULT_OK;
use crate::controller::StateSync;
use crate::instance;
use crate::instance::{Step, Vst3Instance};
use crate::sandbox::SandboxResult;

verus! {

/// The state that a plugin gave: what it wrote if it said that all went well, nothing otherwise.
pub open spec fn given_state(outcome: SandboxResult<Answer>) -> Seq<u8> {
    match outcome {
        SandboxResult::Returned(answer) => if answer.result == K_RESULT_OK {
            answer.data@
        } else {
            Seq::empty()
        },
        _ => Seq::empty(),
    }
}

fn take_state(outcome: SandboxResult<Answer>) -> (data: Vec<u8>)
    ensures
        data@ == given_state(outcome),
{
    match outcome {
        SandboxResult::Returned(answer) => {
            if answer.result == K_RESULT_OK {
                answer.data
            } else {
                Vec::new()
            }
        },
        _ => Vec::new(),
    }
}

/// The restoring of the component's state. Once the component has taken it, the controller is
/// told, so that both stay in step.
#[derive(Clone, Copy, Debug, PartialEq, Eq, Structural)]
pub enum Restoring {
    /// The component is given its state.
    Apply,
    /// The controller is looked for.
    Search,
    /// The controller is told.
    Sync { sync: StateSync },
    /// Nothing is left to do.
    Ended { restored: bool },
}

impl Restoring {
    /// The transfer to the controller is under way.
    pub open spec fn wf(self) -> bool {
        self matches Restoring::Sync { sync } ==> sync.pending() is Some
    }

    /// The state in which the controller is told, where there is one.
    pub open spec fn telling(instance: Vst3Instance) -> Restoring {
        if instance.cached_controller != 0 {
            Restoring::Sync {
                sync: StateSync::GetState {
                    component: instance.component,
                    controller: instance.cached_controller,
                },
            }
        } else {
            Restoring::Ended { restored: true }
        }
    }

    /// The state after the component was given its state.
    pub open spec fn after_apply(instance: Vst3Instance, outcome: SandboxResult<i32>) -> Restoring {
        if !instance::succeeded(outcome) {
            Restoring::Ended { restored: false }
        } else if instance.cached_controller == 0 {
            Restoring::Search
        } else {
            Restoring::telling(instance)
        }
    }

    /// The state after an answer in the transfer to the controller. How the transfer goes does
    /// not matter to the component.
    pub open spec fn after_answer(sync: StateSync, answer: Answer) -> Restoring {
        let next = sync.after(answer);
        if next is Ended {
            Restoring::Ended { restored: true }
        } else {
            Restoring::Sync { sync: next }
        }
    }

    /// The step that is taken in this state: the call that is due, with the data that were just
    /// read where the call takes data; the search; or the end.
    pub open spec fn takes(self, read: Seq<u8>, step: Step<bool>) -> bool {
        match self {
            Restoring::Search => step == Step::<bool>::FindController,
            Restoring::Sync { sync: StateSync::SetState { controller } } =>
                step matches Step::CallWith(call, data) && call == (Call::SyncComponentState {
                controller,
            }) && data@ == read,
            Restoring::Ended { restored } => step == Step::Done(restored),
            Restoring::Sync { sync } => step == Step::<bool>::Call(sync.pending()->0),
            Restoring::Apply => false,
        }
    }

    fn tell(&mut self, instance: &Vst3Instance) -> (step: Step<bool>)
        ensures
            *final(self) == Restoring::telling(*instance),
            final(self).wf(),
            final(self).takes(Seq::empty(), step),
    {
        if instance.cached_controller != 0 {
            let sync = instance.sync_component_state_to_controller(instance.cached_controller);
            *self = Restoring::Sync { sync };
            Step::Call(Call::GetComponentState { component: instance.component })
        } else {
            *self = Restoring::Ended { restored: true };
            Step::Done(true)
        }
    }

    /// Takes the outcome of the call that gave the component its state.
    pub fn applied(&mut self, instance: &mut Vst3Instance, outcome: SandboxResult<i32>) -> (step: Step<
        bool,
    >)
        requires
            *old(self) is Apply,
        ensures
            *final(self) == Restoring::after_apply(*old(instance), outcome),
            final(self).wf(),
            *final(instance) == old(instance).after_call(outcome),
            final(self).takes(Seq::empty(), step),
    {
        match outcome {
            SandboxResult::Returned(code) => {
                if code != K_RESULT_OK {
                    *self = Restoring::Ended { restored: false };
                    Step::Done(false)
                } else if instance.cached_controller == 0 {
                    *self = Restoring::Search;
                    Step::FindController
                } else {
                    self.tell(instance)
                }
            },
            _ => {
                instance.crashed = true;
                *self = Restoring::Ended { restored: false };
                Step::Done(false)
            },
        }
    }

    /// Goes on after the controller was looked for.
    pub fn searched(&mut self, instance: &Vst3Instance) -> (step: Step<bool>)
        requires
            *old(self) is Search,
        ensures
            *final(self) == Restoring::telling(*instance),
            final(self).wf(),
            final(self).takes(Seq::empty(), step),
    {
        self.tell(instance)
    }

    /// Takes the answer to a call of the transfer to the controller.
    pub fn answered(&mut self, answer: Answer) -> (step: Step<bool>)
        requires
            *old(self) is Sync,
            old(self).wf(),
        ensures
            *final(self) == Restoring::after_answer((*old(self))->sync, answer),
            final(self).wf(),
            final(self).takes(answer.data@, step),
    {
        let current = *self;
        match current {
            Restoring::Sync { sync } => {
                let mut next = sync;
                match next.step(answer) {
                    Step::CallWith(call, data) => {
                        *self = Restoring::Sync { sync: next };
                        Step::CallWith(call, data)
                    },
                    _ => {
                        *self = Restoring::Ended { restored: true };
                        Step::Done(true)
                    },
                }
            },
            _ => vstd::pervasive::unreached(),
        }
    }
}

/// The component's state is restored exactly where the component took it: what the controller
/// says to it changes nothing, nor whether there is one.
pub proof fn lemma_restored(
    instance: Vst3Instance,
    outcome: SandboxResult<i32>,
    with_controller: Vst3Instance,
    first: Answer,
    second: Answer,
)
    ensures
        Restoring::after_apply(instance, outcome) matches Restoring::Ended { restored } ==> restored
            == instance::succeeded(outcome),
        Restoring::telling(with_controller) matches Restoring::Ended { restored } ==> restored,
        Restoring::telling(with_controller) matches Restoring::Sync { sync } ==> {
            let next = Restoring::after_answer(sync, first);
            ||| next == (Restoring::Ended { restored: true })
            ||| next is Sync && Restoring::after_answer(next->sync, second) == (Restoring::Ended {
                restored: true,
            })
        },
{
}

impl Vst3Instance {
    /// Asks for the state of the component. A crashed plugin has none.
    pub fn get_component_state(&self) -> (step: Step<Vec<u8>>)
        ensures
            if self.crashed {
                step matches Step::Done(data) && data@.len() == 0
            } else {
                step == Step::<Vec<u8>>::Call(
                    Call::GetComponentState { component: self.component },
                )
            },
    {
        if self.crashed {
            return Step::Done(Vec::new());
        }
        Step::Call(Call::GetComponentState { component: self.component })
    }

    /// The state of the component; empty if the plugin keeps none, or crashed.
    pub fn get_component_state_reply(&self, outcome: SandboxResult<Answer>) -> (data: Vec<u8>)
        ensures
            data@ == given_state(outcome),
    {
        take_state(outcome)
    }

    /// Asks for the state of the controller. `searched` tells whether the controller has been
    /// looked for; where it was not found, there is no state.
    pub fn get_controller_state(&self, searched: bool) -> (step: Step<Vec<u8>>)
        ensures
            if self.crashed {
                step matches Step::Done(data) && data@.len() == 0
            } else if self.cached_controller != 0 {
                step == Step::<Vec<u8>>::Call(
                    Call::GetControllerState { controller: self.cached_controller },
                )
            } else if searched {
                step matches Step::Done(data) && data@.len() == 0
            } else {
                step == Step::<Vec<u8>>::FindController
            },
    {
        if self.crashed {
            return Step::Done(Vec::new());
        }
        if self.cached_controller != 0 {
            return Step::Call(Call::GetControllerState { controller: self.cached_controller });
        }
        if searched {
            Step::Done(Vec::new())
        } else {
            Step::FindController
        }
    }

    /// The state of the controller; empty if it keeps none, or crashed.
    pub fn get_controller_state_reply(&self, outcome: SandboxResult<Answer>) -> (data: Vec<u8>)
        ensures
            data@ == given_state(outcome),
    {
        take_state(outcome)
    }

    /// Restores the state of the component. There is nothing to do for a crashed plugin, nor
    /// without data. The call that is told begins a [`Restoring`] at its first state.
    pub fn set_component_state(&self, data: &[u8]) -> (step: Step<bool>)
        ensures
            if self.crashed || data@.len() == 0 {
                step == Step::Done(false)
            } else {
                step matches Step::CallWith(call, bytes) && call == (Call::SetComponentState {
                    component: self.component,
                }) && bytes@ == data@
            },
    {
        if self.crashed || data.len() == 0 {
            return Step::Done(false);
        }
        Step::CallWith(Call::SetComponentState { component: self.component }, slice_to_vec(data))
    }

    /// Restores the state of the controller. There is nothing to do for a crashed plugin, without
    /// data, nor without a controller.
    pub fn set_controller_state(&self, data: &[u8], searched: bool) -> (step: Step<bool>)
        ensures
            if self.crashed || data@.len() == 0 {
                step == Step::Done(false)
            } else if self.cached_controller != 0 {
                step matches Step::CallWith(call, bytes) && call == (Call::SetControllerState {
                    controller: self.cached_controller,
                }) && bytes@ == data@
            } else if searched {
                step == Step::Done(false)
            } else {
                step == Step::<bool>::FindController
            },
    {
        if self.crashed || data.len() == 0 {
            return Step::Done(false);
        }
        if self.cached_controller != 0 {
            return Step::CallWith(
                Call::SetControllerState { controller: self.cached_controller },
                slice_to_vec(data),
            );
        }
        if searched {
            Step::Done(false)
        } else {
            Step::FindController
        }
    }

    /// Whether the controller took its state.
    pub fn set_controller_state_reply(&mut self, outcome: SandboxResult<i32>) -> (restored: bool)
        ensures
            restored == instance::succeeded(outcome),
            *final(self) == old(self).after_call(outcome),
    {
        match outcome {
            SandboxResult::Returned(code) => code == K_RESULT_OK,
            _ => {
                self.crashed = true;
                false
            },
        }
    }
}

/// The state that is saved is every byte that the plugin wrote, in order, where it said that all
/// went well, and nothing where it did not or where it crashed.
pub proof fn lemma_given_state(outcome: SandboxResult<Answer>)
    ensures
        outcome matches SandboxResult::Returned(answer) ==> {
            &&& answer.result == 0 ==> given_state(outcome) == answer.data@
            &&& answer.result != 0 ==> given_state(outcome).len() == 0
        },
        !(outcome is Returned) ==> given_state(outcome).len() == 0,
{
}

/// Once the component has taken its state, the controller hears of it: a known one at once, and one
/// that is not known is looked for first. It is told by asking the component for its state anew
/// and handing the controller the bytes that come. Where the component refused its state, or
/// crashed over it, nothing more is done.
pub proof fn lemma_restoring_tells(
    instance: Vst3Instance,
    outcome: SandboxResult<i32>,
    step: Step<bool>,
    found: Vst3Instance,
    told: Step<bool>,
    given: Answer,
    handed: Step<bool>,
)
    requires
        Restoring::after_apply(instance, outcome).takes(Seq::empty(), step),
        Restoring::telling(found).takes(Seq::empty(), told),
        found.cached_controller != 0,
        Restoring::after_answer(Restoring::telling(found)->sync, given).takes(given.data@, handed),
    ensures
        ({
            let taken = outcome matches SandboxResult::Returned(code) && code == 0;
            &&& !taken ==> step == Step::Done(false)
            &&& taken && instance.cached_controller == 0 ==> step == Step::<bool>::FindController
            &&& taken && instance.cached_controller != 0 ==> step == Step::<bool>::Call(
                Call::GetComponentState { component: instance.component },
            )
        }),
        told == Step::<bool>::Call(Call::GetComponentState { component: found.component }),
        given.result == 0 && given.data@.len() > 0 ==> (handed matches Step::CallWith(call, data)
            && call == (Call::SyncComponentState { controller: found.cached_controller }) && data@
            == given.data@),
        given.result != 0 || given.data@.len() == 0 ==> handed == Step::Done(true),
{
}

} // verus!
