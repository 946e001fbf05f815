//! A plugin instance: what the host knows about it, and the operations on it.
//!
//! An operation that needs one call comes in two parts. The first says what to do: nothing more,
//! with the result at hand, or one call. The second, whose name ends in `reply`, takes the outcome
//! of that call. Once an instance has crashed, no operation makes a call.

use vstd::prelude::*;
use vstd::string::*;

use crate::calls;
use crate::calls::{Call, ProcessSetup};
use crate::com::{K_REALTIME, K_RESULT_OK, K_SAMPLE_32};
use crate::error;
use crate::error::Vst3Error;
use crate::sandbox::SandboxResult;

verus! {

/// A plugin instance. Objects are named by their addresses, zero where there is none.
#[derive(Debug, PartialEq, Eq)]
pub struct Vst3Instance {
    /// The component.
    pub component: usize,
    /// The audio processor of the component.
    pub processor: usize,
    /// The host context that the component was given.
    pub host_context: usize,
    /// The component handler that the controller was given.
    pub component_handler: usize,
    /// Whether the component is active.
    pub active: bool,
    /// Whether processing is switched on.
    pub processing: bool,
    /// The number of audio input channels.
    pub input_channels: usize,
    /// The number of audio output channels.
    pub output_channels: usize,
    /// The name of the plugin.
    pub name: String,
    /// The factory that made the component.
    pub factory: usize,
    /// The function table of the factory.
    pub factory_vtbl: usize,
    /// The edit controller, once it is known.
    pub cached_controller: usize,
    /// Whether the controller is an object of its own, which the host has to terminate.
    pub owns_separate_controller: bool,
    /// The host context that a separate controller was given.
    pub controller_host_context: usize,
    /// Whether the plugin has crashed.
    pub crashed: bool,
}

/// How an operation goes on.
#[derive(Debug, PartialEq, Eq)]
pub enum Step<R> {
    /// The operation is over.
    Done(R),
    /// A call has to be made.
    Call(Call),
    /// A call that takes data has to be made.
    CallWith(Call, Vec<u8>),
    /// The edit controller has to be looked for first.
    FindController,
}

/// What the outcome of a call that answers with a result code is reported as.
pub open spec fn reported(
    r: Result<(), Vst3Error>,
    outcome: SandboxResult<i32>,
    name: Seq<char>,
    call: Seq<char>,
    phase: Seq<char>,
) -> bool {
    match outcome {
        SandboxResult::Returned(code) => if code == K_RESULT_OK {
            r is Ok
        } else {
            r matches Err(e) && e@ == error::failed_text(call, name, code)
        },
        SandboxResult::Crashed(crash) => r matches Err(e) && e@ == error::crashed_text(
            name,
            phase,
            crash.signal_name@,
        ),
        SandboxResult::Panicked(panic) => r matches Err(e) && e@ == error::panicked_text(
            name,
            phase,
            panic@,
        ),
    }
}

/// The outcome is success.
pub open spec fn succeeded(outcome: SandboxResult<i32>) -> bool {
    outcome == SandboxResult::Returned(K_RESULT_OK)
}

impl Vst3Instance {
    /// The pointers are consistent: the component, its processor and the factory are there, and
    /// there is a context for a separate controller exactly where the controller is separate.
    pub open spec fn wf(self) -> bool {
        &&& self.component != 0
        &&& self.processor != 0
        &&& self.host_context != 0
        &&& self.factory_vtbl != 0
        &&& self.owns_separate_controller ==> self.cached_controller != 0
        &&& self.owns_separate_controller <==> self.controller_host_context != 0
    }

    /// The number of references that the instance holds to the object at an address.
    pub open spec fn references(self, object: usize) -> int {
        calls::one_if(self.component == object) + calls::one_if(self.processor == object) + calls::one_if(
            self.factory == object,
        ) + calls::one_if(self.cached_controller != 0 && self.cached_controller == object)
    }

    /// The number of the host's own objects at an address that belong to the instance.
    pub open spec fn host_objects(self, object: usize) -> int {
        calls::one_if(self.host_context == object) + calls::one_if(
            self.controller_host_context != 0 && self.controller_host_context == object,
        ) + calls::one_if(self.component_handler != 0 && self.component_handler == object)
    }

    /// The instance after a crash.
    pub open spec fn after_crash(self) -> Vst3Instance {
        Vst3Instance { crashed: true, ..self }
    }

    /// The instance after a call whose crash is recorded.
    pub open spec fn after_call<T>(self, outcome: SandboxResult<T>) -> Vst3Instance {
        if outcome is Returned {
            self
        } else {
            self.after_crash()
        }
    }

    fn settle(&mut self, outcome: SandboxResult<i32>, call: &str, phase: &str) -> (r: Result<
        (),
        Vst3Error,
    >)
        ensures
            reported(r, outcome, old(self).name@, call@, phase@),
            r is Ok <==> succeeded(outcome),
            *final(self) == old(self).after_call(outcome),
    {
        match outcome {
            SandboxResult::Returned(code) => {
                if code == K_RESULT_OK {
                    Ok(())
                } else {
                    Err(error::failed(call, self.name.as_str(), code))
                }
            },
            SandboxResult::Crashed(crash) => {
                self.crashed = true;
                Err(error::crashed(self.name.as_str(), phase, crash.signal_name.as_str()))
            },
            SandboxResult::Panicked(panic) => {
                self.crashed = true;
                Err(error::panicked(self.name.as_str(), phase, panic.as_str()))
            },
        }
    }

    /// Asks whether the plugin processes 32-bit samples. A crashed plugin does not.
    pub fn can_process_f32(&self) -> (step: Step<bool>)
        ensures
            step == (if self.crashed {
                Step::Done(false)
            } else {
                Step::Call(
                    Call::CanProcessSampleSize { processor: self.processor, size: K_SAMPLE_32 },
                )
            }),
    {
        if self.crashed {
            return Step::Done(false);
        }
        Step::Call(Call::CanProcessSampleSize { processor: self.processor, size: K_SAMPLE_32 })
    }

    /// The plugin processes 32-bit samples if it said so.
    pub fn can_process_f32_reply(&self, outcome: SandboxResult<i32>) -> (b: bool)
        ensures
            b == succeeded(outcome),
    {
        match outcome {
            SandboxResult::Returned(code) => code == K_RESULT_OK,
            _ => false,
        }
    }

    /// Configures the sample rate, given by its bit pattern, and the largest block.
    pub fn setup_processing(&self, sample_rate_bits: u64, max_block_size: i32) -> (step: Step<
        Result<(), Vst3Error>,
    >)
        ensures
            if self.crashed {
                step matches Step::Done(Err(e)) && e@ == "Plugin has crashed"@
            } else {
                step == Step::<Result<(), Vst3Error>>::Call(
                    Call::SetupProcessing {
                        processor: self.processor,
                        setup: ProcessSetup {
                            process_mode: K_REALTIME,
                            symbolic_sample_size: K_SAMPLE_32,
                            max_samples_per_block: max_block_size,
                            sample_rate_bits,
                        },
                    },
                )
            },
    {
        if self.crashed {
            return Step::Done(Err(error::already_crashed()));
        }
        Step::Call(
            Call::SetupProcessing {
                processor: self.processor,
                setup: ProcessSetup {
                    process_mode: K_REALTIME,
                    symbolic_sample_size: K_SAMPLE_32,
                    max_samples_per_block: max_block_size,
                    sample_rate_bits,
                },
            },
        )
    }

    /// Reports how the processing setup went.
    pub fn setup_processing_reply(&mut self, outcome: SandboxResult<i32>) -> (r: Result<
        (),
        Vst3Error,
    >)
        ensures
            reported(r, outcome, old(self).name@, "setupProcessing"@, "setupProcessing"@),
            *final(self) == old(self).after_call(outcome),
    {
        self.settle(outcome, "setupProcessing", "setupProcessing")
    }

    /// Activates the component. An active component stays as it is.
    pub fn activate(&self) -> (step: Step<Result<(), Vst3Error>>)
        ensures
            if self.active {
                step == Step::<Result<(), Vst3Error>>::Done(Ok(()))
            } else if self.crashed {
                step matches Step::Done(Err(e)) && e@ == "Plugin has crashed"@
            } else {
                step == Step::<Result<(), Vst3Error>>::Call(
                    Call::SetActive { component: self.component, state: 1 },
                )
            },
    {
        if self.active {
            return Step::Done(Ok(()));
        }
        if self.crashed {
            return Step::Done(Err(error::already_crashed()));
        }
        Step::Call(Call::SetActive { component: self.component, state: 1 })
    }

    /// The component is active after a successful activation, and stays as it was otherwise.
    pub fn activate_reply(&mut self, outcome: SandboxResult<i32>) -> (r: Result<(), Vst3Error>)
        ensures
            reported(r, outcome, old(self).name@, "setActive(true)"@, "activation"@),
            *final(self) == (if succeeded(outcome) {
                Vst3Instance { active: true, ..*old(self) }
            } else {
                old(self).after_call(outcome)
            }),
    {
        let r = self.settle(outcome, "setActive(true)", "activation");
        if r.is_ok() {
            self.active = true;
        }
        r
    }

    /// Starts processing. Where processing is on already, it stays on.
    pub fn start_processing(&self) -> (step: Step<Result<(), Vst3Error>>)
        ensures
            if self.processing {
                step == Step::<Result<(), Vst3Error>>::Done(Ok(()))
            } else if self.crashed {
                step matches Step::Done(Err(e)) && e@ == "Plugin has crashed"@
            } else {
                step == Step::<Result<(), Vst3Error>>::Call(
                    Call::SetProcessing { processor: self.processor, state: 1 },
                )
            },
    {
        if self.processing {
            return Step::Done(Ok(()));
        }
        if self.crashed {
            return Step::Done(Err(error::already_crashed()));
        }
        Step::Call(Call::SetProcessing { processor: self.processor, state: 1 })
    }

    /// Processing is on after a successful start, and stays as it was otherwise.
    pub fn start_processing_reply(&mut self, outcome: SandboxResult<i32>) -> (r: Result<
        (),
        Vst3Error,
    >)
        ensures
            reported(r, outcome, old(self).name@, "setProcessing(true)"@, "start_processing"@),
            *final(self) == (if succeeded(outcome) {
                Vst3Instance { processing: true, ..*old(self) }
            } else {
                old(self).after_call(outcome)
            }),
    {
        let r = self.settle(outcome, "setProcessing(true)", "start_processing");
        if r.is_ok() {
            self.processing = true;
        }
        r
    }

    /// Processes one block of audio, given by the address of its description. A crashed plugin
    /// processes nothing.
    pub fn process(&self, data: usize) -> (step: Step<bool>)
        ensures
            step == (if self.crashed {
                Step::Done(false)
            } else {
                Step::Call(Call::Process { processor: self.processor, data })
            }),
    {
        if self.crashed {
            return Step::Done(false);
        }
        Step::Call(Call::Process { processor: self.processor, data })
    }

    /// Processing succeeded if the call returned, whatever it returned.
    pub fn process_reply(&mut self, outcome: SandboxResult<i32>) -> (b: bool)
        ensures
            b == (outcome is Returned),
            *final(self) == old(self).after_call(outcome),
    {
        match outcome {
            SandboxResult::Returned(_) => true,
            _ => {
                self.crashed = true;
                false
            },
        }
    }

    /// Whether the plugin has crashed and must not be used.
    pub fn is_crashed(&self) -> (b: bool)
        ensures
            b == self.crashed,
    {
        self.crashed
    }

    /// Asks for the latency in samples. A crashed plugin has none.
    pub fn latency_samples(&self) -> (step: Step<u32>)
        ensures
            step == (if self.crashed {
                Step::Done(0u32)
            } else {
                Step::Call(Call::GetLatencySamples { processor: self.processor })
            }),
    {
        if self.crashed {
            return Step::Done(0);
        }
        Step::Call(Call::GetLatencySamples { processor: self.processor })
    }

    /// The latency that the plugin stated, zero if it could not.
    pub fn latency_samples_reply(&self, outcome: SandboxResult<u32>) -> (samples: u32)
        ensures
            samples == (match outcome {
                SandboxResult::Returned(v) => v,
                _ => 0,
            }),
    {
        match outcome {
            SandboxResult::Returned(v) => v,
            _ => 0,
        }
    }

    /// The component handler that is installed, zero if there is none.
    pub fn component_handler(&self) -> (handler: usize)
        ensures
            handler == self.component_handler,
    {
        self.component_handler
    }

    /// The call that has to come next in order to stop processing and then deactivate the
    /// component: none for a plugin that has crashed, nor when both are done.
    pub open spec fn shutdown_call(self) -> Option<Call> {
        if self.crashed {
            None
        } else if self.processing {
            Some(Call::SetProcessing { processor: self.processor, state: 0 })
        } else if self.active {
            Some(Call::SetActive { component: self.component, state: 0 })
        } else {
            None
        }
    }

    /// The instance after the outcome of that call.
    pub open spec fn after_shutdown_call(self, returned: bool) -> Vst3Instance {
        if !returned {
            self.after_crash()
        } else if self.processing {
            Vst3Instance { processing: false, ..self }
        } else {
            Vst3Instance { active: false, ..self }
        }
    }

    /// Stops processing and deactivates the component, one call at a time.
    pub fn shutdown(&self) -> (step: Step<()>)
        ensures
            step == (match self.shutdown_call() {
                Some(call) => Step::Call(call),
                None => Step::Done(()),
            }),
    {
        if self.crashed {
            return Step::Done(());
        }
        if self.processing {
            return Step::Call(Call::SetProcessing { processor: self.processor, state: 0 });
        }
        if self.active {
            return Step::Call(Call::SetActive { component: self.component, state: 0 });
        }
        Step::Done(())
    }

    /// Takes the outcome of one call of the shutdown: whether it returned. A call that returns has
    /// had its effect, whatever it returns; a crash or a panic ends the shutdown.
    pub fn shutdown_reply(&mut self, returned: bool)
        requires
            old(self).shutdown_call() is Some,
        ensures
            *final(self) == old(self).after_shutdown_call(returned),
    {
        if !returned {
            self.crashed = true;
        } else if self.processing {
            self.processing = false;
        } else {
            self.active = false;
        }
    }
}

/// The calls of a shutdown, given of each whether it returns.
pub open spec fn shutdown_calls(instance: Vst3Instance, outcomes: Seq<bool>) -> Seq<Call>
    decreases outcomes.len(),
{
    match instance.shutdown_call() {
        Some(call) => if outcomes.len() > 0 {
            seq![call] + shutdown_calls(
                instance.after_shutdown_call(outcomes[0]),
                outcomes.drop_first(),
            )
        } else {
            seq![call]
        },
        None => Seq::empty(),
    }
}

/// The instance that a shutdown leaves.
pub open spec fn after_shutdown(instance: Vst3Instance, outcomes: Seq<bool>) -> Vst3Instance
    decreases outcomes.len(),
{
    if instance.shutdown_call() is Some && outcomes.len() > 0 {
        after_shutdown(instance.after_shutdown_call(outcomes[0]), outcomes.drop_first())
    } else {
        instance
    }
}

/// A shutdown stops processing before it deactivates the component, and makes each call only
/// where there is something to stop. Where every call returns, the plugin neither processes nor
/// is active afterwards. The first call that does not return is the last one.
pub proof fn lemma_shutdown(instance: Vst3Instance, outcomes: Seq<bool>)
    requires
        !instance.crashed,
        outcomes.len() == 2,
    ensures
        ({
            let stop = Call::SetProcessing { processor: instance.processor, state: 0 };
            let deactivate = Call::SetActive { component: instance.component, state: 0 };
            let made = shutdown_calls(instance, outcomes);
            let end = after_shutdown(instance, outcomes);
            &&& end.shutdown_call() is None
            &&& made == (if instance.processing && instance.active && outcomes[0] {
                seq![stop, deactivate]
            } else if instance.processing {
                seq![stop]
            } else if instance.active {
                seq![deactivate]
            } else {
                seq![]
            })
            &&& outcomes[0] && outcomes[1] ==> end == (Vst3Instance {
                processing: false,
                active: false,
                ..instance
            })
            &&& !outcomes[0] && (instance.processing || instance.active) ==> end
                == instance.after_crash()
        }),
{
    reveal_with_fuel(shutdown_calls, 3);
    reveal_with_fuel(after_shutdown, 3);
    let first = outcomes.drop_first();
    assert(first[0] == outcomes[1]);
    let made = shutdown_calls(instance, outcomes);
    let stop = Call::SetProcessing { processor: instance.processor, state: 0 };
    let deactivate = Call::SetActive { component: instance.component, state: 0 };
    if instance.processing && instance.active && outcomes[0] {
        assert(made =~= seq![stop, deactivate]);
    } else if instance.processing {
        assert(made =~= seq![stop]);
    } else if instance.active {
        assert(made =~= seq![deactivate]);
    } else {
        assert(made =~= seq![]);
    }
}

/// A plugin that has crashed stays crashed, whatever comes, and a shutdown leaves it alone.
pub proof fn lemma_crash_is_final<T>(
    instance: Vst3Instance,
    outcome: SandboxResult<T>,
    outcomes: Seq<bool>,
)
    requires
        instance.crashed,
    ensures
        instance.after_call(outcome).crashed,
        shutdown_calls(instance, outcomes) == Seq::<Call>::empty(),
        after_shutdown(instance, outcomes) == instance,
{
}

/// A call succeeded where it returned zero, and only there.
pub proof fn lemma_succeeded(outcome: SandboxResult<i32>)
    ensures
        succeeded(outcome) <==> (outcome matches SandboxResult::Returned(code) && code == 0),
{
}

/// A call that returns leaves the instance as it was, whatever it returns. One that does not marks
/// it as crashed, and changes nothing else.
pub proof fn lemma_after_call<T>(instance: Vst3Instance, outcome: SandboxResult<T>)
    ensures
        outcome is Returned ==> instance.after_call(outcome) == instance,
        outcome is Crashed || outcome is Panicked ==> instance.after_call(outcome) == (
        Vst3Instance { crashed: true, ..instance }),
{
}

/// A call is reported as done where it returned zero. Otherwise the report names the plugin, and
/// says that the call failed and with what code, or during what the plugin crashed and by which
/// signal, or during what it panicked and with what message.
pub proof fn lemma_reported(
    r: Result<(), Vst3Error>,
    outcome: SandboxResult<i32>,
    name: Seq<char>,
    call: Seq<char>,
    phase: Seq<char>,
)
    requires
        reported(r, outcome, name, call, phase),
    ensures
        r is Ok <==> (outcome matches SandboxResult::Returned(code) && code == 0),
        match (r, outcome) {
            (Err(e), SandboxResult::Returned(code)) => e@ == call + " failed for '"@ + name
                + "' (result: "@ + crate::text::decimal(code as int) + ")"@,
            (Err(e), SandboxResult::Crashed(crash)) => e@ == "Plugin '"@ + name
                + "' crashed during "@ + phase + " ("@ + crash.signal_name@ + ")"@,
            (Err(e), SandboxResult::Panicked(panic)) => e@ == "Plugin '"@ + name
                + "' panicked during "@ + phase + ": "@ + panic@,
            (Ok(_), _) => true,
        },
{
}

} // verus!
