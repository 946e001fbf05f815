//! Speaker arrangements and the activation of buses.

use vstd::prelude::*;
use vstd::string::*;

use crate::calls::Call;
use crate::com::{K_AUDIO, K_EVENT, K_INPUT, K_OUTPUT, K_RESULT_OK};
use crate::error;
use crate::error::Vst3Error;
use crate::instance::Vst3Instance;
use crate::sandbox::SandboxResult;

verus! {

/// Left and right.
pub const SPEAKER_STEREO: u64 = 0x03;

/// Left only.
pub const SPEAKER_MONO: u64 = 0x01;

/// A pair of speaker arrangements to try, and the number of output channels that it means.
#[derive(Clone, Copy, Debug, PartialEq, Eq, Structural)]
pub struct Arrangement {
    pub inputs: u64,
    pub outputs: u64,
    pub output_channels: usize,
}

/// The arrangement where inputs are wanted, nothing otherwise.
pub open spec fn if_wanted(desired_inputs: usize, arrangement: u64) -> u64 {
    if desired_inputs > 0 {
        arrangement
    } else {
        0
    }
}

/// The arrangements to try, in order: stereo first where two outputs or more are wanted, and mono
/// in any case.
pub open spec fn fallbacks(desired_inputs: usize, desired_outputs: usize) -> Seq<Arrangement> {
    let stereo = Arrangement {
        inputs: if_wanted(desired_inputs, SPEAKER_STEREO),
        outputs: SPEAKER_STEREO,
        output_channels: 2,
    };
    let mono = Arrangement {
        inputs: if_wanted(desired_inputs, SPEAKER_MONO),
        outputs: SPEAKER_MONO,
        output_channels: 1,
    };
    if desired_outputs >= 2 {
        seq![stereo, mono]
    } else {
        seq![mono]
    }
}

fn fallback_list(desired_inputs: usize, desired_outputs: usize) -> (list: Vec<Arrangement>)
    ensures
        list@ == fallbacks(desired_inputs, desired_outputs),
{
    let mut list: Vec<Arrangement> = Vec::new();
    if desired_outputs >= 2 {
        list.push(
            Arrangement {
                inputs: if desired_inputs > 0 {
                    SPEAKER_STEREO
                } else {
                    0
                },
                outputs: SPEAKER_STEREO,
                output_channels: 2,
            },
        );
    }
    list.push(
        Arrangement {
            inputs: if desired_inputs > 0 {
                SPEAKER_MONO
            } else {
                0
            },
            outputs: SPEAKER_MONO,
            output_channels: 1,
        },
    );
    assert(list@ =~= fallbacks(desired_inputs, desired_outputs));
    list
}

/// The activation of one event input bus.
pub open spec fn event_activation(component: usize, index: int) -> Call {
    Call::ActivateBus {
        component,
        media: K_EVENT,
        direction: K_INPUT,
        index: index as i32,
        state: 1,
    }
}

impl Vst3Instance {
    /// The call that proposes a pair of arrangements. The input arrangement counts only where the
    /// plugin has audio inputs.
    pub open spec fn arrangement_call(self, inputs: u64, outputs: u64) -> Call {
        Call::SetBusArrangements {
            processor: self.processor,
            inputs,
            num_inputs: if self.input_channels > 0 {
                1
            } else {
                0
            },
            outputs,
            num_outputs: 1,
        }
    }

    /// The activation of the first audio bus of a direction.
    pub open spec fn audio_activation(self, direction: i32) -> Call {
        Call::ActivateBus {
            component: self.component,
            media: K_AUDIO,
            direction,
            index: 0,
            state: 1,
        }
    }

    /// The calls that activate the audio buses and ask for the number of event input buses.
    pub open spec fn activation_calls(self) -> Seq<Call> {
        let count = Call::GetBusCount {
            component: self.component,
            media: K_EVENT,
            direction: K_INPUT,
        };
        if self.input_channels > 0 {
            seq![self.audio_activation(K_INPUT), self.audio_activation(K_OUTPUT), count]
        } else {
            seq![self.audio_activation(K_OUTPUT), count]
        }
    }

    /// The calls that propose arrangements and then activate the buses.
    pub open spec fn bus_calls(self, inputs: u64, outputs: u64) -> Seq<Call> {
        seq![self.arrangement_call(inputs, outputs)] + self.activation_calls()
    }

    fn propose(&self, inputs: u64, outputs: u64) -> (call: Call)
        ensures
            call == self.arrangement_call(inputs, outputs),
    {
        Call::SetBusArrangements {
            processor: self.processor,
            inputs,
            num_inputs: if self.input_channels > 0 {
                1
            } else {
                0
            },
            outputs,
            num_outputs: 1,
        }
    }

    fn push_activations(&self, list: &mut Vec<Call>)
        ensures
            final(list)@ == old(list)@ + self.activation_calls(),
    {
        if self.input_channels > 0 {
            list.push(
                Call::ActivateBus {
                    component: self.component,
                    media: K_AUDIO,
                    direction: K_INPUT,
                    index: 0,
                    state: 1,
                },
            );
        }
        list.push(
            Call::ActivateBus {
                component: self.component,
                media: K_AUDIO,
                direction: K_OUTPUT,
                index: 0,
                state: 1,
            },
        );
        list.push(
            Call::GetBusCount { component: self.component, media: K_EVENT, direction: K_INPUT },
        );
        assert(list@ =~= old(list)@ + self.activation_calls());
    }

    /// Sets the speaker arrangements and activates the buses: the calls to make in order, all
    /// under one protection. The last one tells the number of event input buses; the calls of
    /// [`event_bus_calls`](Self::event_bus_calls) follow it.
    pub fn set_bus_arrangements(&self, input_arr: u64, output_arr: u64) -> (r: Result<
        Vec<Call>,
        Vst3Error,
    >)
        ensures
            if self.crashed {
                r matches Err(e) && e@ == "Plugin has crashed"@
            } else {
                r matches Ok(calls) && calls@ == self.bus_calls(input_arr, output_arr)
            },
    {
        if self.crashed {
            return Err(error::already_crashed());
        }
        let mut list: Vec<Call> = Vec::new();
        list.push(self.propose(input_arr, output_arr));
        self.push_activations(&mut list);
        assert(list@ =~= self.bus_calls(input_arr, output_arr));
        Ok(list)
    }

    /// The calls that activate every event input bus, in order. Instruments ignore notes unless
    /// their event bus is active.
    pub fn event_bus_calls(&self, count: i32) -> (list: Vec<Call>)
        ensures
            list@.len() == (if count > 0 {
                count as nat
            } else {
                0
            }),
            forall|i: int|
                0 <= i < list@.len() ==> list@[i] == event_activation(self.component, i),
    {
        let mut list: Vec<Call> = Vec::new();
        let mut bus: i32 = 0;
        while bus < count
            invariant
                0 <= bus,
                bus <= count || bus == 0,
                list@.len() == bus,
                forall|i: int|
                    0 <= i < list@.len() ==> list@[i] == event_activation(self.component, i),
            decreases count - bus,
        {
            list.push(
                Call::ActivateBus {
                    component: self.component,
                    media: K_EVENT,
                    direction: K_INPUT,
                    index: bus,
                    state: 1,
                },
            );
            bus = bus + 1;
        }
        list
    }

    /// Reports how the calls went. What they returned does not matter: many plugins refuse an
    /// arrangement and work with their defaults.
    pub fn set_bus_arrangements_reply(&mut self, outcome: SandboxResult<()>) -> (r: Result<
        (),
        Vst3Error,
    >)
        ensures
            *final(self) == old(self).after_call(outcome),
            match outcome {
                SandboxResult::Returned(_) => r is Ok,
                SandboxResult::Crashed(crash) => r matches Err(e) && e@ == error::crashed_text(
                    old(self).name@,
                    "bus arrangement"@,
                    crash.signal_name@,
                ),
                SandboxResult::Panicked(panic) => r matches Err(e) && e@ == error::panicked_text(
                    old(self).name@,
                    "bus arrangement"@,
                    panic@,
                ),
            },
    {
        match outcome {
            SandboxResult::Returned(_) => Ok(()),
            SandboxResult::Crashed(crash) => {
                self.crashed = true;
                Err(
                    error::crashed(
                        self.name.as_str(),
                        "bus arrangement",
                        crash.signal_name.as_str(),
                    ),
                )
            },
            SandboxResult::Panicked(panic) => {
                self.crashed = true;
                Err(error::panicked(self.name.as_str(), "bus arrangement", panic.as_str()))
            },
        }
    }

    /// Tries one pair of arrangements: the call to make.
    pub fn try_bus_arrangement(&self, input_arr: u64, output_arr: u64) -> (r: Result<
        Call,
        Vst3Error,
    >)
        ensures
            if self.crashed {
                r matches Err(e) && e@ == "Plugin has crashed"@
            } else {
                r == Ok::<Call, Vst3Error>(self.arrangement_call(input_arr, output_arr))
            },
    {
        if self.crashed {
            return Err(error::already_crashed());
        }
        Ok(self.propose(input_arr, output_arr))
    }

    /// Whether the plugin accepted the pair of arrangements.
    pub fn try_bus_arrangement_reply(&mut self, outcome: SandboxResult<i32>) -> (r: Result<
        bool,
        Vst3Error,
    >)
        ensures
            *final(self) == old(self).after_call(outcome),
            match outcome {
                SandboxResult::Returned(code) => r == Ok::<bool, Vst3Error>(code == K_RESULT_OK),
                SandboxResult::Crashed(crash) => r matches Err(e) && e@ == error::crashed_text(
                    old(self).name@,
                    "bus arrangement probe"@,
                    crash.signal_name@,
                ),
                SandboxResult::Panicked(panic) => r matches Err(e) && e@ == error::panicked_text(
                    old(self).name@,
                    "bus arrangement probe"@,
                    panic@,
                ),
            },
    {
        match outcome {
            SandboxResult::Returned(code) => Ok(code == K_RESULT_OK),
            SandboxResult::Crashed(crash) => {
                self.crashed = true;
                Err(
                    error::crashed(
                        self.name.as_str(),
                        "bus arrangement probe",
                        crash.signal_name.as_str(),
                    ),
                )
            },
            SandboxResult::Panicked(panic) => {
                self.crashed = true;
                Err(error::panicked(self.name.as_str(), "bus arrangement probe", panic.as_str()))
            },
        }
    }

    /// The instance after the plugin accepted an arrangement.
    pub open spec fn with_arrangement(
        self,
        desired_inputs: usize,
        arrangement: Arrangement,
    ) -> Vst3Instance {
        Vst3Instance {
            output_channels: arrangement.output_channels,
            input_channels: if desired_inputs == 0 {
                self.input_channels
            } else if arrangement.inputs == SPEAKER_STEREO {
                2
            } else {
                1
            },
            ..self
        }
    }
}

/// How the search for an arrangement goes on.
#[derive(Debug, PartialEq, Eq)]
pub enum FallbackStep {
    /// Propose an arrangement to the plugin.
    Try(Call),
    /// All arrangements were refused: activate the buses with the arrangement that the plugin
    /// comes with, by these calls, all under one protection. The last one tells the number of
    /// event input buses; the calls of [`event_bus_calls`](Vst3Instance::event_bus_calls) follow
    /// it.
    UseDefaults(Vec<Call>),
    /// The search is over, with this number of output channels.
    Done(Result<usize, Vst3Error>),
}

/// A search for an arrangement that the plugin accepts.
#[derive(Clone, Copy, Debug, PartialEq, Eq, Structural)]
pub struct BusFallback {
    /// The number of input channels that are wanted.
    pub desired_inputs: usize,
    /// The number of output channels that are wanted.
    pub desired_outputs: usize,
    /// The number of arrangements that were refused so far.
    pub refused: usize,
}

impl BusFallback {
    /// The arrangements to try.
    pub open spec fn list(self) -> Seq<Arrangement> {
        fallbacks(self.desired_inputs, self.desired_outputs)
    }

    /// No more arrangements were refused than there are.
    pub open spec fn wf(self) -> bool {
        self.refused <= self.list().len()
    }

    /// The step to take now: the next arrangement while there is one, after that the defaults,
    /// which are activated and not proposed, and neither for a plugin that has crashed.
    pub open spec fn takes(self, instance: Vst3Instance, step: FallbackStep) -> bool {
        if instance.crashed {
            step matches FallbackStep::Done(Err(e)) && e@ == "Plugin has crashed"@
        } else if self.refused < self.list().len() {
            let next = self.list()[self.refused as int];
            step == FallbackStep::Try(instance.arrangement_call(next.inputs, next.outputs))
        } else {
            step matches FallbackStep::UseDefaults(calls) && calls@ == instance.activation_calls()
        }
    }

    fn next(&self, instance: &Vst3Instance) -> (step: FallbackStep)
        requires
            self.wf(),
        ensures
            self.takes(*instance, step),
    {
        let list: Vec<Arrangement> = fallback_list(self.desired_inputs, self.desired_outputs);
        if self.refused < list.len() {
            let next = list[self.refused];
            match instance.try_bus_arrangement(next.inputs, next.outputs) {
                Ok(call) => FallbackStep::Try(call),
                Err(e) => FallbackStep::Done(Err(e)),
            }
        } else if instance.crashed {
            FallbackStep::Done(Err(error::already_crashed()))
        } else {
            let mut calls: Vec<Call> = Vec::new();
            instance.push_activations(&mut calls);
            assert(calls@ =~= instance.activation_calls());
            FallbackStep::UseDefaults(calls)
        }
    }

    /// Takes the answer to a proposal. An accepted arrangement ends the search and fixes the
    /// numbers of channels, a refused one makes place for the next, and a crash ends the search.
    pub fn probed(&mut self, instance: &mut Vst3Instance, outcome: SandboxResult<i32>) -> (step:
        FallbackStep)
        requires
            old(self).wf(),
            old(self).refused < old(self).list().len(),
            !old(instance).crashed,
        ensures
            final(self).wf(),
            final(self).desired_inputs == old(self).desired_inputs,
            final(self).desired_outputs == old(self).desired_outputs,
            step matches FallbackStep::Done(Ok(channels)) ==> final(instance).output_channels
                == channels,
            ({
                let tried = old(self).list()[old(self).refused as int];
                match outcome {
                    SandboxResult::Returned(code) => if code == K_RESULT_OK {
                        &&& final(self).refused == old(self).refused
                        &&& *final(instance) == old(instance).with_arrangement(
                            old(self).desired_inputs,
                            tried,
                        )
                        &&& step == FallbackStep::Done(Ok(tried.output_channels))
                    } else {
                        &&& final(self).refused == old(self).refused + 1
                        &&& *final(instance) == *old(instance)
                        &&& final(self).takes(*final(instance), step)
                    },
                    SandboxResult::Crashed(crash) => {
                        &&& final(self).refused == old(self).refused
                        &&& *final(instance) == old(instance).after_crash()
                        &&& step matches FallbackStep::Done(Err(e)) && e@ == error::crashed_text(
                            old(instance).name@,
                            "bus arrangement probe"@,
                            crash.signal_name@,
                        )
                    },
                    SandboxResult::Panicked(panic) => {
                        &&& final(self).refused == old(self).refused
                        &&& *final(instance) == old(instance).after_crash()
                        &&& step matches FallbackStep::Done(Err(e)) && e@ == error::panicked_text(
                            old(instance).name@,
                            "bus arrangement probe"@,
                            panic@,
                        )
                    },
                }
            }),
    {
        match instance.try_bus_arrangement_reply(outcome) {
            Ok(true) => {
                let list: Vec<Arrangement> = fallback_list(
                    self.desired_inputs,
                    self.desired_outputs,
                );
                let tried = list[self.refused];
                instance.output_channels = tried.output_channels;
                if self.desired_inputs > 0 {
                    instance.input_channels =
                    if tried.inputs == SPEAKER_STEREO {
                        2
                    } else {
                        1
                    };
                }
                FallbackStep::Done(Ok(tried.output_channels))
            },
            Ok(false) => {
                self.refused = self.refused + 1;
                self.next(instance)
            },
            Err(e) => FallbackStep::Done(Err(e)),
        }
    }

    /// Takes the outcome of the calls that set up the defaults. The number of output channels is
    /// then the one that was wanted.
    pub fn defaulted(&self, instance: &mut Vst3Instance, outcome: SandboxResult<()>) -> (r: Result<
        usize,
        Vst3Error,
    >)
        ensures
            *final(instance) == old(instance).after_call(outcome),
            match outcome {
                SandboxResult::Returned(_) => r == Ok::<usize, Vst3Error>(self.desired_outputs),
                SandboxResult::Crashed(crash) => r matches Err(e) && e@ == error::crashed_text(
                    old(instance).name@,
                    "bus arrangement"@,
                    crash.signal_name@,
                ),
                SandboxResult::Panicked(panic) => r matches Err(e) && e@ == error::panicked_text(
                    old(instance).name@,
                    "bus arrangement"@,
                    panic@,
                ),
            },
    {
        match instance.set_bus_arrangements_reply(outcome) {
            Ok(()) => Ok(self.desired_outputs),
            Err(e) => Err(e),
        }
    }
}

impl Vst3Instance {
    /// Sets the speaker arrangements with fallbacks: stereo, then mono, then what the plugin
    /// comes with.
    pub fn set_bus_arrangements_with_fallback(
        &self,
        desired_input_channels: usize,
        desired_output_channels: usize,
    ) -> (r: (BusFallback, FallbackStep))
        ensures
            r.0 == (BusFallback {
                desired_inputs: desired_input_channels,
                desired_outputs: desired_output_channels,
                refused: 0,
            }),
            r.0.wf(),
            r.0.takes(*self, r.1),
    {
        let search = BusFallback {
            desired_inputs: desired_input_channels,
            desired_outputs: desired_output_channels,
            refused: 0,
        };
        let step = search.next(self);
        (search, step)
    }
}

/// The fallbacks of a plugin that does not crash: where two outputs or more are wanted, stereo is
/// proposed first and mono once stereo was refused; where less is wanted, mono is proposed at once.
/// The defaults are used once mono was refused: no arrangement is proposed any more, and the
/// buses are activated.
pub proof fn lemma_fallback_order(search: BusFallback, instance: Vst3Instance, step: FallbackStep)
    requires
        search.wf(),
        !instance.crashed,
        search.takes(instance, step),
    ensures
        ({
            let stereo = FallbackStep::Try(
                instance.arrangement_call(
                    if_wanted(search.desired_inputs, SPEAKER_STEREO),
                    SPEAKER_STEREO,
                ),
            );
            let mono = FallbackStep::Try(
                instance.arrangement_call(
                    if_wanted(search.desired_inputs, SPEAKER_MONO),
                    SPEAKER_MONO,
                ),
            );
            if search.desired_outputs >= 2 {
                &&& search.refused == 0 ==> step == stereo
                &&& search.refused == 1 ==> step == mono
                &&& search.refused == 2 ==> step is UseDefaults
                &&& search.refused <= 2
            } else {
                &&& search.refused == 0 ==> step == mono
                &&& search.refused == 1 ==> step is UseDefaults
                &&& search.refused <= 1
            }
        }),
        step matches FallbackStep::UseDefaults(calls) ==> {
            &&& forall|i: int|
                0 <= i < calls@.len() ==> !(#[trigger] calls@[i] is SetBusArrangements)
            &&& calls@.contains(instance.audio_activation(K_OUTPUT))
            &&& instance.input_channels > 0 ==> calls@.contains(instance.audio_activation(K_INPUT))
        },
{
    if step is UseDefaults {
        let calls = instance.activation_calls();
        if instance.input_channels > 0 {
            assert(calls[0] == instance.audio_activation(K_INPUT));
            assert(calls[1] == instance.audio_activation(K_OUTPUT));
        } else {
            assert(calls[0] == instance.audio_activation(K_OUTPUT));
        }
    }
}

/// What is called in order to arrange the buses: the arrangements that were asked for are proposed
/// once, the one for the inputs only to a plugin that has inputs. Then the first audio input, where
/// there is one, and the first audio output are switched on, and last of all the plugin is asked
/// for the number of its event inputs.
pub proof fn lemma_bus_calls(instance: Vst3Instance, inputs: u64, outputs: u64)
    ensures
        ({
            let calls = instance.bus_calls(inputs, outputs);
            let proposal = Call::SetBusArrangements {
                processor: instance.processor,
                inputs,
                num_inputs: if instance.input_channels == 0 {
                    0
                } else {
                    1
                },
                outputs,
                num_outputs: 1,
            };
            let component = instance.component;
            let input = Call::ActivateBus { component, media: 0, direction: 0, index: 0, state: 1 };
            let output = Call::ActivateBus { component, media: 0, direction: 1, index: 0, state: 1 };
            let count = Call::GetBusCount { component, media: 1, direction: 0 };
            &&& calls[0] == proposal
            &&& instance.arrangement_call(inputs, outputs) == proposal
            &&& calls.skip(1) == instance.activation_calls()
            &&& instance.input_channels == 0 ==> calls == seq![proposal, output, count]
            &&& instance.input_channels > 0 ==> calls == seq![proposal, input, output, count]
        }),
{
    let calls = instance.bus_calls(inputs, outputs);
    assert(calls.skip(1) =~= instance.activation_calls());
    if instance.input_channels == 0 {
        assert(calls =~= seq![calls[0], calls[1], calls[2]]);
    } else {
        assert(calls =~= seq![calls[0], calls[1], calls[2], calls[3]]);
    }
}

/// Every event input is switched on, under its own number.
pub proof fn lemma_event_activation(component: usize, index: i32)
    ensures
        event_activation(component, index as int) == (Call::ActivateBus {
            component,
            media: 1,
            direction: 0,
            index,
            state: 1,
        }),
{
}

/// What is proposed when two outputs or more are wanted is stereo, and then mono; when fewer are
/// wanted, only mono. The inputs are arranged like the outputs where any are wanted, and not at all
/// where none are.
pub proof fn lemma_fallbacks(desired_inputs: usize, desired_outputs: usize, k: int)
    requires
        0 <= k < fallbacks(desired_inputs, desired_outputs).len(),
    ensures
        ({
            let list = fallbacks(desired_inputs, desired_outputs);
            let arrangement = list[k];
            &&& list.len() == (if desired_outputs >= 2 {
                2int
            } else {
                1
            })
            &&& desired_outputs >= 2 && k == 0 <==> arrangement.output_channels == 2
            &&& arrangement.output_channels == 2 ==> arrangement.outputs == 0x03
            &&& arrangement.output_channels != 2 ==> arrangement.output_channels == 1
                && arrangement.outputs == 0x01
            &&& desired_inputs > 0 ==> arrangement.inputs == arrangement.outputs
            &&& desired_inputs == 0 ==> arrangement.inputs == 0
        }),
{
}

/// An instance whose plugin has accepted an arrangement has as many outputs as were proposed, and
/// as many inputs where inputs were wanted. Where none were wanted, its inputs stay as they were;
/// all else stays in any case.
pub proof fn lemma_accepted(instance: Vst3Instance, search: BusFallback)
    requires
        search.refused < search.list().len(),
    ensures
        ({
            let tried = search.list()[search.refused as int];
            let after = instance.with_arrangement(search.desired_inputs, tried);
            let channels = if search.desired_outputs >= 2 && search.refused == 0 {
                2usize
            } else {
                1
            };
            &&& tried.output_channels == channels
            &&& search.desired_inputs > 0 ==> after == (Vst3Instance {
                input_channels: channels,
                output_channels: channels,
                ..instance
            })
            &&& search.desired_inputs == 0 ==> after == (Vst3Instance {
                output_channels: channels,
                ..instance
            })
        }),
{
    lemma_fallbacks(search.desired_inputs, search.desired_outputs, search.refused as int);
}

/// What a search for an arrangement does: nothing with a plugin that has crashed, as the answer
/// says. With any other it proposes what is next in the list, on the processor of the plugin, with
/// an input only where the plugin has one. When the list is used up, it switches on the first
/// input, where there is one, and the first output, and asks for the number of event inputs.
pub proof fn lemma_fallback_takes(search: BusFallback, instance: Vst3Instance, step: FallbackStep)
    requires
        search.wf(),
        search.takes(instance, step),
    ensures
        instance.crashed ==> (step matches FallbackStep::Done(Err(e)) && e@
            == "Plugin has crashed"@),
        !instance.crashed && search.refused < search.list().len() ==> {
            let next = search.list()[search.refused as int];
            step == FallbackStep::Try(
                Call::SetBusArrangements {
                    processor: instance.processor,
                    inputs: next.inputs,
                    num_inputs: if instance.input_channels == 0 {
                        0
                    } else {
                        1
                    },
                    outputs: next.outputs,
                    num_outputs: 1,
                },
            )
        },
        !instance.crashed && search.refused == search.list().len() ==> (
        step matches FallbackStep::UseDefaults(calls) && {
            let component = instance.component;
            let input = Call::ActivateBus { component, media: 0, direction: 0, index: 0, state: 1 };
            let output = Call::ActivateBus { component, media: 0, direction: 1, index: 0, state: 1 };
            let count = Call::GetBusCount { component, media: 1, direction: 0 };
            &&& instance.input_channels == 0 ==> calls@ == seq![output, count]
            &&& instance.input_channels > 0 ==> calls@ == seq![input, output, count]
        }),
{
}

} // verus!
