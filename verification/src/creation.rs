//! The creation of a plugin instance.

use vstd::prelude::*;
use vstd::string::*;

use crate::calls;
use crate::calls::{Answer, Call};
use crate::com::{IAUDIO_PROCESSOR_IID, ICOMPONENT_IID, K_AUDIO, K_INPUT, K_OUTPUT, K_RESULT_OK};
use crate::error;
use crate::error::Vst3Error;
use crate::instance::Vst3Instance;

verus! {

/// Why there is no instance, with the result code of the call that failed.
#[derive(Clone, Copy, Debug, PartialEq, Eq, Structural)]
pub enum CreationFailure {
    /// The factory made no component.
    CreateInstance(i32),
    /// The component would not initialize.
    Initialize(i32),
    /// The component has no audio processor.
    QueryProcessor(i32),
}

impl CreationFailure {
    /// The text of the failure.
    pub open spec fn text(self, name: Seq<char>) -> Seq<char> {
        match self {
            CreationFailure::CreateInstance(code) => error::failed_text(
                "createInstance"@,
                name,
                code,
            ),
            CreationFailure::Initialize(code) => error::failed_text(
                "IComponent::initialize"@,
                name,
                code,
            ),
            CreationFailure::QueryProcessor(code) => error::failed_text(
                "QueryInterface for IAudioProcessor"@,
                name,
                code,
            ),
        }
    }

    fn error(&self, name: &str) -> (e: Vst3Error)
        ensures
            e@ == self.text(name@),
    {
        match self {
            CreationFailure::CreateInstance(code) => error::failed("createInstance", name, *code),
            CreationFailure::Initialize(code) => error::failed(
                "IComponent::initialize",
                name,
                *code,
            ),
            CreationFailure::QueryProcessor(code) => error::failed(
                "QueryInterface for IAudioProcessor",
                name,
                *code,
            ),
        }
    }
}

/// What a creation has obtained once the component is ready for questions.
#[derive(Clone, Copy, Debug, PartialEq, Eq, Structural)]
pub struct Parts {
    pub context: usize,
    pub component: usize,
    pub processor: usize,
}

/// Where a creation stands. Each stage waits for the answer to one call.
#[derive(Clone, Copy, Debug, PartialEq, Eq, Structural)]
pub enum CreationStage {
    /// Making the host context.
    Context,
    /// Making the component.
    Create { context: usize },
    /// Initializing the component.
    Initialize { context: usize, component: usize },
    /// Asking the component for its audio processor.
    QueryProcessor { context: usize, component: usize },
    /// Asking for the number of audio input buses.
    InputCount { parts: Parts },
    /// Asking for the number of audio output buses.
    OutputCount { parts: Parts, has_inputs: bool },
    /// Asking for the channels of the first input bus.
    InputInfo { parts: Parts, has_outputs: bool },
    /// Asking for the channels of the first output bus.
    OutputInfo { parts: Parts, input_channels: usize },
    /// Taking a reference to the factory.
    KeepFactory { parts: Parts, input_channels: usize, output_channels: usize },
    /// Terminating a component that is of no use.
    Terminate { context: usize, component: usize, failure: CreationFailure },
    /// Giving it back.
    Release { context: usize, component: usize, failure: CreationFailure },
    /// Freeing the host context.
    DestroyContext { context: usize, failure: CreationFailure },
    /// There is an instance.
    Ready { parts: Parts, input_channels: usize, output_channels: usize },
    /// There is none.
    Failed { failure: CreationFailure },
}

/// The number of channels that a bus has: what the plugin states, never less than none, and two
/// where it states nothing.
pub open spec fn stated_channels(answer: Answer) -> usize {
    if answer.result != K_RESULT_OK {
        2
    } else if answer.count < 0 {
        0
    } else {
        answer.count as usize
    }
}

fn channels_of(answer: &Answer) -> (channels: usize)
    ensures
        channels == stated_channels(*answer),
{
    if answer.result != K_RESULT_OK {
        2
    } else if answer.count < 0 {
        0
    } else {
        answer.count as usize
    }
}

/// The stage that follows once the input channels are known: without an output bus, stereo is
/// taken for granted.
pub open spec fn outputs_stage(
    parts: Parts,
    has_outputs: bool,
    input_channels: usize,
) -> CreationStage {
    if has_outputs {
        CreationStage::OutputInfo { parts, input_channels }
    } else {
        CreationStage::KeepFactory { parts, input_channels, output_channels: 2 }
    }
}

/// How a creation goes on.
#[derive(Debug, PartialEq, Eq)]
pub enum CreationStep {
    /// A call has to be made.
    Call(Call),
    /// There is no instance.
    Failed(Vst3Error),
    /// There is an instance.
    Ready(Vst3Instance),
}

/// The creation of an instance.
#[derive(Debug, PartialEq, Eq)]
pub struct Creation {
    /// The factory.
    pub factory: usize,
    /// Its function table.
    pub factory_vtbl: usize,
    /// The class to make an instance of.
    pub class_id: [u8; 16],
    /// The name of the plugin.
    pub name: String,
    /// Where the creation stands.
    pub stage: CreationStage,
}

impl Creation {
    /// The creation is over.
    pub open spec fn ended(self) -> bool {
        self.stage is Ready || self.stage is Failed
    }

    /// What has been obtained is there.
    pub open spec fn wf(self) -> bool {
        &&& self.factory_vtbl != 0
        &&& match self.stage {
            CreationStage::Context => true,
            CreationStage::Create { context } => context != 0,
            CreationStage::Initialize { context, component } => context != 0 && component != 0,
            CreationStage::QueryProcessor { context, component } => context != 0 && component != 0,
            CreationStage::InputCount { parts } => parts.wf(),
            CreationStage::OutputCount { parts, .. } => parts.wf(),
            CreationStage::InputInfo { parts, .. } => parts.wf(),
            CreationStage::OutputInfo { parts, .. } => parts.wf(),
            CreationStage::KeepFactory { parts, .. } => parts.wf(),
            CreationStage::Ready { parts, .. } => parts.wf(),
            _ => true,
        }
    }

    /// The call whose answer is awaited.
    pub open spec fn pending(self) -> Option<Call> {
        match self.stage {
            CreationStage::Context => Some(Call::NewHostContext),
            CreationStage::Create { .. } => Some(
                Call::CreateInstance {
                    factory: self.factory,
                    class_id: self.class_id,
                    interface: ICOMPONENT_IID,
                },
            ),
            CreationStage::Initialize { context, component } => Some(
                Call::Initialize { object: component, context },
            ),
            CreationStage::QueryProcessor { component, .. } => Some(
                Call::QueryInterface { object: component, interface: IAUDIO_PROCESSOR_IID },
            ),
            CreationStage::InputCount { parts } => Some(
                Call::GetBusCount { component: parts.component, media: K_AUDIO, direction: K_INPUT },
            ),
            CreationStage::OutputCount { parts, .. } => Some(
                Call::GetBusCount {
                    component: parts.component,
                    media: K_AUDIO,
                    direction: K_OUTPUT,
                },
            ),
            CreationStage::InputInfo { parts, .. } => Some(
                Call::GetBusInfo {
                    component: parts.component,
                    media: K_AUDIO,
                    direction: K_INPUT,
                    index: 0,
                },
            ),
            CreationStage::OutputInfo { parts, .. } => Some(
                Call::GetBusInfo {
                    component: parts.component,
                    media: K_AUDIO,
                    direction: K_OUTPUT,
                    index: 0,
                },
            ),
            CreationStage::KeepFactory { .. } => Some(Call::AddRef { object: self.factory }),
            CreationStage::Terminate { component, .. } => Some(
                Call::Terminate { object: component },
            ),
            CreationStage::Release { component, .. } => Some(Call::Release { object: component }),
            CreationStage::DestroyContext { context, .. } => Some(
                Call::DestroyHostContext { context },
            ),
            _ => None,
        }
    }

    /// The stage after the answer.
    pub open spec fn after(self, answer: Answer) -> CreationStage {
        match self.stage {
            CreationStage::Context => CreationStage::Create { context: answer.object },
            CreationStage::Create { context } => if answer.gives_object() {
                CreationStage::Initialize { context, component: answer.object }
            } else {
                CreationStage::DestroyContext {
                    context,
                    failure: CreationFailure::CreateInstance(answer.result),
                }
            },
            CreationStage::Initialize { context, component } => if answer.result == K_RESULT_OK {
                CreationStage::QueryProcessor { context, component }
            } else {
                CreationStage::Release {
                    context,
                    component,
                    failure: CreationFailure::Initialize(answer.result),
                }
            },
            CreationStage::QueryProcessor { context, component } => if answer.gives_object() {
                CreationStage::InputCount {
                    parts: Parts { context, component, processor: answer.object },
                }
            } else {
                CreationStage::Terminate {
                    context,
                    component,
                    failure: CreationFailure::QueryProcessor(answer.result),
                }
            },
            CreationStage::InputCount { parts } => CreationStage::OutputCount {
                parts,
                has_inputs: answer.count > 0,
            },
            CreationStage::OutputCount { parts, has_inputs } => if has_inputs {
                CreationStage::InputInfo { parts, has_outputs: answer.count > 0 }
            } else {
                outputs_stage(parts, answer.count > 0, 0)
            },
            CreationStage::InputInfo { parts, has_outputs } => outputs_stage(
                parts,
                has_outputs,
                stated_channels(answer),
            ),
            CreationStage::OutputInfo { parts, input_channels } => CreationStage::KeepFactory {
                parts,
                input_channels,
                output_channels: stated_channels(answer),
            },
            CreationStage::KeepFactory { parts, input_channels, output_channels } =>
                CreationStage::Ready { parts, input_channels, output_channels },
            CreationStage::Terminate { context, component, failure } => CreationStage::Release {
                context,
                component,
                failure,
            },
            CreationStage::Release { context, failure, .. } => CreationStage::DestroyContext {
                context,
                failure,
            },
            CreationStage::DestroyContext { failure, .. } => CreationStage::Failed { failure },
            CreationStage::Ready { .. } => self.stage,
            CreationStage::Failed { .. } => self.stage,
        }
    }

    /// The creation at another stage.
    pub open spec fn at(self, stage: CreationStage) -> Creation {
        Creation { stage, ..self }
    }

    /// An instance is what a successful creation has made: it is inactive, without a controller
    /// and without a handler, and has not crashed.
    pub open spec fn makes(self, instance: Vst3Instance) -> bool {
        self.stage matches CreationStage::Ready { parts, input_channels, output_channels } && {
            &&& instance.component == parts.component
            &&& instance.processor == parts.processor
            &&& instance.host_context == parts.context
            &&& instance.component_handler == 0
            &&& !instance.active
            &&& !instance.processing
            &&& instance.input_channels == input_channels
            &&& instance.output_channels == output_channels
            &&& instance.name@ == self.name@
            &&& instance.factory == self.factory
            &&& instance.factory_vtbl == self.factory_vtbl
            &&& instance.cached_controller == 0
            &&& !instance.owns_separate_controller
            &&& instance.controller_host_context == 0
            &&& !instance.crashed
        }
    }

    /// The step to take at this stage.
    pub open spec fn takes(self, step: CreationStep) -> bool {
        match self.stage {
            CreationStage::Ready { .. } => step matches CreationStep::Ready(instance)
                && self.makes(instance),
            CreationStage::Failed { failure } => step matches CreationStep::Failed(e) && e@
                == failure.text(self.name@),
            _ => step == CreationStep::Call(self.pending()->0),
        }
    }

    /// The number of references to an object that the creation, or the instance that came of it,
    /// holds.
    pub open spec fn references(self, object: usize) -> int {
        match self.stage {
            CreationStage::Initialize { component, .. } => calls::one_if(component == object),
            CreationStage::QueryProcessor { component, .. } => calls::one_if(component == object),
            CreationStage::Terminate { component, .. } => calls::one_if(component == object),
            CreationStage::Release { component, .. } => calls::one_if(component == object),
            CreationStage::InputCount { parts } => parts.references(object),
            CreationStage::OutputCount { parts, .. } => parts.references(object),
            CreationStage::InputInfo { parts, .. } => parts.references(object),
            CreationStage::OutputInfo { parts, .. } => parts.references(object),
            CreationStage::KeepFactory { parts, .. } => parts.references(object),
            CreationStage::Ready { parts, .. } => parts.references(object) + calls::one_if(
                self.factory == object,
            ),
            _ => 0,
        }
    }

    /// The number of the host's own objects at an address that the creation, or the instance that
    /// came of it, holds.
    pub open spec fn host_objects(self, object: usize) -> int {
        match self.stage {
            CreationStage::Context => 0,
            CreationStage::Create { context } => calls::one_if(context == object),
            CreationStage::Initialize { context, .. } => calls::one_if(context == object),
            CreationStage::QueryProcessor { context, .. } => calls::one_if(context == object),
            CreationStage::Terminate { context, .. } => calls::one_if(context == object),
            CreationStage::Release { context, .. } => calls::one_if(context == object),
            CreationStage::DestroyContext { context, .. } => calls::one_if(context == object),
            CreationStage::InputCount { parts } => calls::one_if(parts.context == object),
            CreationStage::OutputCount { parts, .. } => calls::one_if(parts.context == object),
            CreationStage::InputInfo { parts, .. } => calls::one_if(parts.context == object),
            CreationStage::OutputInfo { parts, .. } => calls::one_if(parts.context == object),
            CreationStage::KeepFactory { parts, .. } => calls::one_if(parts.context == object),
            CreationStage::Ready { parts, .. } => calls::one_if(parts.context == object),
            CreationStage::Failed { .. } => 0,
        }
    }

    /// The number of calls that can still come.
    pub open spec fn rank(self) -> nat {
        match self.stage {
            CreationStage::Context => 9,
            CreationStage::Create { .. } => 8,
            CreationStage::Initialize { .. } => 7,
            CreationStage::QueryProcessor { .. } => 6,
            CreationStage::InputCount { .. } => 5,
            CreationStage::OutputCount { .. } => 4,
            CreationStage::InputInfo { .. } => 3,
            CreationStage::OutputInfo { .. } => 2,
            CreationStage::KeepFactory { .. } => 1,
            CreationStage::Terminate { .. } => 3,
            CreationStage::Release { .. } => 2,
            CreationStage::DestroyContext { .. } => 1,
            CreationStage::Ready { .. } => 0,
            CreationStage::Failed { .. } => 0,
        }
    }

    /// The creation after some of its calls, given their answers.
    pub open spec fn run(self, answers: Seq<Answer>) -> Creation
        decreases answers.len(),
    {
        if self.ended() || answers.len() == 0 {
            self
        } else {
            self.at(self.after(answers[0])).run(answers.skip(1))
        }
    }

    /// By how much the calls change the number of references that are held to an object.
    pub open spec fn references_gained(self, answers: Seq<Answer>, object: usize) -> int
        decreases answers.len(),
    {
        if self.ended() || answers.len() == 0 {
            0
        } else {
            calls::references_gained(self.pending()->0, answers[0], object) + self.at(
                self.after(answers[0]),
            ).references_gained(answers.skip(1), object)
        }
    }

    /// By how much the calls change the number of the host's own objects at an address.
    pub open spec fn host_objects_gained(self, answers: Seq<Answer>, object: usize) -> int
        decreases answers.len(),
    {
        if self.ended() || answers.len() == 0 {
            0
        } else {
            calls::host_objects_gained(self.pending()->0, answers[0], object) + self.at(
                self.after(answers[0]),
            ).host_objects_gained(answers.skip(1), object)
        }
    }

    /// Takes the answer to the call that was made and tells what comes next. Every reference and
    /// every host context that comes in is accounted for: it is held, or it has been given back.
    pub fn step(&mut self, answer: &Answer) -> (step: CreationStep)
        requires
            old(self).wf(),
            !old(self).ended(),
            old(self).stage is Context ==> answer.object != 0,
        ensures
            final(self).wf(),
            *final(self) == old(self).at(old(self).after(*answer)),
            final(self).takes(step),
            step matches CreationStep::Ready(instance) ==> instance.wf(),
            final(self).rank() < old(self).rank(),
            forall|o: usize|
                #[trigger] final(self).references(o) == old(self).references(o)
                    + calls::references_gained(old(self).pending()->0, *answer, o),
            forall|o: usize|
                #[trigger] final(self).host_objects(o) == old(self).host_objects(o)
                    + calls::host_objects_gained(old(self).pending()->0, *answer, o),
    {
        let current = self.stage;
        self.stage =
        match current {
            CreationStage::Context => CreationStage::Create { context: answer.object },
            CreationStage::Create { context } => {
                if answer.has_object() {
                    CreationStage::Initialize { context, component: answer.object }
                } else {
                    CreationStage::DestroyContext {
                        context,
                        failure: CreationFailure::CreateInstance(answer.result),
                    }
                }
            },
            CreationStage::Initialize { context, component } => {
                if answer.result == K_RESULT_OK {
                    CreationStage::QueryProcessor { context, component }
                } else {
                    CreationStage::Release {
                        context,
                        component,
                        failure: CreationFailure::Initialize(answer.result),
                    }
                }
            },
            CreationStage::QueryProcessor { context, component } => {
                if answer.has_object() {
                    CreationStage::InputCount {
                        parts: Parts { context, component, processor: answer.object },
                    }
                } else {
                    CreationStage::Terminate {
                        context,
                        component,
                        failure: CreationFailure::QueryProcessor(answer.result),
                    }
                }
            },
            CreationStage::InputCount { parts } => CreationStage::OutputCount {
                parts,
                has_inputs: answer.count > 0,
            },
            CreationStage::OutputCount { parts, has_inputs } => {
                if has_inputs {
                    CreationStage::InputInfo { parts, has_outputs: answer.count > 0 }
                } else if answer.count > 0 {
                    CreationStage::OutputInfo { parts, input_channels: 0 }
                } else {
                    CreationStage::KeepFactory { parts, input_channels: 0, output_channels: 2 }
                }
            },
            CreationStage::InputInfo { parts, has_outputs } => {
                let input_channels: usize = channels_of(answer);
                if has_outputs {
                    CreationStage::OutputInfo { parts, input_channels }
                } else {
                    CreationStage::KeepFactory { parts, input_channels, output_channels: 2 }
                }
            },
            CreationStage::OutputInfo { parts, input_channels } => CreationStage::KeepFactory {
                parts,
                input_channels,
                output_channels: channels_of(answer),
            },
            CreationStage::KeepFactory { parts, input_channels, output_channels } =>
                CreationStage::Ready { parts, input_channels, output_channels },
            CreationStage::Terminate { context, component, failure } => CreationStage::Release {
                context,
                component,
                failure,
            },
            CreationStage::Release { context, failure, .. } => CreationStage::DestroyContext {
                context,
                failure,
            },
            CreationStage::DestroyContext { failure, .. } => CreationStage::Failed { failure },
            CreationStage::Ready { .. } => current,
            CreationStage::Failed { .. } => current,
        };
        self.next()
    }

    fn next(&self) -> (step: CreationStep)
        ensures
            self.takes(step),
            self.wf() ==> (step matches CreationStep::Ready(instance) ==> instance.wf()),
    {
        let call: Call = match self.stage {
            CreationStage::Context => Call::NewHostContext,
            CreationStage::Create { .. } => Call::CreateInstance {
                factory: self.factory,
                class_id: self.class_id,
                interface: ICOMPONENT_IID,
            },
            CreationStage::Initialize { context, component } => Call::Initialize {
                object: component,
                context,
            },
            CreationStage::QueryProcessor { component, .. } => Call::QueryInterface {
                object: component,
                interface: IAUDIO_PROCESSOR_IID,
            },
            CreationStage::InputCount { parts } => Call::GetBusCount {
                component: parts.component,
                media: K_AUDIO,
                direction: K_INPUT,
            },
            CreationStage::OutputCount { parts, .. } => Call::GetBusCount {
                component: parts.component,
                media: K_AUDIO,
                direction: K_OUTPUT,
            },
            CreationStage::InputInfo { parts, .. } => Call::GetBusInfo {
                component: parts.component,
                media: K_AUDIO,
                direction: K_INPUT,
                index: 0,
            },
            CreationStage::OutputInfo { parts, .. } => Call::GetBusInfo {
                component: parts.component,
                media: K_AUDIO,
                direction: K_OUTPUT,
                index: 0,
            },
            CreationStage::KeepFactory { .. } => Call::AddRef { object: self.factory },
            CreationStage::Terminate { component, .. } => Call::Terminate { object: component },
            CreationStage::Release { component, .. } => Call::Release { object: component },
            CreationStage::DestroyContext { context, .. } => Call::DestroyHostContext { context },
            CreationStage::Ready { parts, input_channels, output_channels } => {
                return CreationStep::Ready(
                    Vst3Instance {
                        component: parts.component,
                        processor: parts.processor,
                        host_context: parts.context,
                        component_handler: 0,
                        active: false,
                        processing: false,
                        input_channels,
                        output_channels,
                        name: self.name.clone(),
                        factory: self.factory,
                        factory_vtbl: self.factory_vtbl,
                        cached_controller: 0,
                        owns_separate_controller: false,
                        controller_host_context: 0,
                        crashed: false,
                    },
                );
            },
            CreationStage::Failed { failure } => {
                return CreationStep::Failed(failure.error(self.name.as_str()));
            },
        };
        CreationStep::Call(call)
    }
}

impl Parts {
    /// All parts are there.
    pub open spec fn wf(self) -> bool {
        self.context != 0 && self.component != 0 && self.processor != 0
    }

    /// The number of references to an object among the parts.
    pub open spec fn references(self, object: usize) -> int {
        calls::one_if(self.component == object) + calls::one_if(self.processor == object)
    }
}

impl Vst3Instance {
    /// Begins to create an instance of a class: a host context has to be made first.
    pub fn create(factory: usize, factory_vtbl: usize, cid: &[u8; 16], name: &str) -> (r: (
        Creation,
        CreationStep,
    ))
        requires
            factory_vtbl != 0,
        ensures
            r.0.wf(),
            r.0.factory == factory,
            r.0.factory_vtbl == factory_vtbl,
            r.0.class_id == *cid,
            r.0.name@ == name@,
            r.0.stage == CreationStage::Context,
            r.0.takes(r.1),
    {
        let creation = Creation {
            factory,
            factory_vtbl,
            class_id: *cid,
            name: String::from_str(name),
            stage: CreationStage::Context,
        };
        (creation, CreationStep::Call(Call::NewHostContext))
    }
}

/// A creation comes to an end within nine calls, and what it then holds is what its calls have
/// obtained and not given back. So a failed creation has given everything back, and a successful
/// one leaves all that it holds to the instance.
pub proof fn lemma_creation_balance(creation: Creation, answers: Seq<Answer>, object: usize)
    requires
        object != 0,
        creation.stage is Context,
    ensures
        ({
            let end = creation.run(answers);
            &&& answers.len() >= 9 ==> end.ended()
            &&& end.references(object) == creation.references_gained(answers, object)
            &&& end.host_objects(object) == creation.host_objects_gained(answers, object)
            &&& end.stage is Failed ==> creation.references_gained(answers, object) == 0
                && creation.host_objects_gained(answers, object) == 0
            &&& forall|instance: Vst3Instance| #[trigger]
                end.makes(instance) ==> instance.references(object)
                    == creation.references_gained(answers, object) && instance.host_objects(object)
                    == creation.host_objects_gained(answers, object)
        }),
{
    lemma_run_balance(creation, answers, object);
}

proof fn lemma_run_balance(creation: Creation, answers: Seq<Answer>, object: usize)
    requires
        object != 0,
    ensures
        ({
            let end = creation.run(answers);
            &&& answers.len() >= creation.rank() ==> end.ended()
            &&& end.references(object) == creation.references(object) + creation.references_gained(
                answers,
                object,
            )
            &&& end.host_objects(object) == creation.host_objects(object)
                + creation.host_objects_gained(answers, object)
        }),
    decreases answers.len(),
{
    if !creation.ended() && answers.len() > 0 {
        lemma_run_balance(creation.at(creation.after(answers[0])), answers.skip(1), object);
    }
}

/// One more answer takes a creation one step further.
proof fn lemma_run_further(creation: Creation, answers: Seq<Answer>, n: int)
    requires
        0 <= n < answers.len(),
    ensures
        creation.run(answers.take(n + 1)) == ({
            let before = creation.run(answers.take(n));
            if before.ended() {
                before
            } else {
                before.at(before.after(answers[n]))
            }
        }),
    decreases n,
{
    let now = answers.take(n + 1);
    let before = answers.take(n);
    reveal_with_fuel(Creation::run, 2);
    if !creation.ended() && n > 0 {
        assert(now.skip(1) =~= answers.skip(1).take(n));
        assert(before.skip(1) =~= answers.skip(1).take(n - 1));
        lemma_run_further(creation.at(creation.after(answers[0])), answers.skip(1), n - 1);
    } else if !creation.ended() {
        assert(now.skip(1).len() == 0);
    }
}

/// The call that a creation makes once it has these answers.
pub open spec fn call_behind(creation: Creation, answers: Seq<Answer>, n: int) -> Option<Call> {
    creation.run(answers.take(n)).pending()
}

/// What the first calls of a creation are, and what comes of them. A host context is made, the
/// factory is asked for a component of the class, the component is initialized with the context
/// and asked for its audio processor. Where one of the last three is refused, the creation fails
/// for that reason: a component that was made is given back, one that was initialized is
/// terminated before, and the context is freed.
pub proof fn lemma_creation_obtains(creation: Creation, answers: Seq<Answer>)
    requires
        creation.stage is Context,
        answers.len() >= 9,
    ensures
        call_behind(creation, answers, 0) == Some(Call::NewHostContext),
        call_behind(creation, answers, 1) == Some(
            Call::CreateInstance {
                factory: creation.factory,
                class_id: creation.class_id,
                interface: ICOMPONENT_IID,
            },
        ),
        answers[1].result != 0 || answers[1].object == 0 ==> {
            &&& call_behind(creation, answers, 2) == Some(
                Call::DestroyHostContext { context: answers[0].object },
            )
            &&& creation.run(answers).stage == (CreationStage::Failed {
                failure: CreationFailure::CreateInstance(answers[1].result),
            })
        },
        answers[1].result == 0 && answers[1].object != 0 ==> {
            let component = answers[1].object;
            &&& call_behind(creation, answers, 2) == Some(
                Call::Initialize { object: component, context: answers[0].object },
            )
            &&& answers[2].result != 0 ==> {
                &&& call_behind(creation, answers, 3) == Some(Call::Release { object: component })
                &&& call_behind(creation, answers, 4) == Some(
                    Call::DestroyHostContext { context: answers[0].object },
                )
                &&& creation.run(answers).stage == (CreationStage::Failed {
                    failure: CreationFailure::Initialize(answers[2].result),
                })
            }
            &&& answers[2].result == 0 ==> {
                &&& call_behind(creation, answers, 3) == Some(
                    Call::QueryInterface { object: component, interface: IAUDIO_PROCESSOR_IID },
                )
                &&& answers[3].result != 0 || answers[3].object == 0 ==> {
                    &&& call_behind(creation, answers, 4) == Some(
                        Call::Terminate { object: component },
                    )
                    &&& call_behind(creation, answers, 5) == Some(
                        Call::Release { object: component },
                    )
                    &&& call_behind(creation, answers, 6) == Some(
                        Call::DestroyHostContext { context: answers[0].object },
                    )
                    &&& creation.run(answers).stage == (CreationStage::Failed {
                        failure: CreationFailure::QueryProcessor(answers[3].result),
                    })
                }
                &&& answers[3].result == 0 && answers[3].object != 0 ==> creation.run(
                    answers,
                ).stage is Ready
            }
        },
{
    lemma_run_answers(creation, answers);
}

/// What a creation learns of the buses. It asks how many audio inputs and then how many audio
/// outputs there are, and then for the channels of the first bus of each kind that there is. A
/// plugin without an input has no input channels, whatever it says of its outputs, and one without
/// an output has two output channels. The channels of a bus are those that the plugin states, none
/// where it states less than none, and two where it does not answer.
pub proof fn lemma_creation_channels(
    creation: Creation,
    answers: Seq<Answer>,
    instance: Vst3Instance,
)
    requires
        creation.stage is Context,
        answers.len() >= 9,
        creation.run(answers).makes(instance),
    ensures
        ({
            let component = answers[1].object;
            let inputs = answers[4].count;
            let outputs = answers[5].count;
            let at = if inputs > 0 {
                7int
            } else {
                6
            };
            &&& call_behind(creation, answers, 4) == Some(
                Call::GetBusCount { component, media: 0, direction: 0 },
            )
            &&& call_behind(creation, answers, 5) == Some(
                Call::GetBusCount { component, media: 0, direction: 1 },
            )
            &&& inputs <= 0 ==> instance.input_channels == 0
            &&& inputs > 0 ==> {
                &&& call_behind(creation, answers, 6) == Some(
                    Call::GetBusInfo { component, media: 0, direction: 0, index: 0 },
                )
                &&& answers[6].result != 0 ==> instance.input_channels == 2
                &&& answers[6].result == 0 && answers[6].count >= 0 ==> instance.input_channels
                    == answers[6].count
                &&& answers[6].result == 0 && answers[6].count < 0 ==> instance.input_channels == 0
            }
            &&& outputs <= 0 ==> instance.output_channels == 2
            &&& outputs > 0 ==> {
                &&& call_behind(creation, answers, at) == Some(
                    Call::GetBusInfo { component, media: 0, direction: 1, index: 0 },
                )
                &&& answers[at].result != 0 ==> instance.output_channels == 2
                &&& answers[at].result == 0 && answers[at].count >= 0 ==> instance.output_channels
                    == answers[at].count
                &&& answers[at].result == 0 && answers[at].count < 0 ==> instance.output_channels
                    == 0
            }
        }),
{
    lemma_run_answers(creation, answers);
}

/// A new instance holds what the calls have handed out, under the name that was asked for. It is
/// neither active nor processing, has neither a controller nor a handler, and has not crashed.
pub proof fn lemma_creation_makes(creation: Creation, answers: Seq<Answer>, instance: Vst3Instance)
    requires
        creation.stage is Context,
        answers.len() >= 9,
        creation.run(answers).makes(instance),
    ensures
        instance.host_context == answers[0].object,
        instance.component == answers[1].object,
        instance.processor == answers[3].object,
        instance.factory == creation.factory,
        instance.factory_vtbl == creation.factory_vtbl,
        instance.name@ == creation.name@,
        !instance.active && !instance.processing && !instance.crashed,
        instance.component_handler == 0 && instance.cached_controller == 0,
        instance.controller_host_context == 0 && !instance.owns_separate_controller,
{
    lemma_run_answers(creation, answers);
}

/// What a creation is after one more answer.
spec fn goes_on(before: Creation, answer: Answer) -> Creation {
    if before.ended() {
        before
    } else {
        before.at(before.after(answer))
    }
}

proof fn lemma_run_stays(creation: Creation, answers: Seq<Answer>, n: int)
    requires
        creation.stage is Context,
        9 <= n <= answers.len(),
    ensures
        creation.run(answers.take(n)) == creation.run(answers.take(9)),
        creation.run(answers.take(9)).ended(),
    decreases n,
{
    if n > 9 {
        lemma_run_stays(creation, answers, n - 1);
        lemma_run_further(creation, answers, n - 1);
    } else {
        lemma_run_balance(creation, answers.take(9), 1);
    }
}

proof fn lemma_run_answers(creation: Creation, answers: Seq<Answer>)
    requires
        creation.stage is Context,
        answers.len() >= 9,
    ensures
        ({
            let c1 = goes_on(creation, answers[0]);
            let c2 = goes_on(c1, answers[1]);
            let c3 = goes_on(c2, answers[2]);
            let c4 = goes_on(c3, answers[3]);
            let c5 = goes_on(c4, answers[4]);
            let c6 = goes_on(c5, answers[5]);
            let c7 = goes_on(c6, answers[6]);
            let c8 = goes_on(c7, answers[7]);
            let c9 = goes_on(c8, answers[8]);
            &&& creation.run(answers.take(0)) == creation
            &&& creation.run(answers.take(1)) == c1
            &&& creation.run(answers.take(2)) == c2
            &&& creation.run(answers.take(3)) == c3
            &&& creation.run(answers.take(4)) == c4
            &&& creation.run(answers.take(5)) == c5
            &&& creation.run(answers.take(6)) == c6
            &&& creation.run(answers.take(7)) == c7
            &&& creation.run(answers) == c9
        }),
{
    lemma_run_further(creation, answers, 0);
    lemma_run_further(creation, answers, 1);
    lemma_run_further(creation, answers, 2);
    lemma_run_further(creation, answers, 3);
    lemma_run_further(creation, answers, 4);
    lemma_run_further(creation, answers, 5);
    lemma_run_further(creation, answers, 6);
    lemma_run_further(creation, answers, 7);
    lemma_run_further(creation, answers, 8);
    lemma_run_stays(creation, answers, answers.len() as int);
    assert(answers.take(answers.len() as int) =~= answers);
}

/// Why there is no instance is said by the call that was refused, the name of the plugin and the
/// code that came back.
pub proof fn lemma_failure_text(failure: CreationFailure, name: Seq<char>)
    ensures
        ({
            let said = |call: Seq<char>, code: i32|
                call + " failed for '"@ + name + "' (result: "@ + crate::text::decimal(code as int)
                    + ")"@;
            &&& failure matches CreationFailure::CreateInstance(code) ==> failure.text(name) == said(
                "createInstance"@,
                code,
            )
            &&& failure matches CreationFailure::Initialize(code) ==> failure.text(name) == said(
                "IComponent::initialize"@,
                code,
            )
            &&& failure matches CreationFailure::QueryProcessor(code) ==> failure.text(name) == said(
                "QueryInterface for IAudioProcessor"@,
                code,
            )
        }),
{
}

/// What a creation tells its caller: the call that is due while it goes on, the reason when it has
/// failed, and an instance when it has succeeded.
pub proof fn lemma_creation_tells(creation: Creation, step: CreationStep)
    requires
        creation.takes(step),
    ensures
        creation.stage is Ready <==> step is Ready,
        creation.stage is Failed <==> step is Failed,
        creation.pending() matches Some(call) ==> step == CreationStep::Call(call),
        creation.pending() is None <==> creation.stage is Ready || creation.stage is Failed,
        step matches CreationStep::Failed(e) ==> e@ == creation.stage->Failed_failure.text(
            creation.name@,
        ),
        step matches CreationStep::Ready(instance) ==> {
            &&& instance.component == creation.stage->Ready_parts.component
            &&& instance.processor == creation.stage->Ready_parts.processor
            &&& instance.host_context == creation.stage->Ready_parts.context
            &&& instance.input_channels == creation.stage->Ready_input_channels
            &&& instance.output_channels == creation.stage->Ready_output_channels
            &&& instance.name@ == creation.name@
        },
{
}

} // verus!
