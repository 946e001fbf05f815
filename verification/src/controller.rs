//! The edit controller of a plugin: finding it, and the operations that go through it.

use vstd::prelude::*;
use vstd::string::*;

use crate::calls;
use crate::calls::{Answer, Call};
use crate::com::{IEDIT_CONTROLLER_IID, K_RESULT_OK};
use crate::connection::Connecting;
use crate::instance::{Step, Vst3Instance};

verus! {

/// The transfer of the component's state to the controller.
#[derive(Clone, Copy, Debug, PartialEq, Eq, Structural)]
pub enum StateSync {
    /// Asking the component for its state.
    GetState { component: usize, controller: usize },
    /// Handing the state to the controller.
    SetState { controller: usize },
    /// Nothing is left to do.
    Ended,
}

impl StateSync {
    /// The call whose answer is awaited.
    pub open spec fn pending(self) -> Option<Call> {
        match self {
            StateSync::GetState { component, .. } => Some(Call::GetComponentState { component }),
            StateSync::SetState { controller } => Some(Call::SyncComponentState { controller }),
            StateSync::Ended => None,
        }
    }

    /// The state after the answer. Only a state that the component gave, and that is not empty,
    /// goes to the controller; what the controller says to it does not matter.
    pub open spec fn after(self, answer: Answer) -> StateSync {
        match self {
            StateSync::GetState { controller, .. } => if answer.result == K_RESULT_OK
                && answer.data@.len() > 0 {
                StateSync::SetState { controller }
            } else {
                StateSync::Ended
            },
            _ => StateSync::Ended,
        }
    }

    /// The number of calls that can still come.
    pub open spec fn rank(self) -> nat {
        match self {
            StateSync::GetState { .. } => 2,
            StateSync::SetState { .. } => 1,
            StateSync::Ended => 0,
        }
    }

    /// The step that an operation takes in this state: the call that is due, with the data that
    /// were just read where the call takes data.
    pub open spec fn takes(self, read: Seq<u8>, step: Step<()>) -> bool {
        match self {
            StateSync::GetState { component, .. } => step == Step::<()>::Call(
                Call::GetComponentState { component },
            ),
            StateSync::SetState { controller } => step matches Step::CallWith(call, data) && call
                == (Call::SyncComponentState { controller }) && data@ == read,
            StateSync::Ended => step == Step::Done(()),
        }
    }

    /// Takes the answer to the call that was made and tells what comes next.
    pub fn step(&mut self, answer: Answer) -> (step: Step<()>)
        requires
            old(self).pending() is Some,
        ensures
            *final(self) == old(self).after(answer),
            final(self).takes(answer.data@, step),
            final(self).rank() < old(self).rank(),
    {
        let current = *self;
        match current {
            StateSync::GetState { controller, .. } => {
                if answer.result == K_RESULT_OK && answer.data.len() > 0 {
                    *self = StateSync::SetState { controller };
                    Step::CallWith(Call::SyncComponentState { controller }, answer.data)
                } else {
                    *self = StateSync::Ended;
                    Step::Done(())
                }
            },
            _ => {
                *self = StateSync::Ended;
                Step::Done(())
            },
        }
    }
}

/// An identifier that names nothing.
pub open spec fn is_null_id(id: [u8; 16]) -> bool {
    forall|i: int| 0 <= i < 16 ==> id@[i] == 0
}

fn null_id(id: &[u8; 16]) -> (b: bool)
    ensures
        b == is_null_id(*id),
{
    let mut i: usize = 0;
    while i < 16
        invariant
            i <= 16,
            forall|j: int| 0 <= j < i ==> id@[j] == 0,
        decreases 16 - i,
    {
        if id[i] != 0 {
            return false;
        }
        i = i + 1;
    }
    true
}

/// The search for the edit controller. Each state waits for the answer to one call.
#[derive(Clone, Copy, Debug, PartialEq, Eq)]
pub enum ControllerLookup {
    /// Asking whether the component is its own controller.
    Query,
    /// Asking for the class of a separate controller.
    ClassId,
    /// Making a separate controller.
    Create { class_id: [u8; 16] },
    /// Making a host context for it.
    Context { controller: usize },
    /// Initializing it.
    Initialize { controller: usize, context: usize },
    /// Giving a controller back that would not initialize.
    Discard { controller: usize, context: usize },
    /// Freeing its host context.
    DiscardContext { context: usize },
    /// Connecting it with the component.
    Connect { controller: usize, context: usize, connecting: Connecting },
    /// Handing the component's state to it.
    Sync { controller: usize, context: usize, sync: StateSync },
    /// There is no controller.
    Missing,
    /// The component is the controller.
    Combined { controller: usize },
    /// The controller is an object of its own.
    Separate { controller: usize, context: usize },
}

impl ControllerLookup {
    /// The search is over.
    pub open spec fn ended(self) -> bool {
        self is Missing || self is Combined || self is Separate
    }

    /// The conversations that are part of the search are under way.
    pub open spec fn underway(self) -> bool {
        match self {
            ControllerLookup::Connect { connecting, .. } => connecting.pending() is Some,
            ControllerLookup::Sync { sync, .. } => sync.pending() is Some,
            _ => true,
        }
    }

    /// What has been obtained is there.
    pub open spec fn wf(self) -> bool {
        &&& self.underway()
        &&& match self {
            ControllerLookup::Context { controller } => controller != 0,
            ControllerLookup::Initialize { controller, context } => controller != 0 && context
                != 0,
            ControllerLookup::Connect { controller, context, .. } => controller != 0 && context
                != 0,
            ControllerLookup::Sync { controller, context, .. } => controller != 0 && context != 0,
            ControllerLookup::Combined { controller } => controller != 0,
            ControllerLookup::Separate { controller, context } => controller != 0 && context != 0,
            _ => true,
        }
    }

    /// The call whose answer is awaited.
    pub open spec fn pending(self, instance: Vst3Instance) -> Option<Call> {
        match self {
            ControllerLookup::Query => Some(
                Call::QueryInterface {
                    object: instance.component,
                    interface: IEDIT_CONTROLLER_IID,
                },
            ),
            ControllerLookup::ClassId => Some(
                Call::GetControllerClassId { component: instance.component },
            ),
            ControllerLookup::Create { class_id } => Some(
                Call::CreateInstance {
                    factory: instance.factory,
                    class_id,
                    interface: IEDIT_CONTROLLER_IID,
                },
            ),
            ControllerLookup::Context { .. } => Some(Call::NewHostContext),
            ControllerLookup::Initialize { controller, context } => Some(
                Call::Initialize { object: controller, context },
            ),
            ControllerLookup::Discard { controller, .. } => Some(
                Call::Release { object: controller },
            ),
            ControllerLookup::DiscardContext { context } => Some(
                Call::DestroyHostContext { context },
            ),
            ControllerLookup::Connect { connecting, .. } => connecting.pending(),
            ControllerLookup::Sync { sync, .. } => sync.pending(),
            _ => None,
        }
    }

    /// The state after the answer.
    pub open spec fn after(self, instance: Vst3Instance, answer: Answer) -> ControllerLookup {
        match self {
            ControllerLookup::Query => if answer.gives_object() {
                ControllerLookup::Combined { controller: answer.object }
            } else {
                ControllerLookup::ClassId
            },
            ControllerLookup::ClassId => if answer.result == K_RESULT_OK && !is_null_id(
                answer.class_id,
            ) {
                ControllerLookup::Create { class_id: answer.class_id }
            } else {
                ControllerLookup::Missing
            },
            ControllerLookup::Create { .. } => if answer.gives_object() {
                ControllerLookup::Context { controller: answer.object }
            } else {
                ControllerLookup::Missing
            },
            ControllerLookup::Context { controller } => ControllerLookup::Initialize {
                controller,
                context: answer.object,
            },
            ControllerLookup::Initialize { controller, context } => if answer.result
                == K_RESULT_OK {
                ControllerLookup::Connect {
                    controller,
                    context,
                    connecting: Connecting::QueryComponent {
                        component: instance.component,
                        controller,
                    },
                }
            } else {
                ControllerLookup::Discard { controller, context }
            },
            ControllerLookup::Discard { context, .. } => ControllerLookup::DiscardContext {
                context,
            },
            ControllerLookup::DiscardContext { .. } => ControllerLookup::Missing,
            ControllerLookup::Connect { controller, context, connecting } => {
                let next = connecting.after(answer);
                if next is Ended {
                    ControllerLookup::Sync {
                        controller,
                        context,
                        sync: StateSync::GetState { component: instance.component, controller },
                    }
                } else {
                    ControllerLookup::Connect { controller, context, connecting: next }
                }
            },
            ControllerLookup::Sync { controller, context, sync } => {
                let next = sync.after(answer);
                if next is Ended {
                    ControllerLookup::Separate { controller, context }
                } else {
                    ControllerLookup::Sync { controller, context, sync: next }
                }
            },
            _ => self,
        }
    }

    /// The instance once the search has come to this state: it changes when the controller is
    /// found.
    pub open spec fn adopted_by(self, instance: Vst3Instance) -> Vst3Instance {
        match self {
            ControllerLookup::Combined { controller } => Vst3Instance {
                cached_controller: controller,
                owns_separate_controller: false,
                ..instance
            },
            ControllerLookup::Separate { controller, context } => Vst3Instance {
                cached_controller: controller,
                owns_separate_controller: true,
                controller_host_context: context,
                ..instance
            },
            _ => instance,
        }
    }

    /// The number of references to an object that the search holds for the moment.
    pub open spec fn references(self, object: usize) -> int {
        match self {
            ControllerLookup::Context { controller } => calls::one_if(controller == object),
            ControllerLookup::Initialize { controller, .. } => calls::one_if(controller == object),
            ControllerLookup::Discard { controller, .. } => calls::one_if(controller == object),
            ControllerLookup::Connect { controller, connecting, .. } => calls::one_if(
                controller == object,
            ) + connecting.references(object),
            ControllerLookup::Sync { controller, .. } => calls::one_if(controller == object),
            _ => 0,
        }
    }

    /// The number of the host's own objects at an address that the search holds for the moment.
    pub open spec fn host_objects(self, object: usize) -> int {
        match self {
            ControllerLookup::Initialize { context, .. } => calls::one_if(context == object),
            ControllerLookup::Discard { context, .. } => calls::one_if(context == object),
            ControllerLookup::DiscardContext { context } => calls::one_if(context == object),
            ControllerLookup::Connect { context, .. } => calls::one_if(context == object),
            ControllerLookup::Sync { context, .. } => calls::one_if(context == object),
            _ => 0,
        }
    }

    /// The number of calls that can still come.
    pub open spec fn rank(self) -> nat {
        match self {
            ControllerLookup::Query => 13,
            ControllerLookup::ClassId => 12,
            ControllerLookup::Create { .. } => 11,
            ControllerLookup::Context { .. } => 10,
            ControllerLookup::Initialize { .. } => 9,
            ControllerLookup::Connect { connecting, .. } => 2 + connecting.rank(),
            ControllerLookup::Sync { sync, .. } => sync.rank(),
            ControllerLookup::Discard { .. } => 2,
            ControllerLookup::DiscardContext { .. } => 1,
            _ => 0,
        }
    }

    /// The step that an operation takes in this state: the call that is due, with the data that
    /// were just read where the call takes data, or the controller that was found.
    pub open spec fn takes(
        self,
        instance: Vst3Instance,
        read: Seq<u8>,
        step: Step<Option<usize>>,
    ) -> bool {
        match self {
            ControllerLookup::Missing => step == Step::Done(None::<usize>),
            ControllerLookup::Combined { controller } => step == Step::Done(Some(controller)),
            ControllerLookup::Separate { controller, .. } => step == Step::Done(
                Some(controller),
            ),
            ControllerLookup::Sync { sync: StateSync::SetState { controller }, .. } =>
                step matches Step::CallWith(call, data) && call == (Call::SyncComponentState {
                controller,
            }) && data@ == read,
            _ => step == Step::<Option<usize>>::Call(self.pending(instance)->0),
        }
    }

    /// The state that a search has come to, given the answers to its calls.
    pub open spec fn run(self, instance: Vst3Instance, answers: Seq<Answer>) -> ControllerLookup
        decreases answers.len(),
    {
        if self.ended() || answers.len() == 0 {
            self
        } else {
            self.after(instance, answers[0]).run(instance, answers.skip(1))
        }
    }

    /// By how much the calls change the number of references that are held to an object.
    pub open spec fn references_gained(
        self,
        instance: Vst3Instance,
        answers: Seq<Answer>,
        object: usize,
    ) -> int
        decreases answers.len(),
    {
        if self.ended() || answers.len() == 0 {
            0
        } else {
            calls::references_gained(self.pending(instance)->0, answers[0], object) + self.after(
                instance,
                answers[0],
            ).references_gained(instance, answers.skip(1), object)
        }
    }

    /// By how much the calls change the number of the host's own objects at an address.
    pub open spec fn host_objects_gained(
        self,
        instance: Vst3Instance,
        answers: Seq<Answer>,
        object: usize,
    ) -> int
        decreases answers.len(),
    {
        if self.ended() || answers.len() == 0 {
            0
        } else {
            calls::host_objects_gained(self.pending(instance)->0, answers[0], object) + self.after(
                instance,
                answers[0],
            ).host_objects_gained(instance, answers.skip(1), object)
        }
    }

    /// Takes the answer to the call that was made and tells what comes next. Every reference and
    /// every host context that comes in is accounted for: it is held by the search or by the
    /// instance, or it has been given back.
    pub fn step(&mut self, instance: &mut Vst3Instance, answer: Answer) -> (step: Step<
        Option<usize>,
    >)
        requires
            old(self).wf(),
            !old(self).ended(),
            old(instance).wf(),
            old(instance).cached_controller == 0,
            *old(self) is Context ==> answer.object != 0,
        ensures
            final(self).wf(),
            *final(self) == old(self).after(*old(instance), answer),
            *final(instance) == final(self).adopted_by(*old(instance)),
            final(instance).wf(),
            final(self).takes(*old(instance), answer.data@, step),
            final(self).rank() < old(self).rank(),
            forall|o: usize|
                #[trigger] final(self).references(o) + final(instance).references(o) == old(
                    self,
                ).references(o) + old(instance).references(o) + calls::references_gained(
                    old(self).pending(*old(instance))->0,
                    answer,
                    o,
                ),
            forall|o: usize|
                #[trigger] final(self).host_objects(o) + final(instance).host_objects(o) == old(
                    self,
                ).host_objects(o) + old(instance).host_objects(o) + calls::host_objects_gained(
                    old(self).pending(*old(instance))->0,
                    answer,
                    o,
                ),
    {
        let current = *self;
        match current {
            ControllerLookup::Query => {
                if answer.has_object() {
                    *self = ControllerLookup::Combined { controller: answer.object };
                    instance.cached_controller = answer.object;
                    instance.owns_separate_controller = false;
                    Step::Done(Some(answer.object))
                } else {
                    *self = ControllerLookup::ClassId;
                    Step::Call(Call::GetControllerClassId { component: instance.component })
                }
            },
            ControllerLookup::ClassId => {
                if answer.result == K_RESULT_OK && !null_id(&answer.class_id) {
                    *self = ControllerLookup::Create { class_id: answer.class_id };
                    Step::Call(
                        Call::CreateInstance {
                            factory: instance.factory,
                            class_id: answer.class_id,
                            interface: IEDIT_CONTROLLER_IID,
                        },
                    )
                } else {
                    *self = ControllerLookup::Missing;
                    Step::Done(None)
                }
            },
            ControllerLookup::Create { .. } => {
                if answer.has_object() {
                    *self = ControllerLookup::Context { controller: answer.object };
                    Step::Call(Call::NewHostContext)
                } else {
                    *self = ControllerLookup::Missing;
                    Step::Done(None)
                }
            },
            ControllerLookup::Context { controller } => {
                *self = ControllerLookup::Initialize { controller, context: answer.object };
                Step::Call(Call::Initialize { object: controller, context: answer.object })
            },
            ControllerLookup::Initialize { controller, context } => {
                if answer.result == K_RESULT_OK {
                    let connecting = instance.connect_component_controller(controller);
                    *self = ControllerLookup::Connect { controller, context, connecting };
                    match connecting.call() {
                        Some(call) => Step::Call(call),
                        None => vstd::pervasive::unreached(),
                    }
                } else {
                    *self = ControllerLookup::Discard { controller, context };
                    Step::Call(Call::Release { object: controller })
                }
            },
            ControllerLookup::Discard { context, .. } => {
                *self = ControllerLookup::DiscardContext { context };
                Step::Call(Call::DestroyHostContext { context })
            },
            ControllerLookup::DiscardContext { .. } => {
                *self = ControllerLookup::Missing;
                Step::Done(None)
            },
            ControllerLookup::Connect { controller, context, connecting } => {
                let mut next = connecting;
                match next.step(&answer) {
                    Some(call) => {
                        *self = ControllerLookup::Connect { controller, context, connecting: next };
                        Step::Call(call)
                    },
                    None => {
                        let sync = instance.sync_component_state_to_controller(controller);
                        *self = ControllerLookup::Sync { controller, context, sync };
                        assert(next is Ended);
                        Step::Call(Call::GetComponentState { component: instance.component })
                    },
                }
            },
            ControllerLookup::Sync { controller, context, sync } => {
                let mut next = sync;
                match next.step(answer) {
                    Step::CallWith(call, data) => {
                        *self = ControllerLookup::Sync { controller, context, sync: next };
                        Step::CallWith(call, data)
                    },
                    _ => {
                        *self = ControllerLookup::Separate { controller, context };
                        instance.cached_controller = controller;
                        instance.owns_separate_controller = true;
                        instance.controller_host_context = context;
                        Step::Done(Some(controller))
                    },
                }
            },
            _ => vstd::pervasive::unreached(),
        }
    }
}

impl Vst3Instance {
    /// Hands the component's state to a controller, which may need it before it can show an
    /// editor.
    pub fn sync_component_state_to_controller(&self, controller: usize) -> (sync: StateSync)
        ensures
            sync == (StateSync::GetState { component: self.component, controller }),
    {
        StateSync::GetState { component: self.component, controller }
    }

    /// Finds the edit controller: the one that is known, or by a search, which begins in the
    /// state [`ControllerLookup::Query`] with the call that is told here. A crashed plugin is not
    /// asked.
    pub fn get_controller(&self) -> (step: Step<Option<usize>>)
        ensures
            step == (if self.cached_controller != 0 {
                Step::Done(Some(self.cached_controller))
            } else if self.crashed {
                Step::Done(None)
            } else {
                Step::Call(ControllerLookup::Query.pending(*self)->0)
            }),
    {
        if self.cached_controller != 0 {
            return Step::Done(Some(self.cached_controller));
        }
        if self.crashed {
            return Step::Done(None);
        }
        Step::Call(
            Call::QueryInterface { object: self.component, interface: IEDIT_CONTROLLER_IID },
        )
    }
}

/// A search comes to an end within thirteen calls. What its calls have obtained and not given back
/// is then what the instance holds more than before: the controller, and the host context of a
/// controller that is an object of its own; nothing where no controller was found.
pub proof fn lemma_lookup_balance(instance: Vst3Instance, answers: Seq<Answer>, object: usize)
    requires
        object != 0,
        instance.cached_controller == 0,
        instance.controller_host_context == 0,
    ensures
        ({
            let start = ControllerLookup::Query;
            let end = start.run(instance, answers);
            let after = end.adopted_by(instance);
            &&& answers.len() >= 13 ==> end.ended()
            &&& end.ended() ==> after.references(object) == instance.references(object)
                + start.references_gained(instance, answers, object)
            &&& end.ended() ==> after.host_objects(object) == instance.host_objects(object)
                + start.host_objects_gained(instance, answers, object)
            &&& end is Missing ==> after == instance
        }),
{
    lemma_run_balance(ControllerLookup::Query, instance, answers, object);
}

proof fn lemma_run_balance(
    lookup: ControllerLookup,
    instance: Vst3Instance,
    answers: Seq<Answer>,
    object: usize,
)
    requires
        object != 0,
        instance.cached_controller == 0,
        instance.controller_host_context == 0,
        lookup.underway(),
    ensures
        ({
            let end = lookup.run(instance, answers);
            let after = end.adopted_by(instance);
            &&& answers.len() >= lookup.rank() ==> end.ended()
            &&& end.references(object) + after.references(object) == lookup.references(object)
                + lookup.adopted_by(instance).references(object) + lookup.references_gained(
                instance,
                answers,
                object,
            )
            &&& end.host_objects(object) + after.host_objects(object) == lookup.host_objects(object)
                + lookup.adopted_by(instance).host_objects(object) + lookup.host_objects_gained(
                instance,
                answers,
                object,
            )
        }),
    decreases answers.len(),
{
    if !lookup.ended() && answers.len() > 0 {
        lemma_run_balance(lookup.after(instance, answers[0]), instance, answers.skip(1), object);
    }
}

/// One more answer takes a search one step further.
proof fn lemma_run_further(
    lookup: ControllerLookup,
    instance: Vst3Instance,
    answers: Seq<Answer>,
    n: int,
)
    requires
        0 <= n < answers.len(),
    ensures
        lookup.run(instance, answers.take(n + 1)) == goes_on(
            lookup.run(instance, answers.take(n)),
            instance,
            answers[n],
        ),
    decreases n,
{
    let now = answers.take(n + 1);
    let before = answers.take(n);
    reveal_with_fuel(ControllerLookup::run, 2);
    if !lookup.ended() && n > 0 {
        assert(now.skip(1) =~= answers.skip(1).take(n));
        assert(before.skip(1) =~= answers.skip(1).take(n - 1));
        lemma_run_further(lookup.after(instance, answers[0]), instance, answers.skip(1), n - 1);
    } else if !lookup.ended() {
        assert(now.skip(1).len() == 0);
    }
}

/// What a search is after one more answer.
spec fn goes_on(
    before: ControllerLookup,
    instance: Vst3Instance,
    answer: Answer,
) -> ControllerLookup {
    if before.ended() {
        before
    } else {
        before.after(instance, answer)
    }
}

/// A search that has come to this state, or past it, ends with this result.
spec fn heads_for(lookup: ControllerLookup, end: ControllerLookup) -> bool {
    match lookup {
        ControllerLookup::Connect { controller, context, .. } => end
            == (ControllerLookup::Separate { controller, context }),
        ControllerLookup::Sync { controller, context, .. } => end == (ControllerLookup::Separate {
            controller,
            context,
        }),
        ControllerLookup::Discard { .. } => end is Missing,
        ControllerLookup::DiscardContext { .. } => end is Missing,
        _ => lookup.ended() && end == lookup,
    }
}

proof fn lemma_heads_for(
    lookup: ControllerLookup,
    instance: Vst3Instance,
    answers: Seq<Answer>,
    n: int,
    m: int,
)
    requires
        0 <= n <= m <= answers.len(),
        lookup.run(instance, answers.take(m)).ended(),
        ({
            let at = lookup.run(instance, answers.take(n));
            at.ended() || at is Connect || at is Sync || at is Discard || at is DiscardContext
        }),
    ensures
        heads_for(lookup.run(instance, answers.take(n)), lookup.run(instance, answers.take(m))),
    decreases m - n,
{
    let at = lookup.run(instance, answers.take(n));
    if n < m {
        lemma_run_further(lookup, instance, answers, n);
        lemma_heads_for(lookup, instance, answers, n + 1, m);
    }
}

/// The call that a search makes once it has these answers.
pub open spec fn call_behind(instance: Vst3Instance, answers: Seq<Answer>, n: int) -> Option<Call> {
    ControllerLookup::Query.run(instance, answers.take(n)).pending(instance)
}

/// What a search comes to. The component is asked first; where it is a controller itself, it is
/// the one that is found, and nothing else is made. Otherwise it is asked for the class of its
/// controller. Without such a class, or where the factory makes no object of it, there is no
/// controller. Where it does, the object gets a host context of its own and is initialized with
/// it. An object that does not initialize is given back, its context is freed, and there is no
/// controller. Any other is the one that is found, whatever comes of connecting it and of handing
/// it the state of the component, and its context is kept.
pub proof fn lemma_lookup_finds(instance: Vst3Instance, answers: Seq<Answer>)
    requires
        answers.len() >= 13,
        instance.cached_controller == 0,
        instance.controller_host_context == 0,
    ensures
        ({
            let end = ControllerLookup::Query.run(instance, answers);
            let found = end.adopted_by(instance);
            let given = answers[1].class_id;
            let controller = answers[2].object;
            let context = answers[3].object;
            &&& end.ended()
            &&& call_behind(instance, answers, 0) == Some(
                Call::QueryInterface {
                    object: instance.component,
                    interface: IEDIT_CONTROLLER_IID,
                },
            )
            &&& if answers[0].result == 0 && answers[0].object != 0 {
                &&& end == (ControllerLookup::Combined { controller: answers[0].object })
                &&& found == (Vst3Instance {
                    cached_controller: answers[0].object,
                    owns_separate_controller: false,
                    ..instance
                })
            } else {
                &&& call_behind(instance, answers, 1) == Some(
                    Call::GetControllerClassId { component: instance.component },
                )
                &&& if answers[1].result != 0 || given@ == Seq::new(16, |i: int| 0u8) {
                    end is Missing && found == instance
                } else {
                    &&& call_behind(instance, answers, 2) == Some(
                        Call::CreateInstance {
                            factory: instance.factory,
                            class_id: given,
                            interface: IEDIT_CONTROLLER_IID,
                        },
                    )
                    &&& if answers[2].result != 0 || controller == 0 {
                        end is Missing && found == instance
                    } else {
                        &&& call_behind(instance, answers, 3) == Some(Call::NewHostContext)
                        &&& call_behind(instance, answers, 4) == Some(
                            Call::Initialize { object: controller, context },
                        )
                        &&& if answers[4].result != 0 {
                            &&& call_behind(instance, answers, 5) == Some(
                                Call::Release { object: controller },
                            )
                            &&& call_behind(instance, answers, 6) == Some(
                                Call::DestroyHostContext { context },
                            )
                            &&& end is Missing && found == instance
                        } else {
                            &&& end == (ControllerLookup::Separate { controller, context })
                            &&& found == (Vst3Instance {
                                cached_controller: controller,
                                owns_separate_controller: true,
                                controller_host_context: context,
                                ..instance
                            })
                        }
                    }
                }
            }
        }),
{
    let start = ControllerLookup::Query;
    let n = answers.len() as int;
    lemma_run_balance(start, instance, answers, 1);
    lemma_run_further(start, instance, answers, 0);
    lemma_run_further(start, instance, answers, 1);
    lemma_run_further(start, instance, answers, 2);
    lemma_run_further(start, instance, answers, 3);
    lemma_run_further(start, instance, answers, 4);
    lemma_run_further(start, instance, answers, 5);
    assert(answers.take(n) =~= answers);
    assert(is_null_id(answers[1].class_id) <==> answers[1].class_id@ =~= Seq::new(16, |i: int| 0u8));
    lemma_heads_for(start, instance, answers, 5, n);
}

/// A controller that is an object of its own is connected with the component first, and handed
/// the state of the component after that.
pub proof fn lemma_connect_before_sync(
    instance: Vst3Instance,
    controller: usize,
    context: usize,
    connecting: Connecting,
    initialized: Answer,
    answer: Answer,
)
    requires
        initialized.result == 0,
    ensures
        (ControllerLookup::Initialize { controller, context }).after(instance, initialized)
            == (ControllerLookup::Connect {
            controller,
            context,
            connecting: Connecting::QueryComponent { component: instance.component, controller },
        }),
        ({
            let here = ControllerLookup::Connect { controller, context, connecting };
            let next = here.after(instance, answer);
            &&& here.pending(instance) == connecting.pending()
            &&& connecting.after(answer) is Ended ==> next.pending(instance) == Some(
                Call::GetComponentState { component: instance.component },
            )
            &&& !(connecting.after(answer) is Ended) ==> next == (ControllerLookup::Connect {
                controller,
                context,
                connecting: connecting.after(answer),
            })
        }),
{
}

/// What handing the state of a component over comes to: the component is asked for it, and the
/// controller is given just the bytes that came, unless the component refused or there are none.
/// What the controller answers ends it.
pub proof fn lemma_sync(component: usize, controller: usize, given: Answer, taken: Answer)
    ensures
        ({
            let start = StateSync::GetState { component, controller };
            let next = start.after(given);
            &&& start.pending() == Some(Call::GetComponentState { component })
            &&& given.result == 0 && given.data@.len() > 0 ==> {
                &&& next.pending() == Some(Call::SyncComponentState { controller })
                &&& forall|step: Step<()>| #[trigger]
                    next.takes(given.data@, step) ==> (step matches Step::CallWith(call, data)
                        && call == (Call::SyncComponentState { controller }) && data@
                        == given.data@)
                &&& next.after(taken).pending() is None
            }
            &&& given.result != 0 || given.data@.len() == 0 ==> next.pending() is None
        }),
{
}

/// What a search tells its caller: the call that is due while it goes on, with the bytes that the
/// component just gave where the call hands them over, and what was found when it is over.
pub proof fn lemma_lookup_tells(
    lookup: ControllerLookup,
    instance: Vst3Instance,
    read: Seq<u8>,
    step: Step<Option<usize>>,
)
    requires
        lookup.underway(),
        lookup.takes(instance, read, step),
    ensures
        lookup is Missing ==> step == Step::Done(None::<usize>),
        lookup matches ControllerLookup::Combined { controller } ==> step == Step::Done(
            Some(controller),
        ),
        lookup matches ControllerLookup::Separate { controller, .. } ==> step == Step::Done(
            Some(controller),
        ),
        lookup.pending(instance) matches Some(call) ==> {
            &&& call is SyncComponentState ==> (step matches Step::CallWith(made, data) && made
                == call && data@ == read)
            &&& !(call is SyncComponentState) && !(lookup is Connect) ==> step == Step::<
                Option<usize>,
            >::Call(call)
            &&& lookup is Connect ==> step == Step::<Option<usize>>::Call(call)
        },
{
}

} // verus!
