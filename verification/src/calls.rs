//! The calls that the host makes into a plugin, as data, and what they do to references.

use vstd::prelude::*;

use crate::com::K_RESULT_OK;

verus! {

/// The name under which an editor view is asked for, null-terminated.
pub const EDITOR_VIEW: [u8; 7] = [101, 100, 105, 116, 111, 114, 0];

/// The processing setup that is handed to a plugin. The sample rate is the bit pattern of a
/// floating-point number.
#[derive(Clone, Copy, Debug, PartialEq, Eq, Structural)]
pub struct ProcessSetup {
    pub process_mode: i32,
    pub symbolic_sample_size: i32,
    pub max_samples_per_block: i32,
    pub sample_rate_bits: u64,
}

/// One call. Objects are named by their addresses; the address zero is the null pointer.
#[derive(Clone, Copy, Debug, PartialEq, Eq)]
pub enum Call {
    /// `IPluginFactory::createInstance`; answered by a result and an object.
    CreateInstance { factory: usize, class_id: [u8; 16], interface: [u8; 16] },
    /// `FUnknown::queryInterface`; answered by a result and an object.
    QueryInterface { object: usize, interface: [u8; 16] },
    /// `FUnknown::addRef`.
    AddRef { object: usize },
    /// `FUnknown::release`.
    Release { object: usize },
    /// `IPluginBase::initialize`; answered by a result.
    Initialize { object: usize, context: usize },
    /// `IPluginBase::terminate`.
    Terminate { object: usize },
    /// `IComponent::getControllerClassId`; answered by a result and a class identifier.
    GetControllerClassId { component: usize },
    /// `IComponent::getBusCount`; answered by a count.
    GetBusCount { component: usize, media: i32, direction: i32 },
    /// `IComponent::getBusInfo`; answered by a result and a count of channels.
    GetBusInfo { component: usize, media: i32, direction: i32, index: i32 },
    /// `IComponent::activateBus`.
    ActivateBus { component: usize, media: i32, direction: i32, index: i32, state: u8 },
    /// `IComponent::setActive`; answered by a result.
    SetActive { component: usize, state: u8 },
    /// `IComponent::getState`; answered by a result and data.
    GetComponentState { component: usize },
    /// `IComponent::setState`, which takes data; answered by a result.
    SetComponentState { component: usize },
    /// `IAudioProcessor::setBusArrangements`; answered by a result.
    SetBusArrangements {
        processor: usize,
        inputs: u64,
        num_inputs: i32,
        outputs: u64,
        num_outputs: i32,
    },
    /// `IAudioProcessor::canProcessSampleSize`; answered by a result.
    CanProcessSampleSize { processor: usize, size: i32 },
    /// `IAudioProcessor::setupProcessing`; answered by a result.
    SetupProcessing { processor: usize, setup: ProcessSetup },
    /// `IAudioProcessor::setProcessing`; answered by a result.
    SetProcessing { processor: usize, state: u8 },
    /// `IAudioProcessor::process`.
    Process { processor: usize, data: usize },
    /// `IAudioProcessor::getLatencySamples`; answered by a number of samples.
    GetLatencySamples { processor: usize },
    /// `IEditController::setComponentState`, which takes data; answered by a result.
    SyncComponentState { controller: usize },
    /// `IEditController::getState`; answered by a result and data.
    GetControllerState { controller: usize },
    /// `IEditController::setState`, which takes data; answered by a result.
    SetControllerState { controller: usize },
    /// `IEditController::setComponentHandler`; answered by a result.
    SetComponentHandler { controller: usize, handler: usize },
    /// `IEditController::createView`; answered by an object.
    CreateView { controller: usize, name: [u8; 7] },
    /// `IConnectionPoint::connect`; answered by a result.
    Connect { point: usize, other: usize },
    /// `IConnectionPoint::disconnect`.
    Disconnect { point: usize, other: usize },
    /// Makes a host context; answered by an object.
    NewHostContext,
    /// Frees a host context.
    DestroyHostContext { context: usize },
    /// Makes a component handler; answered by an object.
    NewComponentHandler,
    /// Frees a component handler.
    DestroyComponentHandler { handler: usize },
}

/// The answer to a call. A call fills what it is answered by; the rest means nothing.
#[derive(Debug, PartialEq, Eq)]
pub struct Answer {
    /// The result code.
    pub result: i32,
    /// The object that was handed out.
    pub object: usize,
    /// The class identifier that was handed out.
    pub class_id: [u8; 16],
    /// The number of buses or channels.
    pub count: i32,
    /// The bytes that were written to a stream.
    pub data: Vec<u8>,
}

impl Answer {
    /// The call succeeded and handed out an object.
    pub open spec fn gives_object(self) -> bool {
        self.result == K_RESULT_OK && self.object != 0
    }

    /// Whether the call succeeded and handed out an object.
    pub fn has_object(&self) -> (b: bool)
        ensures
            b == self.gives_object(),
    {
        self.result == K_RESULT_OK && self.object != 0
    }

    /// An answer that says no more than a result code.
    pub fn of_result(result: i32) -> (a: Answer)
        ensures
            a.result == result,
            a.object == 0,
            a.count == 0,
            a.data@.len() == 0,
            a.class_id@ == Seq::new(16, |i: int| 0u8),
    {
        let a = Answer { result, object: 0, class_id: [0; 16], count: 0, data: Vec::new() };
        assert(a.class_id@ =~= Seq::new(16, |i: int| 0u8));
        a
    }
}

/// One where the condition holds.
pub open spec fn one_if(b: bool) -> int {
    if b {
        1
    } else {
        0
    }
}

/// By how much an answered call changes the number of references that the host holds to the
/// object at an address.
pub open spec fn references_gained(call: Call, answer: Answer, object: usize) -> int {
    match call {
        Call::CreateInstance { .. } => one_if(answer.gives_object() && answer.object == object),
        Call::QueryInterface { .. } => one_if(answer.gives_object() && answer.object == object),
        Call::AddRef { object: o } => one_if(o == object),
        Call::Release { object: o } => -one_if(o == object),
        Call::CreateView { .. } => one_if(answer.object != 0 && answer.object == object),
        _ => 0,
    }
}

/// By how much an answered call changes the number of the host's own objects at an address: it
/// makes one, or frees one.
pub open spec fn host_objects_gained(call: Call, answer: Answer, object: usize) -> int {
    match call {
        Call::NewHostContext => one_if(answer.object == object),
        Call::NewComponentHandler => one_if(answer.object == object),
        Call::DestroyHostContext { context } => -one_if(context == object),
        Call::DestroyComponentHandler { handler } => -one_if(handler == object),
        _ => 0,
    }
}

/// A call has handed out an object where it succeeded and the object is there. Making, asking and
/// keeping an object takes one reference to it, giving it back returns one, and no call changes
/// the references to any other object.
pub proof fn lemma_references_gained(call: Call, answer: Answer, object: usize)
    requires
        object != 0,
    ensures
        answer.gives_object() <==> answer.result == 0 && answer.object != 0,
        call is CreateInstance || call is QueryInterface ==> references_gained(call, answer, object)
            == (if answer.result == 0 && answer.object == object {
            1int
        } else {
            0
        }),
        call matches Call::CreateView { .. } ==> references_gained(call, answer, object) == (
        if answer.object == object {
            1int
        } else {
            0
        }),
        references_gained(Call::AddRef { object }, answer, object) == 1,
        references_gained(Call::Release { object }, answer, object) == -1,
        forall|other: usize| #![auto]
            other != object ==> references_gained(Call::AddRef { object: other }, answer, object)
                == 0 && references_gained(Call::Release { object: other }, answer, object) == 0,
        host_objects_gained(Call::NewHostContext, answer, object) == (if answer.object == object {
            1int
        } else {
            0
        }),
        host_objects_gained(Call::NewComponentHandler, answer, object) == (if answer.object
            == object {
            1int
        } else {
            0
        }),
        host_objects_gained(Call::DestroyHostContext { context: object }, answer, object) == -1,
        host_objects_gained(Call::DestroyComponentHandler { handler: object }, answer, object)
            == -1,
{
}

} // verus!
