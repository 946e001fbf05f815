//! The end of a plugin instance.
//!
//! A plugin can crash while it is taken down. From then on it is not called any more, and the
//! objects that it may still refer to are left alone.

use vstd::prelude::*;

use crate::calls;
use crate::calls::{Answer, Call};
use crate::connection::Disconnecting;
use crate::controller;
use crate::controller::ControllerLookup;
use crate::creation;
use crate::creation::Creation;
use crate::editor;
use crate::instance::{Step, Vst3Instance};
use crate::sandbox::SandboxResult;

verus! {

/// What the end of instances has left behind for those who come after.
#[derive(Clone, Copy, Debug, PartialEq, Eq, Structural)]
pub struct CrashFlags {
    /// The last instance crashed, so its library must stay loaded.
    pub last_drop_crashed: bool,
    /// An instance crashed, so its plugin must not be loaded again.
    pub deactivation_crashed: bool,
    /// The heap was found corrupted after a crash.
    pub deactivation_heap_corrupted: bool,
}

impl CrashFlags {
    /// Nothing has happened.
    pub fn new() -> (flags: CrashFlags)
        ensures
            flags == (CrashFlags {
                last_drop_crashed: false,
                deactivation_crashed: false,
                deactivation_heap_corrupted: false,
            }),
    {
        CrashFlags {
            last_drop_crashed: false,
            deactivation_crashed: false,
            deactivation_heap_corrupted: false,
        }
    }

    /// The flags after a crash.
    pub open spec fn after_crash(self) -> CrashFlags {
        CrashFlags { last_drop_crashed: true, deactivation_crashed: true, ..self }
    }

    /// The flags after the heap was looked at.
    pub open spec fn after_heap_check(self, sound: bool) -> CrashFlags {
        if sound {
            self
        } else {
            CrashFlags { deactivation_heap_corrupted: true, ..self }
        }
    }

    /// Records a crash.
    pub fn record_crash(&mut self)
        ensures
            *final(self) == old(self).after_crash(),
    {
        self.last_drop_crashed = true;
        self.deactivation_crashed = true;
    }

    /// Records what a look at the heap after a crash has shown.
    pub fn record_heap_check(&mut self, sound: bool)
        ensures
            *final(self) == old(self).after_heap_check(sound),
    {
        if !sound {
            self.deactivation_heap_corrupted = true;
        }
    }

    /// Tells whether the last instance crashed, and forgets it.
    pub fn take_last_drop_crashed(&mut self) -> (crashed: bool)
        ensures
            crashed == old(self).last_drop_crashed,
            *final(self) == (CrashFlags { last_drop_crashed: false, ..*old(self) }),
    {
        let crashed = self.last_drop_crashed;
        self.last_drop_crashed = false;
        crashed
    }
}

/// A step in giving up the objects of a plugin.
#[derive(Clone, Copy, Debug, PartialEq, Eq, Structural)]
pub enum Phase {
    /// Taking the component handler away from the controller.
    ClearHandler,
    /// Taking component and controller apart.
    Disconnect,
    /// Terminating the controller.
    TerminateController,
    /// Giving the controller back.
    ReleaseController,
    /// Terminating the component.
    TerminateComponent,
    /// Giving the audio processor back.
    ReleaseProcessor,
    /// Giving the component back.
    ReleaseComponent,
    /// Giving the factory back.
    ReleaseFactory,
}

/// What has to be done next, under crash protection.
#[derive(Clone, Copy, Debug, PartialEq, Eq)]
pub enum TeardownAction {
    /// Make a call.
    Call(Call),
    /// Have a whole conversation, all under one protection.
    Disconnect(Disconnecting),
    /// Look whether the heap is sound.
    CheckHeap,
    /// Nothing.
    Ended,
}

/// What has come of it.
#[derive(Clone, Copy, Debug, PartialEq, Eq, Structural)]
pub enum TeardownEvent {
    /// The call returned.
    Returned,
    /// The call crashed or panicked.
    Crashed,
    /// The heap is sound.
    HeapSound,
    /// The heap is corrupted.
    HeapCorrupted,
}

/// Where a teardown stands.
#[derive(Clone, Copy, Debug, PartialEq, Eq, Structural)]
pub enum TeardownStage {
    /// Stopping and deactivating the plugin.
    Shutdown,
    /// Giving its objects up, at this position in the list of phases.
    Cleanup { position: usize },
    /// Looking at the heap after a crash.
    CheckHeap,
    /// Freeing the host's own objects, at this position in the list of them.
    Free { position: usize },
    /// Nothing is left to do.
    Ended,
}

/// The list with one phase, or without any.
pub open spec fn phase_if(b: bool, phase: Phase) -> Seq<Phase> {
    if b {
        seq![phase]
    } else {
        Seq::empty()
    }
}

/// The list with one call, or without any.
pub open spec fn call_if(b: bool, call: Call) -> Seq<Call> {
    if b {
        seq![call]
    } else {
        Seq::empty()
    }
}

impl Vst3Instance {
    /// The phases in which the objects of the plugin are given up: the handler goes first, then
    /// the controller, then the component and its processor, and the factory at last.
    pub open spec fn cleanup_phases(self) -> Seq<Phase> {
        let controller = self.cached_controller != 0;
        phase_if(controller && self.component_handler != 0, Phase::ClearHandler) + phase_if(
            controller && self.owns_separate_controller,
            Phase::Disconnect,
        ) + phase_if(controller && self.owns_separate_controller, Phase::TerminateController)
            + phase_if(controller, Phase::ReleaseController) + seq![
            Phase::TerminateComponent,
            Phase::ReleaseProcessor,
            Phase::ReleaseComponent,
        ] + phase_if(self.factory_vtbl != 0, Phase::ReleaseFactory)
    }

    /// What a phase consists of.
    pub open spec fn phase_action(self, phase: Phase) -> TeardownAction {
        match phase {
            Phase::ClearHandler => TeardownAction::Call(
                Call::SetComponentHandler { controller: self.cached_controller, handler: 0 },
            ),
            Phase::Disconnect => TeardownAction::Disconnect(
                Disconnecting::QueryComponent {
                    component: self.component,
                    controller: self.cached_controller,
                },
            ),
            Phase::TerminateController => TeardownAction::Call(
                Call::Terminate { object: self.cached_controller },
            ),
            Phase::ReleaseController => TeardownAction::Call(
                Call::Release { object: self.cached_controller },
            ),
            Phase::TerminateComponent => TeardownAction::Call(
                Call::Terminate { object: self.component },
            ),
            Phase::ReleaseProcessor => TeardownAction::Call(
                Call::Release { object: self.processor },
            ),
            Phase::ReleaseComponent => TeardownAction::Call(
                Call::Release { object: self.component },
            ),
            Phase::ReleaseFactory => TeardownAction::Call(Call::Release { object: self.factory }),
        }
    }

    /// The calls that free the host's own objects.
    pub open spec fn host_frees(self) -> Seq<Call> {
        call_if(
            self.controller_host_context != 0,
            Call::DestroyHostContext { context: self.controller_host_context },
        ) + seq![Call::DestroyHostContext { context: self.host_context }] + call_if(
            self.component_handler != 0,
            Call::DestroyComponentHandler { handler: self.component_handler },
        )
    }

    fn cleanup_list(&self) -> (phases: Vec<Phase>)
        ensures
            phases@ == self.cleanup_phases(),
    {
        let mut phases: Vec<Phase> = Vec::new();
        if self.cached_controller != 0 {
            if self.component_handler != 0 {
                phases.push(Phase::ClearHandler);
            }
            if self.owns_separate_controller {
                phases.push(Phase::Disconnect);
                phases.push(Phase::TerminateController);
            }
            phases.push(Phase::ReleaseController);
        }
        phases.push(Phase::TerminateComponent);
        phases.push(Phase::ReleaseProcessor);
        phases.push(Phase::ReleaseComponent);
        if self.factory_vtbl != 0 {
            phases.push(Phase::ReleaseFactory);
        }
        assert(phases@ =~= self.cleanup_phases());
        phases
    }

    fn do_phase(&self, phase: Phase) -> (action: TeardownAction)
        ensures
            action == self.phase_action(phase),
    {
        match phase {
            Phase::ClearHandler => TeardownAction::Call(
                Call::SetComponentHandler { controller: self.cached_controller, handler: 0 },
            ),
            Phase::Disconnect => TeardownAction::Disconnect(
                Disconnecting::QueryComponent {
                    component: self.component,
                    controller: self.cached_controller,
                },
            ),
            Phase::TerminateController => TeardownAction::Call(
                Call::Terminate { object: self.cached_controller },
            ),
            Phase::ReleaseController => TeardownAction::Call(
                Call::Release { object: self.cached_controller },
            ),
            Phase::TerminateComponent => TeardownAction::Call(
                Call::Terminate { object: self.component },
            ),
            Phase::ReleaseProcessor => TeardownAction::Call(
                Call::Release { object: self.processor },
            ),
            Phase::ReleaseComponent => TeardownAction::Call(
                Call::Release { object: self.component },
            ),
            Phase::ReleaseFactory => TeardownAction::Call(Call::Release { object: self.factory }),
        }
    }

    fn free_list(&self) -> (frees: Vec<Call>)
        ensures
            frees@ == self.host_frees(),
    {
        let mut frees: Vec<Call> = Vec::new();
        if self.controller_host_context != 0 {
            frees.push(Call::DestroyHostContext { context: self.controller_host_context });
        }
        frees.push(Call::DestroyHostContext { context: self.host_context });
        if self.component_handler != 0 {
            frees.push(Call::DestroyComponentHandler { handler: self.component_handler });
        }
        assert(frees@ =~= self.host_frees());
        frees
    }
}

/// The taking down of an instance.
#[derive(Debug, PartialEq, Eq)]
pub struct Teardown {
    /// The instance.
    pub instance: Vst3Instance,
    /// Where the teardown stands.
    pub stage: TeardownStage,
    /// What is left behind.
    pub flags: CrashFlags,
    /// Whether the plugin has crashed, so that its objects and the host's own objects are left
    /// alone.
    pub leaked: bool,
}

impl Teardown {
    /// The position lies in its list; nothing is called nor freed once the plugin has crashed.
    pub open spec fn wf(self) -> bool {
        &&& self.instance.crashed ==> self.leaked
        &&& match self.stage {
            TeardownStage::Shutdown => !self.leaked && self.instance.shutdown_call() is Some,
            TeardownStage::Cleanup { position } => !self.leaked && position
                < self.instance.cleanup_phases().len() && !self.instance.active
                && !self.instance.processing,
            TeardownStage::CheckHeap => self.leaked,
            TeardownStage::Free { position } => !self.leaked && position
                < self.instance.host_frees().len(),
            TeardownStage::Ended => true,
        }
    }

    /// What has to be done next.
    pub open spec fn action(self) -> TeardownAction {
        match self.stage {
            TeardownStage::Shutdown => TeardownAction::Call(self.instance.shutdown_call()->0),
            TeardownStage::Cleanup { position } => self.instance.phase_action(
                self.instance.cleanup_phases()[position as int],
            ),
            TeardownStage::CheckHeap => TeardownAction::CheckHeap,
            TeardownStage::Free { position } => TeardownAction::Call(
                self.instance.host_frees()[position as int],
            ),
            TeardownStage::Ended => TeardownAction::Ended,
        }
    }

    /// The teardown when the shutdown may go on or may be over: the objects of the plugin are
    /// given up once it is inactive, and it is left alone if it has crashed.
    pub open spec fn shutting_down(instance: Vst3Instance, flags: CrashFlags) -> Teardown {
        if instance.crashed {
            Teardown {
                instance,
                stage: TeardownStage::Ended,
                flags: flags.after_crash(),
                leaked: true,
            }
        } else if instance.shutdown_call() is Some {
            Teardown { instance, stage: TeardownStage::Shutdown, flags, leaked: false }
        } else {
            Teardown {
                instance,
                stage: TeardownStage::Cleanup { position: 0 },
                flags,
                leaked: false,
            }
        }
    }

    /// The event is one that can follow the action that is due.
    pub open spec fn expects(self, event: TeardownEvent) -> bool {
        match self.stage {
            TeardownStage::CheckHeap => event is HeapSound || event is HeapCorrupted,
            TeardownStage::Ended => false,
            _ => event is Returned || event is Crashed,
        }
    }

    /// The teardown after an event.
    pub open spec fn after(self, event: TeardownEvent) -> Teardown {
        match self.stage {
            TeardownStage::Shutdown => Self::shutting_down(
                self.instance.after_shutdown_call(event is Returned),
                self.flags,
            ),
            TeardownStage::Cleanup { position } => if event is Crashed {
                Teardown {
                    stage: TeardownStage::CheckHeap,
                    flags: self.flags.after_crash(),
                    leaked: true,
                    ..self
                }
            } else if position + 1 < self.instance.cleanup_phases().len() {
                Teardown {
                    stage: TeardownStage::Cleanup { position: (position + 1) as usize },
                    ..self
                }
            } else {
                Teardown { stage: TeardownStage::Free { position: 0 }, ..self }
            },
            TeardownStage::CheckHeap => Teardown {
                stage: TeardownStage::Ended,
                flags: self.flags.after_heap_check(event is HeapSound),
                ..self
            },
            TeardownStage::Free { position } => if position + 1
                < self.instance.host_frees().len() {
                Teardown {
                    stage: TeardownStage::Free { position: (position + 1) as usize },
                    ..self
                }
            } else {
                Teardown { stage: TeardownStage::Ended, ..self }
            },
            TeardownStage::Ended => self,
        }
    }

    /// What has to be done next.
    pub fn next_action(&self) -> (action: TeardownAction)
        requires
            self.wf(),
        ensures
            action == self.action(),
    {
        match self.stage {
            TeardownStage::Shutdown => {
                match self.instance.shutdown() {
                    Step::Call(call) => TeardownAction::Call(call),
                    _ => vstd::pervasive::unreached(),
                }
            },
            TeardownStage::Cleanup { position } => {
                let phases: Vec<Phase> = self.instance.cleanup_list();
                self.instance.do_phase(phases[position])
            },
            TeardownStage::CheckHeap => TeardownAction::CheckHeap,
            TeardownStage::Free { position } => {
                let frees: Vec<Call> = self.instance.free_list();
                TeardownAction::Call(frees[position])
            },
            TeardownStage::Ended => TeardownAction::Ended,
        }
    }

    fn settle_shutdown(&mut self)
        requires
            !old(self).leaked,
        ensures
            *final(self) == Self::shutting_down(old(self).instance, old(self).flags),
    {
        if self.instance.crashed {
            self.leaked = true;
            self.flags.record_crash();
            self.stage = TeardownStage::Ended;
        } else {
            match self.instance.shutdown() {
                Step::Call(_) => {
                    self.stage = TeardownStage::Shutdown;
                },
                _ => {
                    self.stage = TeardownStage::Cleanup { position: 0 };
                },
            }
        }
    }

    /// Takes what has come of the last action and tells the next one. After a crash the plugin is
    /// not called any more, and none of the host's own objects is freed.
    pub fn step(&mut self, event: TeardownEvent) -> (action: TeardownAction)
        requires
            old(self).wf(),
            old(self).expects(event),
        ensures
            final(self).wf(),
            *final(self) == old(self).after(event),
            action == final(self).action(),
            event is Crashed && !(old(self).stage is Free) ==> final(self).leaked,
            old(self).leaked ==> final(self).leaked,
            final(self).leaked ==> action is CheckHeap || action is Ended,
    {
        match self.stage {
            TeardownStage::Shutdown => {
                let returned: bool = match event {
                    TeardownEvent::Returned => true,
                    _ => false,
                };
                self.instance.shutdown_reply(returned);
                self.settle_shutdown();
            },
            TeardownStage::Cleanup { position } => {
                match event {
                    TeardownEvent::Crashed => {
                        self.leaked = true;
                        self.flags.record_crash();
                        self.stage = TeardownStage::CheckHeap;
                    },
                    _ => {
                        let phases: Vec<Phase> = self.instance.cleanup_list();
                        if position + 1 < phases.len() {
                            self.stage = TeardownStage::Cleanup { position: position + 1 };
                        } else {
                            self.stage = TeardownStage::Free { position: 0 };
                        }
                    },
                }
            },
            TeardownStage::CheckHeap => {
                let sound: bool = match event {
                    TeardownEvent::HeapSound => true,
                    _ => false,
                };
                self.flags.record_heap_check(sound);
                self.stage = TeardownStage::Ended;
            },
            TeardownStage::Free { position } => {
                let frees: Vec<Call> = self.instance.free_list();
                if position + 1 < frees.len() {
                    self.stage = TeardownStage::Free { position: position + 1 };
                } else {
                    self.stage = TeardownStage::Ended;
                }
            },
            TeardownStage::Ended => {},
        }
        self.next_action()
    }
}

impl Vst3Instance {
    /// Begins to take the instance down. The flags are those that earlier instances have left
    /// behind.
    pub fn teardown(self, flags: CrashFlags) -> (teardown: Teardown)
        ensures
            teardown == Teardown::shutting_down(self, flags),
            teardown.wf(),
    {
        let mut teardown = Teardown {
            instance: self,
            stage: TeardownStage::Shutdown,
            flags,
            leaked: false,
        };
        teardown.settle_shutdown();
        teardown
    }
}

impl Teardown {
    /// Every event can follow the action that is due when it comes.
    pub open spec fn accepts(self, events: Seq<TeardownEvent>) -> bool
        decreases events.len(),
    {
        events.len() == 0 || (self.expects(events[0]) && self.after(events[0]).accepts(
            events.skip(1),
        ))
    }

    /// The teardown after some events.
    pub open spec fn run(self, events: Seq<TeardownEvent>) -> Teardown
        decreases events.len(),
    {
        if events.len() == 0 {
            self
        } else {
            self.after(events[0]).run(events.skip(1))
        }
    }

    /// The actions of which the events have come.
    pub open spec fn trace(self, events: Seq<TeardownEvent>) -> Seq<TeardownAction>
        decreases events.len(),
    {
        if events.len() == 0 {
            Seq::empty()
        } else {
            seq![self.action()] + self.after(events[0]).trace(events.skip(1))
        }
    }
}

/// The number of references to an object that a sequence of actions gives back.
pub open spec fn releases(actions: Seq<TeardownAction>, object: usize) -> int
    decreases actions.len(),
{
    if actions.len() == 0 {
        0
    } else {
        calls::one_if(actions[0] == TeardownAction::Call(Call::Release { object })) + releases(
            actions.skip(1),
            object,
        )
    }
}

/// The number of the host's own objects at an address that a sequence of actions frees.
pub open spec fn frees(actions: Seq<TeardownAction>, object: usize) -> int
    decreases actions.len(),
{
    if actions.len() == 0 {
        0
    } else {
        calls::one_if(
            actions[0] == TeardownAction::Call(Call::DestroyHostContext { context: object })
                || actions[0] == TeardownAction::Call(
                Call::DestroyComponentHandler { handler: object },
            ),
        ) + frees(actions.skip(1), object)
    }
}

/// The actions that stop and deactivate a plugin that does not crash.
pub open spec fn shutdown_actions(instance: Vst3Instance) -> Seq<TeardownAction> {
    let stop = TeardownAction::Call(
        Call::SetProcessing { processor: instance.processor, state: 0 },
    );
    let deactivate = TeardownAction::Call(
        Call::SetActive { component: instance.component, state: 0 },
    );
    (if instance.processing {
        seq![stop]
    } else {
        Seq::empty()
    }) + (if instance.active {
        seq![deactivate]
    } else {
        Seq::empty()
    })
}

/// All actions that take an instance down if nothing crashes.
pub open spec fn clean_actions(instance: Vst3Instance) -> Seq<TeardownAction> {
    shutdown_actions(instance) + instance.cleanup_phases().map_values(
        |phase: Phase| instance.phase_action(phase),
    ) + instance.host_frees().map_values(|call: Call| TeardownAction::Call(call))
}

/// Every event is the return of a call.
pub open spec fn all_returned(events: Seq<TeardownEvent>) -> bool {
    forall|i: int| 0 <= i < events.len() ==> events[i] == TeardownEvent::Returned
}

/// Once the plugin has crashed, it is not called any more and none of the host's own objects is
/// freed: all that can still happen is a look at the heap.
pub proof fn lemma_left_alone_after_crash(teardown: Teardown, events: Seq<TeardownEvent>)
    requires
        teardown.wf(),
        teardown.leaked,
        teardown.accepts(events),
    ensures
        forall|i: int|
            0 <= i < teardown.trace(events).len() ==> teardown.trace(events)[i]
                == TeardownAction::CheckHeap,
        teardown.run(events).leaked,
    decreases events.len(),
{
    if events.len() > 0 {
        let next = teardown.after(events[0]);
        lemma_left_alone_after_crash(next, events.skip(1));
        assert forall|i: int| 0 <= i < teardown.trace(events).len() implies teardown.trace(
            events,
        )[i] == TeardownAction::CheckHeap by {
            if i > 0 {
                assert(teardown.trace(events)[i] == next.trace(events.skip(1))[i - 1]);
            }
        }
    }
}

/// What the end of an instance leaves behind: the two crash flags are raised exactly if the plugin
/// crashed, the heap flag exactly if the heap was found corrupted after a crash, and no flag is
/// ever lowered.
pub proof fn lemma_flags_left_behind(
    instance: Vst3Instance,
    flags: CrashFlags,
    events: Seq<TeardownEvent>,
)
    requires
        Teardown::shutting_down(instance, flags).accepts(events),
    ensures
        ({
            let end = Teardown::shutting_down(instance, flags).run(events);
            &&& end.flags.last_drop_crashed == (flags.last_drop_crashed || end.leaked)
            &&& end.flags.deactivation_crashed == (flags.deactivation_crashed || end.leaked)
            &&& end.flags.deactivation_heap_corrupted == (flags.deactivation_heap_corrupted
                || events.contains(TeardownEvent::HeapCorrupted))
            &&& events.contains(TeardownEvent::HeapCorrupted) ==> end.leaked
        }),
{
    lemma_flags_of_run(Teardown::shutting_down(instance, flags), events);
}

proof fn lemma_flags_of_run(teardown: Teardown, events: Seq<TeardownEvent>)
    requires
        teardown.wf(),
        teardown.accepts(events),
        teardown.leaked ==> teardown.flags == teardown.flags.after_crash(),
    ensures
        ({
            let end = teardown.run(events);
            &&& end.flags.last_drop_crashed == (teardown.flags.last_drop_crashed || end.leaked)
            &&& end.flags.deactivation_crashed == (teardown.flags.deactivation_crashed
                || end.leaked)
            &&& end.flags.deactivation_heap_corrupted == (
            teardown.flags.deactivation_heap_corrupted || events.contains(
                TeardownEvent::HeapCorrupted,
            ))
            &&& teardown.leaked ==> end.leaked
            &&& events.contains(TeardownEvent::HeapCorrupted) ==> end.leaked
        }),
    decreases events.len(),
{
    if events.len() > 0 {
        let next = teardown.after(events[0]);
        lemma_flags_of_run(next, events.skip(1));
        let corrupted = TeardownEvent::HeapCorrupted;
        if events.contains(corrupted) && events[0] != corrupted {
            let i = choose|i: int| 0 <= i < events.len() && events[i] == corrupted;
            assert(events.skip(1)[i - 1] == corrupted);
        }
        if events.skip(1).contains(corrupted) {
            let i = choose|i: int| 0 <= i < events.skip(1).len() && events.skip(1)[i] == corrupted;
            assert(events[i + 1] == corrupted);
        }
        if events[0] == corrupted {
            assert(events.contains(corrupted));
        }
    }
}

/// A teardown in which nothing crashes takes exactly the clean actions, in their order: it stops
/// the plugin, gives its objects up and frees the host's own objects.
pub proof fn lemma_clean_teardown(
    instance: Vst3Instance,
    flags: CrashFlags,
    events: Seq<TeardownEvent>,
)
    requires
        !instance.crashed,
        all_returned(events),
        events.len() == clean_actions(instance).len(),
    ensures
        ({
            let start = Teardown::shutting_down(instance, flags);
            &&& start.accepts(events)
            &&& start.trace(events) == clean_actions(instance)
            &&& start.run(events).stage is Ended
            &&& !start.run(events).leaked
            &&& start.run(events).flags == flags
        }),
{
    let start = Teardown::shutting_down(instance, flags);
    lemma_remaining(start, events);
    assert(start.remaining() =~= clean_actions(instance)) by {
        assert(instance.cleanup_phases().skip(0) =~= instance.cleanup_phases());
        if instance.processing || instance.active {
            let inactive = Vst3Instance { processing: false, active: false, ..instance };
            assert(inactive.cleanup_phases() =~= instance.cleanup_phases());
        }
    }
}

impl Teardown {
    /// The actions that are still to come if nothing crashes.
    spec fn remaining(self) -> Seq<TeardownAction> {
        let phases = self.instance.cleanup_phases();
        let host = self.instance.host_frees().map_values(
            |call: Call| TeardownAction::Call(call),
        );
        match self.stage {
            TeardownStage::Shutdown => clean_actions(self.instance),
            TeardownStage::Cleanup { position } => phases.skip(position as int).map_values(
                |phase: Phase| self.instance.phase_action(phase),
            ) + host,
            TeardownStage::Free { position } => host.skip(position as int),
            _ => Seq::empty(),
        }
    }
}

proof fn lemma_remaining(teardown: Teardown, events: Seq<TeardownEvent>)
    requires
        teardown.wf(),
        !teardown.leaked,
        all_returned(events),
        events.len() == teardown.remaining().len(),
    ensures
        teardown.accepts(events),
        teardown.trace(events) == teardown.remaining(),
        teardown.run(events).stage is Ended,
        !teardown.run(events).leaked,
        teardown.run(events).flags == teardown.flags,
    decreases events.len(),
{
    if events.len() > 0 {
        let next = teardown.after(TeardownEvent::Returned);
        lemma_step_remaining(teardown);
        assert(all_returned(events.skip(1)));
        lemma_remaining(next, events.skip(1));
        assert(teardown.trace(events) =~= teardown.remaining());
    } else {
        lemma_nothing_remains(teardown);
        assert(teardown.trace(events) =~= teardown.remaining());
    }
}

proof fn lemma_nothing_remains(teardown: Teardown)
    requires
        teardown.wf(),
        !teardown.leaked,
        teardown.remaining().len() == 0,
    ensures
        teardown.stage is Ended,
{
}

proof fn lemma_step_remaining(teardown: Teardown)
    requires
        teardown.wf(),
        !teardown.leaked,
        teardown.remaining().len() > 0,
    ensures
        teardown.remaining() == seq![teardown.action()] + teardown.after(
            TeardownEvent::Returned,
        ).remaining(),
        teardown.after(TeardownEvent::Returned).wf(),
        !teardown.after(TeardownEvent::Returned).leaked,
        teardown.after(TeardownEvent::Returned).flags == teardown.flags,
        teardown.expects(TeardownEvent::Returned),
{
    let next = teardown.after(TeardownEvent::Returned);
    match teardown.stage {
        TeardownStage::Shutdown => {
            lemma_step_shutdown(teardown);
        },
        TeardownStage::Cleanup { position } => {
            let phases = teardown.instance.cleanup_phases();
            let f = |phase: Phase| teardown.instance.phase_action(phase);
            lemma_skip_map(phases, position as int, f);
            if position + 1 == phases.len() {
                let host = teardown.instance.host_frees().map_values(
                    |call: Call| TeardownAction::Call(call),
                );
                assert(phases.skip(position + 1).map_values(f) =~= Seq::empty());
                assert(host.skip(0) =~= host);
                assert(teardown.instance.host_frees().len() > 0);
            }
            assert(teardown.remaining() =~= seq![teardown.action()] + next.remaining());
        },
        TeardownStage::Free { position } => {
            let host = teardown.instance.host_frees().map_values(
                |call: Call| TeardownAction::Call(call),
            );
            assert(host.skip(position as int) =~= seq![host[position as int]] + host.skip(
                position + 1,
            ));
            if position + 1 == host.len() {
                assert(host.skip(position + 1) =~= Seq::empty());
            }
        },
        _ => {},
    }
}

proof fn lemma_skip_map<A, B>(s: Seq<A>, position: int, f: spec_fn(A) -> B)
    requires
        0 <= position < s.len(),
    ensures
        s.skip(position).map_values(f) == seq![f(s[position])] + s.skip(position + 1).map_values(
            f,
        ),
{
    assert(s.skip(position).map_values(f) =~= seq![f(s[position])] + s.skip(
        position + 1,
    ).map_values(f));
}

proof fn lemma_step_shutdown(teardown: Teardown)
    requires
        teardown.wf(),
        !teardown.leaked,
        teardown.stage is Shutdown,
    ensures
        teardown.remaining() == seq![teardown.action()] + teardown.after(
            TeardownEvent::Returned,
        ).remaining(),
        teardown.after(TeardownEvent::Returned).wf(),
        !teardown.after(TeardownEvent::Returned).leaked,
{
    let next = teardown.after(TeardownEvent::Returned);
    let before = teardown.instance;
    let after = next.instance;
    let phases = before.cleanup_phases();
    assert(after.cleanup_phases() == phases);
    assert(after.host_frees() == before.host_frees());
    let f = |phase: Phase| before.phase_action(phase);
    let g = |phase: Phase| after.phase_action(phase);
    assert(phases.map_values(f) =~= phases.map_values(g));
    assert(phases.skip(0) =~= phases);
    assert(phases.len() > 0);
    let rest = phases.map_values(f) + before.host_frees().map_values(
        |call: Call| TeardownAction::Call(call),
    );
    assert(teardown.remaining() =~= shutdown_actions(before) + rest);
    assert(shutdown_actions(before) =~= seq![teardown.action()] + shutdown_actions(after));
    assert(next.remaining() =~= shutdown_actions(after) + rest);
    assert(teardown.remaining() =~= seq![teardown.action()] + next.remaining());
}

proof fn lemma_counts_of_sum(a: Seq<TeardownAction>, b: Seq<TeardownAction>, object: usize)
    ensures
        releases(a + b, object) == releases(a, object) + releases(b, object),
        frees(a + b, object) == frees(a, object) + frees(b, object),
    decreases a.len(),
{
    if a.len() == 0 {
        assert(a + b =~= b);
    } else {
        assert((a + b).skip(1) =~= a.skip(1) + b);
        lemma_counts_of_sum(a.skip(1), b, object);
    }
}

proof fn lemma_counts_of_phase(instance: Vst3Instance, b: bool, phase: Phase, object: usize)
    ensures
        ({
            let actions = phase_if(b, phase).map_values(|p: Phase| instance.phase_action(p));
            &&& releases(actions, object) == calls::one_if(
                b && instance.phase_action(phase) == TeardownAction::Call(
                    Call::Release { object },
                ),
            )
            &&& frees(actions, object) == 0
        }),
{
    let actions = phase_if(b, phase).map_values(|p: Phase| instance.phase_action(p));
    reveal_with_fuel(releases, 2);
    reveal_with_fuel(frees, 2);
    if b {
        assert(actions =~= seq![instance.phase_action(phase)]);
    } else {
        assert(actions =~= Seq::empty());
    }
}

proof fn lemma_counts_of_free(b: bool, call: Call, object: usize)
    ensures
        ({
            let actions = call_if(b, call).map_values(|c: Call| TeardownAction::Call(c));
            &&& releases(actions, object) == calls::one_if(b && call == Call::Release { object })
            &&& frees(actions, object) == calls::one_if(
                b && (call == Call::DestroyHostContext { context: object } || call
                    == Call::DestroyComponentHandler { handler: object }),
            )
        }),
{
    let actions = call_if(b, call).map_values(|c: Call| TeardownAction::Call(c));
    reveal_with_fuel(releases, 2);
    reveal_with_fuel(frees, 2);
    if b {
        assert(actions =~= seq![TeardownAction::Call(call)]);
    } else {
        assert(actions =~= Seq::empty());
    }
}

/// A teardown in which nothing crashes gives every reference of the instance back exactly once,
/// and frees every host object of the instance exactly once.
pub proof fn lemma_clean_teardown_gives_back(instance: Vst3Instance, object: usize)
    requires
        instance.wf(),
        object != 0,
    ensures
        releases(clean_actions(instance), object) == instance.references(object),
        frees(clean_actions(instance), object) == instance.host_objects(object),
{
    let f = |p: Phase| instance.phase_action(p);
    let controller = instance.cached_controller != 0;
    let separate = controller && instance.owns_separate_controller;
    let handler = controller && instance.component_handler != 0;
    let p1 = phase_if(handler, Phase::ClearHandler).map_values(f);
    let p2 = phase_if(separate, Phase::Disconnect).map_values(f);
    let p3 = phase_if(separate, Phase::TerminateController).map_values(f);
    let p4 = phase_if(controller, Phase::ReleaseController).map_values(f);
    let p5 = phase_if(true, Phase::TerminateComponent).map_values(f);
    let p6 = phase_if(true, Phase::ReleaseProcessor).map_values(f);
    let p7 = phase_if(true, Phase::ReleaseComponent).map_values(f);
    let p8 = phase_if(instance.factory_vtbl != 0, Phase::ReleaseFactory).map_values(f);
    let cleanup = instance.cleanup_phases().map_values(f);
    assert(cleanup =~= p1 + p2 + p3 + p4 + p5 + p6 + p7 + p8);
    lemma_counts_of_phase(instance, handler, Phase::ClearHandler, object);
    lemma_counts_of_phase(instance, separate, Phase::Disconnect, object);
    lemma_counts_of_phase(instance, separate, Phase::TerminateController, object);
    lemma_counts_of_phase(instance, controller, Phase::ReleaseController, object);
    lemma_counts_of_phase(instance, true, Phase::TerminateComponent, object);
    lemma_counts_of_phase(instance, true, Phase::ReleaseProcessor, object);
    lemma_counts_of_phase(instance, true, Phase::ReleaseComponent, object);
    lemma_counts_of_phase(instance, instance.factory_vtbl != 0, Phase::ReleaseFactory, object);
    lemma_counts_of_sum(p1, p2, object);
    lemma_counts_of_sum(p1 + p2, p3, object);
    lemma_counts_of_sum(p1 + p2 + p3, p4, object);
    lemma_counts_of_sum(p1 + p2 + p3 + p4, p5, object);
    lemma_counts_of_sum(p1 + p2 + p3 + p4 + p5, p6, object);
    lemma_counts_of_sum(p1 + p2 + p3 + p4 + p5 + p6, p7, object);
    lemma_counts_of_sum(p1 + p2 + p3 + p4 + p5 + p6 + p7, p8, object);

    let g = |c: Call| TeardownAction::Call(c);
    let c1 = Call::DestroyHostContext { context: instance.controller_host_context };
    let c2 = Call::DestroyHostContext { context: instance.host_context };
    let c3 = Call::DestroyComponentHandler { handler: instance.component_handler };
    let f1 = call_if(instance.controller_host_context != 0, c1).map_values(g);
    let f2 = call_if(true, c2).map_values(g);
    let f3 = call_if(instance.component_handler != 0, c3).map_values(g);
    let host = instance.host_frees().map_values(g);
    assert(host =~= f1 + f2 + f3);
    lemma_counts_of_free(instance.controller_host_context != 0, c1, object);
    lemma_counts_of_free(true, c2, object);
    lemma_counts_of_free(instance.component_handler != 0, c3, object);
    lemma_counts_of_sum(f1, f2, object);
    lemma_counts_of_sum(f1 + f2, f3, object);

    let start = shutdown_actions(instance);
    assert(releases(start, object) == 0 && frees(start, object) == 0) by {
        reveal_with_fuel(releases, 3);
        reveal_with_fuel(frees, 3);
    }
    lemma_counts_of_sum(start, cleanup, object);
    lemma_counts_of_sum(start + cleanup, host, object);
    assert(clean_actions(instance) =~= start + cleanup + host);
}

/// The installation of a component handler: the answer to the call that made the handler, the
/// result code of the controller, and the answer to the call that freed a handler that was refused.
#[derive(Debug, PartialEq, Eq)]
pub struct Installation {
    pub made: Answer,
    pub code: i32,
    pub freed: Answer,
}

impl Installation {
    /// The instance, and the call to make, after the installation.
    pub open spec fn on(self, instance: Vst3Instance) -> (Vst3Instance, Option<Call>) {
        instance.with_handler(self.made.object, SandboxResult::Returned(self.code))
    }

    /// By how much the installation changes the number of the host's own objects at an address.
    pub open spec fn host_objects_gained(self, instance: Vst3Instance, object: usize) -> int {
        calls::host_objects_gained(Call::NewComponentHandler, self.made, object) + (
        match self.on(instance).1 {
            Some(call) => calls::host_objects_gained(call, self.freed, object),
            None => 0,
        })
    }
}

/// Over the whole life of an instance that does not crash, everything that the host obtains is
/// given back: the references and the host's own objects that creation, the search for the
/// controller and the installation of a component handler have obtained are those that a clean
/// teardown gives back and frees, whatever has become of the rest of the instance in between. One
/// handler at most is installed over that life.
pub proof fn lemma_balanced_life(
    creation: Creation,
    creation_answers: Seq<Answer>,
    created: Vst3Instance,
    lookup_answers: Seq<Answer>,
    installation: Option<Installation>,
    ended: Vst3Instance,
    object: usize,
)
    requires
        object != 0,
        creation.stage is Context,
        creation.factory_vtbl != 0,
        creation.run(creation_answers).makes(created),
        created.wf(),
        ControllerLookup::Query.run(created, lookup_answers).ended(),
        installation matches Some(i) ==> i.made.object != 0,
        ended.wf(),
        ({
            let found = ControllerLookup::Query.run(created, lookup_answers).adopted_by(created);
            let last = match installation {
                Some(i) => i.on(found).0,
                None => found,
            };
            &&& ended.component == last.component
            &&& ended.processor == last.processor
            &&& ended.factory == last.factory
            &&& ended.cached_controller == last.cached_controller
            &&& ended.host_context == last.host_context
            &&& ended.controller_host_context == last.controller_host_context
            &&& ended.component_handler == last.component_handler
        }),
    ensures
        releases(clean_actions(ended), object) == creation.references_gained(
            creation_answers,
            object,
        ) + ControllerLookup::Query.references_gained(created, lookup_answers, object),
        frees(clean_actions(ended), object) == creation.host_objects_gained(
            creation_answers,
            object,
        ) + ControllerLookup::Query.host_objects_gained(created, lookup_answers, object) + (
        match installation {
            Some(i) => i.host_objects_gained(
                ControllerLookup::Query.run(created, lookup_answers).adopted_by(created),
                object,
            ),
            None => 0,
        }),
{
    creation::lemma_creation_balance(creation, creation_answers, object);
    controller::lemma_lookup_balance(created, lookup_answers, object);
    lemma_clean_teardown_gives_back(ended, object);
    let found = ControllerLookup::Query.run(created, lookup_answers).adopted_by(created);
    if let Some(i) = installation {
        editor::lemma_handler_accounted(
            found,
            i.made,
            SandboxResult::Returned(i.code),
            i.freed,
            object,
        );
    }
}

/// The action of a call, where the condition holds.
pub open spec fn only(b: bool, call: Call) -> Seq<TeardownAction> {
    if b {
        seq![TeardownAction::Call(call)]
    } else {
        Seq::empty()
    }
}

/// The order in which a plugin that does not crash gives up its objects. A controller loses its
/// handler; one that is an object of its own is taken apart from the component and terminated; then
/// it is given back. After that the component is terminated, its processor is given back, then the
/// component itself, and last the factory.
pub proof fn lemma_cleanup_order(instance: Vst3Instance)
    ensures
        ({
            let controller = instance.cached_controller;
            let component = instance.component;
            let separate = controller != 0 && instance.owns_separate_controller;
            instance.cleanup_phases().map_values(|phase: Phase| instance.phase_action(phase))
                == only(
                controller != 0 && instance.component_handler != 0,
                Call::SetComponentHandler { controller, handler: 0 },
            ) + (if separate {
                seq![
                    TeardownAction::Disconnect(
                        Disconnecting::QueryComponent { component, controller },
                    ),
                    TeardownAction::Call(Call::Terminate { object: controller }),
                ]
            } else {
                Seq::empty()
            }) + only(controller != 0, Call::Release { object: controller }) + seq![
                TeardownAction::Call(Call::Terminate { object: component }),
                TeardownAction::Call(Call::Release { object: instance.processor }),
                TeardownAction::Call(Call::Release { object: component }),
            ] + only(instance.factory_vtbl != 0, Call::Release { object: instance.factory })
        }),
{
    let f = |phase: Phase| instance.phase_action(phase);
    let controller = instance.cached_controller;
    let component = instance.component;
    let separate = controller != 0 && instance.owns_separate_controller;
    let handler = controller != 0 && instance.component_handler != 0;
    let p1 = phase_if(handler, Phase::ClearHandler);
    let p2 = phase_if(separate, Phase::Disconnect);
    let p3 = phase_if(separate, Phase::TerminateController);
    let p4 = phase_if(controller != 0, Phase::ReleaseController);
    let p5 = seq![Phase::TerminateComponent, Phase::ReleaseProcessor, Phase::ReleaseComponent];
    let p6 = phase_if(instance.factory_vtbl != 0, Phase::ReleaseFactory);
    assert(instance.cleanup_phases() == p1 + p2 + p3 + p4 + p5 + p6);
    lemma_map_sum(p1 + p2 + p3 + p4 + p5, p6, f);
    lemma_map_sum(p1 + p2 + p3 + p4, p5, f);
    lemma_map_sum(p1 + p2 + p3, p4, f);
    lemma_map_sum(p1 + p2, p3, f);
    lemma_map_sum(p1, p2, f);
    let a1 = only(handler, Call::SetComponentHandler { controller, handler: 0 });
    let a2 = if separate {
        seq![
            TeardownAction::Disconnect(Disconnecting::QueryComponent { component, controller }),
            TeardownAction::Call(Call::Terminate { object: controller }),
        ]
    } else {
        Seq::empty()
    };
    assert(p1.map_values(f) =~= a1);
    assert(p2.map_values(f) + p3.map_values(f) =~= a2);
    assert(p1.map_values(f) + p2.map_values(f) + p3.map_values(f) =~= a1 + a2);
    assert(p4.map_values(f) =~= only(controller != 0, Call::Release { object: controller }));
    assert(p5.map_values(f) =~= seq![
        TeardownAction::Call(Call::Terminate { object: component }),
        TeardownAction::Call(Call::Release { object: instance.processor }),
        TeardownAction::Call(Call::Release { object: component }),
    ]);
    assert(p6.map_values(f) =~= only(
        instance.factory_vtbl != 0,
        Call::Release { object: instance.factory },
    ));
}

proof fn lemma_map_sum<A, B>(a: Seq<A>, b: Seq<A>, f: spec_fn(A) -> B)
    ensures
        (a + b).map_values(f) == a.map_values(f) + b.map_values(f),
{
    assert((a + b).map_values(f) =~= a.map_values(f) + b.map_values(f));
}

/// A teardown in which nothing crashes switches processing off where it is on, then the component
/// where it is active, then gives up the objects of the plugin, and frees the host's own objects
/// only when all of that is done: the context of a separate controller, that of the component, and
/// the handler.
pub proof fn lemma_clean_order(instance: Vst3Instance)
    ensures
        clean_actions(instance) == (only(
            instance.processing,
            Call::SetProcessing { processor: instance.processor, state: 0 },
        ) + only(instance.active, Call::SetActive { component: instance.component, state: 0 }))
            + instance.cleanup_phases().map_values(|phase: Phase| instance.phase_action(phase)) + (
        only(
            instance.controller_host_context != 0,
            Call::DestroyHostContext { context: instance.controller_host_context },
        ) + only(true, Call::DestroyHostContext { context: instance.host_context }) + only(
            instance.component_handler != 0,
            Call::DestroyComponentHandler { handler: instance.component_handler },
        )),
{
    assert(shutdown_actions(instance) =~= only(
        instance.processing,
        Call::SetProcessing { processor: instance.processor, state: 0 },
    ) + only(instance.active, Call::SetActive { component: instance.component, state: 0 }));
    assert(instance.host_frees().map_values(|call: Call| TeardownAction::Call(call)) =~= only(
        instance.controller_host_context != 0,
        Call::DestroyHostContext { context: instance.controller_host_context },
    ) + only(true, Call::DestroyHostContext { context: instance.host_context }) + only(
        instance.component_handler != 0,
        Call::DestroyComponentHandler { handler: instance.component_handler },
    ));
}

/// What a teardown begins with, and where a crash takes it. A plugin that has crashed before is
/// left alone from the start. A crash on the way of stopping it ends the teardown; one in giving
/// its objects up leads to a look at the heap and then to the end; in both cases the crash is
/// remembered. The host frees all of its own objects whatever comes of each.
pub proof fn lemma_crash_paths(instance: Vst3Instance, flags: CrashFlags, teardown: Teardown)
    requires
        teardown.wf(),
    ensures
        ({
            let start = Teardown::shutting_down(instance, flags);
            let crashed = teardown.after(TeardownEvent::Crashed);
            &&& start.instance == instance
            &&& instance.crashed ==> start.stage is Ended && start.leaked
            &&& !instance.crashed ==> !start.leaked && start.flags == flags && (start.stage
                is Shutdown <==> instance.processing || instance.active)
            &&& !instance.crashed && !instance.processing && !instance.active ==> start.stage
                == (TeardownStage::Cleanup { position: 0 })
            &&& teardown.stage is Shutdown ==> crashed.stage is Ended && crashed.leaked
                && crashed.instance == (Vst3Instance { crashed: true, ..teardown.instance })
            &&& teardown.stage is Cleanup ==> crashed.stage is CheckHeap && crashed.leaked
                && crashed.instance == teardown.instance
            &&& teardown.stage is Shutdown || teardown.stage is Cleanup
                ==> crashed.flags.last_drop_crashed && crashed.flags.deactivation_crashed
                && crashed.flags.deactivation_heap_corrupted
                == teardown.flags.deactivation_heap_corrupted
            &&& teardown.stage is CheckHeap ==> {
                &&& teardown.after(TeardownEvent::HeapSound) == (Teardown {
                    stage: TeardownStage::Ended,
                    ..teardown
                })
                &&& teardown.after(TeardownEvent::HeapCorrupted).stage is Ended
                &&& teardown.after(TeardownEvent::HeapCorrupted).flags == (CrashFlags {
                    deactivation_heap_corrupted: true,
                    ..teardown.flags
                })
            }
            &&& teardown.stage is Free ==> crashed == teardown.after(TeardownEvent::Returned)
        }),
{
}

/// What is done next in a teardown: after a crash only a look at the heap, and nothing at all when
/// it is over. A call that stops the plugin is the one that its state asks for.
pub proof fn lemma_teardown_action(teardown: Teardown)
    requires
        teardown.wf(),
    ensures
        teardown.stage is CheckHeap <==> teardown.action() is CheckHeap,
        teardown.stage is Ended <==> teardown.action() is Ended,
        teardown.leaked ==> teardown.action() is CheckHeap || teardown.action() is Ended,
        teardown.stage is Shutdown && teardown.instance.processing ==> teardown.action()
            == TeardownAction::Call(
            Call::SetProcessing { processor: teardown.instance.processor, state: 0 },
        ),
        teardown.stage is Shutdown && !teardown.instance.processing ==> teardown.action()
            == TeardownAction::Call(
            Call::SetActive { component: teardown.instance.component, state: 0 },
        ),
        teardown.stage is Free ==> (teardown.action() matches TeardownAction::Call(call) && (call
            is DestroyHostContext || call is DestroyComponentHandler)),
{
}

} // verus!
