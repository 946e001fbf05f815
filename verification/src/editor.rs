//! The editor of a plugin, its parameters, and the handler that hears of changes to them.

use vstd::prelude::*;

use crate::calls;
use crate::calls::{Answer, Call, EDITOR_VIEW};
use crate::com::K_RESULT_OK;
use crate::instance;
use crate::instance::{Step, Vst3Instance};
use crate::sandbox::SandboxResult;

verus! {

impl Vst3Instance {
    /// How an operation on the controller begins: with the call where the controller is known,
    /// with the search for it where it is not, and not at all where it was not found or the plugin
    /// has crashed.
    pub open spec fn begins<R>(self, searched: bool, call: Call, otherwise: R) -> Step<R> {
        if self.crashed {
            Step::Done(otherwise)
        } else if self.cached_controller != 0 {
            Step::Call(call)
        } else if searched {
            Step::Done(otherwise)
        } else {
            Step::FindController
        }
    }

    /// The controller from which the parameters are read, if there is one.
    pub fn query_parameters(&self, searched: bool) -> (step: Step<Option<usize>>)
        ensures
            step == (if self.crashed {
                Step::Done(None)
            } else if self.cached_controller != 0 {
                Step::Done(Some(self.cached_controller))
            } else if searched {
                Step::Done(None)
            } else {
                Step::FindController
            }),
    {
        if self.crashed {
            return Step::Done(None);
        }
        if self.cached_controller != 0 {
            return Step::Done(Some(self.cached_controller));
        }
        if searched {
            Step::Done(None)
        } else {
            Step::FindController
        }
    }

    /// Installs a component handler on the controller. It has to be made first.
    pub fn install_component_handler(&self, searched: bool) -> (step: Step<bool>)
        ensures
            step == self.begins(searched, Call::NewComponentHandler, false),
    {
        if self.crashed {
            return Step::Done(false);
        }
        if self.cached_controller != 0 {
            return Step::Call(Call::NewComponentHandler);
        }
        if searched {
            Step::Done(false)
        } else {
            Step::FindController
        }
    }

    /// The call that hands a new handler to the controller.
    pub fn install_component_handler_call(&self, handler: usize) -> (call: Call)
        ensures
            call == (Call::SetComponentHandler { controller: self.cached_controller, handler }),
    {
        Call::SetComponentHandler { controller: self.cached_controller, handler }
    }

    /// The instance, and the call to make, after a handler was handed to the controller.
    pub open spec fn with_handler(self, handler: usize, outcome: SandboxResult<i32>) -> (
        Vst3Instance,
        Option<Call>,
    ) {
        if instance::succeeded(outcome) {
            (Vst3Instance { component_handler: handler, ..self }, None)
        } else {
            (self.after_call(outcome), Some(Call::DestroyComponentHandler { handler }))
        }
    }

    /// Keeps the handler if the controller took it; otherwise the handler has to be freed, by the
    /// call that is told.
    pub fn install_component_handler_reply(
        &mut self,
        handler: usize,
        outcome: SandboxResult<i32>,
    ) -> (r: (bool, Option<Call>))
        ensures
            r.0 == instance::succeeded(outcome),
            (*final(self), r.1) == old(self).with_handler(handler, outcome),
    {
        match outcome {
            SandboxResult::Returned(code) => {
                if code == K_RESULT_OK {
                    self.component_handler = handler;
                    (true, None)
                } else {
                    (false, Some(Call::DestroyComponentHandler { handler }))
                }
            },
            _ => {
                self.crashed = true;
                (false, Some(Call::DestroyComponentHandler { handler }))
            },
        }
    }

    /// Creates an editor view.
    pub fn create_editor_view(&self, searched: bool) -> (step: Step<Option<usize>>)
        ensures
            step == self.begins(
                searched,
                Call::CreateView { controller: self.cached_controller, name: EDITOR_VIEW },
                None::<usize>,
            ),
    {
        if self.crashed {
            return Step::Done(None);
        }
        if self.cached_controller != 0 {
            return Step::Call(
                Call::CreateView { controller: self.cached_controller, name: EDITOR_VIEW },
            );
        }
        if searched {
            Step::Done(None)
        } else {
            Step::FindController
        }
    }

    /// The view that was created, if the plugin has an editor and did not crash.
    pub open spec fn created_view(outcome: SandboxResult<usize>) -> Option<usize> {
        match outcome {
            SandboxResult::Returned(view) => if view == 0 {
                None
            } else {
                Some(view)
            },
            _ => None,
        }
    }

    /// The view that was created, for the caller to attach and to release.
    pub fn create_editor_view_reply(&mut self, outcome: SandboxResult<usize>) -> (view: Option<
        usize,
    >)
        ensures
            view == Self::created_view(outcome),
            *final(self) == old(self).after_call(outcome),
    {
        match outcome {
            SandboxResult::Returned(view) => {
                if view == 0 {
                    None
                } else {
                    Some(view)
                }
            },
            _ => {
                self.crashed = true;
                None
            },
        }
    }

    /// Asks whether the plugin has an editor, by creating a view.
    pub fn has_editor(&self, searched: bool) -> (step: Step<bool>)
        ensures
            step == self.begins(
                searched,
                Call::CreateView { controller: self.cached_controller, name: EDITOR_VIEW },
                false,
            ),
    {
        match self.create_editor_view(searched) {
            Step::Call(call) => Step::Call(call),
            Step::FindController => Step::FindController,
            _ => Step::Done(false),
        }
    }

    /// Whether the plugin has an editor. The view that was created is released again, by the call
    /// that is told, whose outcome does not matter.
    pub fn has_editor_reply(&mut self, outcome: SandboxResult<usize>) -> (r: (bool, Option<Call>))
        ensures
            r == (match Self::created_view(outcome) {
                Some(view) => (true, Some(Call::Release { object: view })),
                None => (false, None),
            }),
            *final(self) == old(self).after_call(outcome),
    {
        match self.create_editor_view_reply(outcome) {
            Some(view) => (true, Some(Call::Release { object: view })),
            None => (false, None),
        }
    }
}

/// A component handler that was made belongs to the instance afterwards, or it is freed: none is
/// lost, unless the instance had one before.
pub proof fn lemma_handler_accounted(
    instance: Vst3Instance,
    made: Answer,
    outcome: SandboxResult<i32>,
    freed: Answer,
    object: usize,
)
    requires
        object != 0,
        made.object != 0,
        instance.component_handler == 0,
    ensures
        ({
            let (after, call) = instance.with_handler(made.object, outcome);
            after.host_objects(object) == instance.host_objects(object)
                + calls::host_objects_gained(Call::NewComponentHandler, made, object) + (
            match call {
                Some(call) => calls::host_objects_gained(call, freed, object),
                None => 0,
            })
        }),
{
}

/// The look whether a plugin has an editor leaves no view behind: a view that was created is
/// released.
pub proof fn lemma_editor_view_released(
    controller: usize,
    created: Answer,
    released: Answer,
    object: usize,
)
    requires
        object != 0,
    ensures
        ({
            let create = Call::CreateView { controller, name: EDITOR_VIEW };
            calls::references_gained(create, created, object) + (
            match Vst3Instance::created_view(SandboxResult::Returned(created.object)) {
                Some(view) => calls::references_gained(
                    Call::Release { object: view },
                    released,
                    object,
                ),
                None => 0,
            }) == 0
        }),
{
}

/// An operation on the controller never reaches a plugin that has crashed. It makes its call where
/// the controller is known, looks for the controller where it has not been looked for, and gives
/// up where it has.
pub proof fn lemma_begins<R>(instance: Vst3Instance, searched: bool, call: Call, otherwise: R)
    ensures
        ({
            let step = instance.begins(searched, call, otherwise);
            &&& step == Step::<R>::Call(call) <==> !instance.crashed && instance.cached_controller
                != 0
            &&& step == Step::<R>::FindController <==> !instance.crashed
                && instance.cached_controller == 0 && !searched
            &&& step == Step::Done(otherwise) <==> instance.crashed || (instance.cached_controller
                == 0 && searched)
        }),
{
}

/// A handler that the controller takes becomes that of the instance. One that it refuses, or over
/// which it crashes, is freed, and the instance keeps what it had.
pub proof fn lemma_with_handler(
    instance: Vst3Instance,
    handler: usize,
    outcome: SandboxResult<i32>,
)
    ensures
        ({
            let (after, call) = instance.with_handler(handler, outcome);
            match outcome {
                SandboxResult::Returned(code) => if code == 0 {
                    after == (Vst3Instance { component_handler: handler, ..instance })
                        && call is None
                } else {
                    after == instance && call == Some(Call::DestroyComponentHandler { handler })
                },
                _ => after == (Vst3Instance { crashed: true, ..instance }) && call == Some(
                    Call::DestroyComponentHandler { handler },
                ),
            }
        }),
{
}

/// There is an editor where the plugin handed out a view and did not crash, and it is that view.
pub proof fn lemma_created_view(outcome: SandboxResult<usize>)
    ensures
        forall|view: usize|
            #![auto]
            Vst3Instance::created_view(outcome) == Some(view) <==> view != 0 && outcome
                == SandboxResult::Returned(view),
{
}

} // verus!
