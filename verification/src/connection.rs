//! Connecting the component of a plugin with its controller, and taking them apart again.

use vstd::prelude::*;

use crate::calls;
use crate::calls::{Answer, Call};
use crate::com::ICONNECTION_POINT_IID;
use crate::instance::Vst3Instance;

verus! {

/// The query for the connection point of an object.
pub open spec fn point_query(object: usize) -> Call {
    Call::QueryInterface { object, interface: ICONNECTION_POINT_IID }
}

/// The object that a query handed out, zero if it failed.
pub open spec fn handed_out(answer: Answer) -> usize {
    if answer.gives_object() {
        answer.object
    } else {
        0
    }
}

/// The connecting of a component and a controller. Each state waits for the answer to one call.
#[derive(Clone, Copy, Debug, PartialEq, Eq, Structural)]
pub enum Connecting {
    /// Asking the component for its connection point.
    QueryComponent { component: usize, controller: usize },
    /// Asking the controller for its connection point.
    QueryController { controller: usize, ours: usize },
    /// Telling the component about the controller.
    ConnectComponent { ours: usize, theirs: usize },
    /// Telling the controller about the component.
    ConnectController { ours: usize, theirs: usize },
    /// Giving the component's connection point back, with the controller's still held.
    ReleaseBoth { ours: usize, theirs: usize },
    /// Giving the one connection point back that is still held.
    ReleaseLast { point: usize },
    /// Nothing is left to do.
    Ended,
}

impl Connecting {
    /// The call whose answer is awaited.
    pub open spec fn pending(self) -> Option<Call> {
        match self {
            Connecting::QueryComponent { component, .. } => Some(point_query(component)),
            Connecting::QueryController { controller, .. } => Some(point_query(controller)),
            Connecting::ConnectComponent { ours, theirs } => Some(
                Call::Connect { point: ours, other: theirs },
            ),
            Connecting::ConnectController { ours, theirs } => Some(
                Call::Connect { point: theirs, other: ours },
            ),
            Connecting::ReleaseBoth { ours, .. } => Some(Call::Release { object: ours }),
            Connecting::ReleaseLast { point } => Some(Call::Release { object: point }),
            Connecting::Ended => None,
        }
    }

    /// The state after the answer. Both sides are connected where both have a connection point.
    pub open spec fn after(self, answer: Answer) -> Connecting {
        match self {
            Connecting::QueryComponent { controller, .. } => if answer.gives_object() {
                Connecting::QueryController { controller, ours: answer.object }
            } else {
                Connecting::Ended
            },
            Connecting::QueryController { ours, .. } => if answer.gives_object() {
                Connecting::ConnectComponent { ours, theirs: answer.object }
            } else {
                Connecting::ReleaseLast { point: ours }
            },
            Connecting::ConnectComponent { ours, theirs } => Connecting::ConnectController {
                ours,
                theirs,
            },
            Connecting::ConnectController { ours, theirs } => Connecting::ReleaseBoth {
                ours,
                theirs,
            },
            Connecting::ReleaseBoth { theirs, .. } => Connecting::ReleaseLast { point: theirs },
            Connecting::ReleaseLast { .. } => Connecting::Ended,
            Connecting::Ended => Connecting::Ended,
        }
    }

    /// The number of references to an object that are held for the moment.
    pub open spec fn references(self, object: usize) -> int {
        match self {
            Connecting::QueryController { ours, .. } => calls::one_if(ours == object),
            Connecting::ConnectComponent { ours, theirs } => calls::one_if(ours == object)
                + calls::one_if(theirs == object),
            Connecting::ConnectController { ours, theirs } => calls::one_if(ours == object)
                + calls::one_if(theirs == object),
            Connecting::ReleaseBoth { ours, theirs } => calls::one_if(ours == object)
                + calls::one_if(theirs == object),
            Connecting::ReleaseLast { point } => calls::one_if(point == object),
            _ => 0,
        }
    }

    /// The number of calls that can still come.
    pub open spec fn rank(self) -> nat {
        match self {
            Connecting::QueryComponent { .. } => 6,
            Connecting::QueryController { .. } => 5,
            Connecting::ConnectComponent { .. } => 4,
            Connecting::ConnectController { .. } => 3,
            Connecting::ReleaseBoth { .. } => 2,
            Connecting::ReleaseLast { .. } => 1,
            Connecting::Ended => 0,
        }
    }

    /// The calls that are made, given their answers.
    pub open spec fn trace(self, answers: Seq<Answer>) -> Seq<Call>
        decreases answers.len(),
    {
        match self.pending() {
            None => Seq::empty(),
            Some(call) => if answers.len() == 0 {
                seq![call]
            } else {
                seq![call] + self.after(answers[0]).trace(answers.skip(1))
            },
        }
    }

    /// The call whose answer is awaited, if any.
    pub fn call(&self) -> (call: Option<Call>)
        ensures
            call == self.pending(),
    {
        match self {
            Connecting::QueryComponent { component, .. } => Some(
                Call::QueryInterface { object: *component, interface: ICONNECTION_POINT_IID },
            ),
            Connecting::QueryController { controller, .. } => Some(
                Call::QueryInterface { object: *controller, interface: ICONNECTION_POINT_IID },
            ),
            Connecting::ConnectComponent { ours, theirs } => Some(
                Call::Connect { point: *ours, other: *theirs },
            ),
            Connecting::ConnectController { ours, theirs } => Some(
                Call::Connect { point: *theirs, other: *ours },
            ),
            Connecting::ReleaseBoth { ours, .. } => Some(Call::Release { object: *ours }),
            Connecting::ReleaseLast { point } => Some(Call::Release { object: *point }),
            Connecting::Ended => None,
        }
    }

    /// Takes the answer to the call that was made and tells the next call. Every reference that
    /// comes in is accounted for until it goes out again.
    pub fn step(&mut self, answer: &Answer) -> (call: Option<Call>)
        requires
            old(self).pending() is Some,
        ensures
            *final(self) == old(self).after(*answer),
            call == final(self).pending(),
            final(self).rank() < old(self).rank(),
            forall|o: usize|
                #[trigger] final(self).references(o) == old(self).references(o)
                    + calls::references_gained(old(self).pending()->0, *answer, o),
    {
        let current = *self;
        *self =
        match current {
            Connecting::QueryComponent { controller, .. } => {
                if answer.has_object() {
                    Connecting::QueryController { controller, ours: answer.object }
                } else {
                    Connecting::Ended
                }
            },
            Connecting::QueryController { ours, .. } => {
                if answer.has_object() {
                    Connecting::ConnectComponent { ours, theirs: answer.object }
                } else {
                    Connecting::ReleaseLast { point: ours }
                }
            },
            Connecting::ConnectComponent { ours, theirs } => Connecting::ConnectController {
                ours,
                theirs,
            },
            Connecting::ConnectController { ours, theirs } => Connecting::ReleaseBoth {
                ours,
                theirs,
            },
            Connecting::ReleaseBoth { theirs, .. } => Connecting::ReleaseLast { point: theirs },
            Connecting::ReleaseLast { .. } => Connecting::Ended,
            Connecting::Ended => Connecting::Ended,
        };
        self.call()
    }
}

/// The taking apart of a component and a controller.
#[derive(Clone, Copy, Debug, PartialEq, Eq, Structural)]
pub enum Disconnecting {
    /// Asking the component for its connection point.
    QueryComponent { component: usize, controller: usize },
    /// Asking the controller for its connection point, whether the component has one or not.
    QueryController { controller: usize, ours: usize },
    /// Telling the component that the controller leaves.
    DisconnectComponent { ours: usize, theirs: usize },
    /// Telling the controller that the component leaves.
    DisconnectController { ours: usize, theirs: usize },
    /// Giving the component's connection point back, with the controller's still held.
    ReleaseBoth { ours: usize, theirs: usize },
    /// Giving the one connection point back that is still held.
    ReleaseLast { point: usize },
    /// Nothing is left to do.
    Ended,
}

impl Disconnecting {
    /// The call whose answer is awaited.
    pub open spec fn pending(self) -> Option<Call> {
        match self {
            Disconnecting::QueryComponent { component, .. } => Some(point_query(component)),
            Disconnecting::QueryController { controller, .. } => Some(point_query(controller)),
            Disconnecting::DisconnectComponent { ours, theirs } => Some(
                Call::Disconnect { point: ours, other: theirs },
            ),
            Disconnecting::DisconnectController { ours, theirs } => Some(
                Call::Disconnect { point: theirs, other: ours },
            ),
            Disconnecting::ReleaseBoth { ours, .. } => Some(Call::Release { object: ours }),
            Disconnecting::ReleaseLast { point } => Some(Call::Release { object: point }),
            Disconnecting::Ended => None,
        }
    }

    /// The state after the answer. Both sides are taken apart where both have a connection point;
    /// where only one has, its connection point is given back.
    pub open spec fn after(self, answer: Answer) -> Disconnecting {
        match self {
            Disconnecting::QueryComponent { controller, .. } => Disconnecting::QueryController {
                controller,
                ours: handed_out(answer),
            },
            Disconnecting::QueryController { ours, .. } => {
                let theirs = handed_out(answer);
                if ours != 0 && theirs != 0 {
                    Disconnecting::DisconnectComponent { ours, theirs }
                } else if ours != 0 {
                    Disconnecting::ReleaseLast { point: ours }
                } else if theirs != 0 {
                    Disconnecting::ReleaseLast { point: theirs }
                } else {
                    Disconnecting::Ended
                }
            },
            Disconnecting::DisconnectComponent { ours, theirs } =>
                Disconnecting::DisconnectController { ours, theirs },
            Disconnecting::DisconnectController { ours, theirs } => Disconnecting::ReleaseBoth {
                ours,
                theirs,
            },
            Disconnecting::ReleaseBoth { theirs, .. } => Disconnecting::ReleaseLast {
                point: theirs,
            },
            Disconnecting::ReleaseLast { .. } => Disconnecting::Ended,
            Disconnecting::Ended => Disconnecting::Ended,
        }
    }

    /// The number of references to an object that are held for the moment.
    pub open spec fn references(self, object: usize) -> int {
        match self {
            Disconnecting::QueryController { ours, .. } => calls::one_if(
                ours != 0 && ours == object,
            ),
            Disconnecting::DisconnectComponent { ours, theirs } => calls::one_if(ours == object)
                + calls::one_if(theirs == object),
            Disconnecting::DisconnectController { ours, theirs } => calls::one_if(ours == object)
                + calls::one_if(theirs == object),
            Disconnecting::ReleaseBoth { ours, theirs } => calls::one_if(ours == object)
                + calls::one_if(theirs == object),
            Disconnecting::ReleaseLast { point } => calls::one_if(point == object),
            _ => 0,
        }
    }

    /// The number of calls that can still come.
    pub open spec fn rank(self) -> nat {
        match self {
            Disconnecting::QueryComponent { .. } => 6,
            Disconnecting::QueryController { .. } => 5,
            Disconnecting::DisconnectComponent { .. } => 4,
            Disconnecting::DisconnectController { .. } => 3,
            Disconnecting::ReleaseBoth { .. } => 2,
            Disconnecting::ReleaseLast { .. } => 1,
            Disconnecting::Ended => 0,
        }
    }

    /// The calls that are made, given their answers.
    pub open spec fn trace(self, answers: Seq<Answer>) -> Seq<Call>
        decreases answers.len(),
    {
        match self.pending() {
            None => Seq::empty(),
            Some(call) => if answers.len() == 0 {
                seq![call]
            } else {
                seq![call] + self.after(answers[0]).trace(answers.skip(1))
            },
        }
    }

    /// The call whose answer is awaited, if any.
    pub fn call(&self) -> (call: Option<Call>)
        ensures
            call == self.pending(),
    {
        match self {
            Disconnecting::QueryComponent { component, .. } => Some(
                Call::QueryInterface { object: *component, interface: ICONNECTION_POINT_IID },
            ),
            Disconnecting::QueryController { controller, .. } => Some(
                Call::QueryInterface { object: *controller, interface: ICONNECTION_POINT_IID },
            ),
            Disconnecting::DisconnectComponent { ours, theirs } => Some(
                Call::Disconnect { point: *ours, other: *theirs },
            ),
            Disconnecting::DisconnectController { ours, theirs } => Some(
                Call::Disconnect { point: *theirs, other: *ours },
            ),
            Disconnecting::ReleaseBoth { ours, .. } => Some(Call::Release { object: *ours }),
            Disconnecting::ReleaseLast { point } => Some(Call::Release { object: *point }),
            Disconnecting::Ended => None,
        }
    }

    /// Takes the answer to the call that was made and tells the next call. Every reference that
    /// comes in is accounted for until it goes out again.
    pub fn step(&mut self, answer: &Answer) -> (call: Option<Call>)
        requires
            old(self).pending() is Some,
        ensures
            *final(self) == old(self).after(*answer),
            call == final(self).pending(),
            final(self).rank() < old(self).rank(),
            forall|o: usize|
                #[trigger] final(self).references(o) == old(self).references(o)
                    + calls::references_gained(old(self).pending()->0, *answer, o),
    {
        let current = *self;
        let given: usize = if answer.has_object() {
            answer.object
        } else {
            0
        };
        *self =
        match current {
            Disconnecting::QueryComponent { controller, .. } => Disconnecting::QueryController {
                controller,
                ours: given,
            },
            Disconnecting::QueryController { ours, .. } => {
                if ours != 0 && given != 0 {
                    Disconnecting::DisconnectComponent { ours, theirs: given }
                } else if ours != 0 {
                    Disconnecting::ReleaseLast { point: ours }
                } else if given != 0 {
                    Disconnecting::ReleaseLast { point: given }
                } else {
                    Disconnecting::Ended
                }
            },
            Disconnecting::DisconnectComponent { ours, theirs } =>
                Disconnecting::DisconnectController { ours, theirs },
            Disconnecting::DisconnectController { ours, theirs } => Disconnecting::ReleaseBoth {
                ours,
                theirs,
            },
            Disconnecting::ReleaseBoth { theirs, .. } => Disconnecting::ReleaseLast {
                point: theirs,
            },
            Disconnecting::ReleaseLast { .. } => Disconnecting::Ended,
            Disconnecting::Ended => Disconnecting::Ended,
        };
        self.call()
    }
}

impl Vst3Instance {
    /// Connects the component and a controller, if both have a connection point.
    pub fn connect_component_controller(&self, controller: usize) -> (connecting: Connecting)
        ensures
            connecting == (Connecting::QueryComponent { component: self.component, controller }),
    {
        Connecting::QueryComponent { component: self.component, controller }
    }

    /// Takes the component and its controller apart. There is nothing to do where the controller
    /// is not an object of its own.
    pub fn disconnect_component_controller(&self) -> (disconnecting: Disconnecting)
        ensures
            disconnecting == (if self.owns_separate_controller && self.cached_controller != 0 {
                Disconnecting::QueryComponent {
                    component: self.component,
                    controller: self.cached_controller,
                }
            } else {
                Disconnecting::Ended
            }),
    {
        if !self.owns_separate_controller || self.cached_controller == 0 {
            return Disconnecting::Ended;
        }
        Disconnecting::QueryComponent {
            component: self.component,
            controller: self.cached_controller,
        }
    }
}

/// What connecting comes to: both objects are asked, the controller only if the component has a
/// connection point; each is told about the other if both have one; and every connection point
/// that was handed out is given back once.
pub proof fn lemma_connecting_trace(component: usize, controller: usize, answers: Seq<Answer>)
    requires
        answers.len() >= 6,
    ensures
        ({
            let ours = answers[0].object;
            let theirs = answers[1].object;
            Connecting::QueryComponent { component, controller }.trace(answers) == (
            if !answers[0].gives_object() {
                seq![point_query(component)]
            } else if !answers[1].gives_object() {
                seq![
                    point_query(component),
                    point_query(controller),
                    Call::Release { object: ours },
                ]
            } else {
                seq![
                    point_query(component),
                    point_query(controller),
                    Call::Connect { point: ours, other: theirs },
                    Call::Connect { point: theirs, other: ours },
                    Call::Release { object: ours },
                    Call::Release { object: theirs },
                ]
            })
        }),
{
    reveal_with_fuel(Connecting::trace, 8);
    let s = Connecting::QueryComponent { component, controller };
    assert(answers.skip(1)[0] == answers[1]);
    let ours = answers[0].object;
    let theirs = answers[1].object;
    if !answers[0].gives_object() {
        assert(s.trace(answers) =~= seq![point_query(component)]);
    } else if !answers[1].gives_object() {
        assert(s.trace(answers) =~= seq![
            point_query(component),
            point_query(controller),
            Call::Release { object: ours },
        ]);
    } else {
        assert(s.trace(answers) =~= seq![
            point_query(component),
            point_query(controller),
            Call::Connect { point: ours, other: theirs },
            Call::Connect { point: theirs, other: ours },
            Call::Release { object: ours },
            Call::Release { object: theirs },
        ]);
    }
}

/// What taking apart comes to: both objects are asked; each is told that the other leaves if both
/// have a connection point; and every connection point that was handed out is given back once.
pub proof fn lemma_disconnecting_trace(component: usize, controller: usize, answers: Seq<Answer>)
    requires
        answers.len() >= 6,
    ensures
        ({
            let ours = answers[0].object;
            let theirs = answers[1].object;
            let asked = seq![point_query(component), point_query(controller)];
            Disconnecting::QueryComponent { component, controller }.trace(answers) == asked + (
            if answers[0].gives_object() && answers[1].gives_object() {
                seq![
                    Call::Disconnect { point: ours, other: theirs },
                    Call::Disconnect { point: theirs, other: ours },
                    Call::Release { object: ours },
                    Call::Release { object: theirs },
                ]
            } else if answers[0].gives_object() {
                seq![Call::Release { object: ours }]
            } else if answers[1].gives_object() {
                seq![Call::Release { object: theirs }]
            } else {
                Seq::<Call>::empty()
            })
        }),
{
    reveal_with_fuel(Disconnecting::trace, 8);
    let s = Disconnecting::QueryComponent { component, controller };
    assert(answers.skip(1)[0] == answers[1]);
    let ours = answers[0].object;
    let theirs = answers[1].object;
    let asked = seq![point_query(component), point_query(controller)];
    if answers[0].gives_object() && answers[1].gives_object() {
        assert(s.trace(answers) =~= asked + seq![
            Call::Disconnect { point: ours, other: theirs },
            Call::Disconnect { point: theirs, other: ours },
            Call::Release { object: ours },
            Call::Release { object: theirs },
        ]);
    } else if answers[0].gives_object() {
        assert(s.trace(answers) =~= asked + seq![Call::Release { object: ours }]);
    } else if answers[1].gives_object() {
        assert(s.trace(answers) =~= asked + seq![Call::Release { object: theirs }]);
    } else {
        assert(s.trace(answers) =~= asked + Seq::<Call>::empty());
    }
}

/// The connection point of an object is asked of that object.
pub proof fn lemma_point_query(object: usize)
    ensures
        point_query(object) == (Call::QueryInterface { object, interface: ICONNECTION_POINT_IID }),
{
}

} // verus!
