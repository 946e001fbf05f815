use rs_vst_host::calls::{Answer, Call};
use rs_vst_host::com::{IAUDIO_PROCESSOR_IID, ICOMPONENT_IID, ICONNECTION_POINT_IID, IEDIT_CONTROLLER_IID};
use rs_vst_host::connection::Disconnecting;
use rs_vst_host::controller::{ControllerLookup, StateSync};
use rs_vst_host::creation::{Creation, CreationStep};
use rs_vst_host::error::Vst3Error;
use rs_vst_host::instance::{Step, Vst3Instance};
use rs_vst_host::sandbox::{CrashInfo, SandboxResult};
use rs_vst_host::teardown::{CrashFlags, Teardown, TeardownAction, TeardownEvent};

const CLASS: [u8; 16] = [1, 2, 3, 4, 5, 6, 7, 8, 9, 10, 11, 12, 13, 14, 15, 16];

fn object(address: usize) -> Answer {
    let mut answer = Answer::of_result(0);
    answer.object = address;
    answer
}

fn count(n: i32) -> Answer {
    let mut answer = Answer::of_result(0);
    answer.count = n;
    answer
}

fn class(class_id: [u8; 16]) -> Answer {
    let mut answer = Answer::of_result(0);
    answer.class_id = class_id;
    answer
}

fn data(bytes: &[u8]) -> Answer {
    let mut answer = Answer::of_result(0);
    answer.data = bytes.to_vec();
    answer
}

fn create(answers: Vec<Answer>) -> (Vec<Call>, Result<Vst3Instance, String>) {
    let (mut creation, mut step): (Creation, CreationStep) =
        Vst3Instance::create(0x400, 0x500, &CLASS, "Synth");
    let mut calls = Vec::new();
    let mut answers = answers.into_iter();
    loop {
        match step {
            CreationStep::Call(call) => {
                calls.push(call);
                step = creation.step(&answers.next().unwrap());
            }
            CreationStep::Failed(Vst3Error::Factory(text)) => return (calls, Err(text)),
            CreationStep::Ready(instance) => return (calls, Ok(instance)),
        }
    }
}

fn fresh() -> Vst3Instance {
    let (_, instance) = create(vec![
        object(0x300),
        object(0x100),
        Answer::of_result(0),
        object(0x200),
        count(1),
        count(1),
        count(2),
        count(2),
        Answer::of_result(0),
    ]);
    instance.unwrap()
}

fn with_controller() -> Vst3Instance {
    let mut instance = fresh();
    instance.cached_controller = 0x600;
    instance.owns_separate_controller = true;
    instance.controller_host_context = 0x700;
    instance.component_handler = 0x800;
    instance.active = true;
    instance.processing = true;
    instance
}

fn take_down(mut teardown: Teardown, crash_at: usize, heap_sound: bool) -> (Vec<TeardownAction>, Teardown) {
    let mut actions = Vec::new();
    let mut action = teardown.next_action();
    while action != TeardownAction::Ended {
        let event = match action {
            TeardownAction::CheckHeap => {
                if heap_sound {
                    TeardownEvent::HeapSound
                } else {
                    TeardownEvent::HeapCorrupted
                }
            }
            _ => {
                if actions.len() == crash_at {
                    TeardownEvent::Crashed
                } else {
                    TeardownEvent::Returned
                }
            }
        };
        actions.push(action);
        action = teardown.step(event);
    }
    (actions, teardown)
}

fn sandbox_call<T>(_name: &str, f: impl FnOnce() -> T) -> SandboxResult<T> {
    SandboxResult::Returned(f())
}

fn sandbox_crash() -> SandboxResult<()> {
    SandboxResult::Crashed(CrashInfo {
        signal: 7,
        signal_name: "SIGBUS".to_string(),
    })
}

#[test]
fn test_last_drop_crashed_default_is_false() {
    let flags = CrashFlags::new();
    assert!(!flags.last_drop_crashed, "LAST_DROP_CRASHED should default to false");
}

#[test]
fn test_last_drop_crashed_set_and_reset() {
    let mut flags = CrashFlags::new();
    flags.record_crash();
    assert!(flags.last_drop_crashed, "LAST_DROP_CRASHED should be true after set");

    flags.take_last_drop_crashed();
    assert!(!flags.last_drop_crashed, "LAST_DROP_CRASHED should be false after reset");
}

#[test]
fn test_last_drop_crashed_set_on_sandbox_crash() {
    let mut flags = CrashFlags::new();
    let result = sandbox_crash();
    if result.is_crashed() {
        flags.record_crash();
    }
    assert!(result.is_crashed());
    let crashed = flags.take_last_drop_crashed();
    assert!(crashed, "LAST_DROP_CRASHED should be set after instance crash");
    assert!(
        !flags.last_drop_crashed,
        "LAST_DROP_CRASHED should be false after read-and-reset"
    );
}

#[test]
fn test_last_drop_crashed_not_set_on_success() {
    let result = sandbox_call("test_successful_drop", || 42);
    assert!(result.is_ok());
    let (_, teardown) = take_down(fresh().teardown(CrashFlags::new()), usize::MAX, true);
    assert!(
        !teardown.flags.last_drop_crashed,
        "LAST_DROP_CRASHED should remain false after successful cleanup"
    );
}

#[test]
fn test_deactivation_crashed_flag_default_false() {
    let flags = CrashFlags::new();
    assert!(!flags.deactivation_crashed, "DEACTIVATION_CRASHED should be false by default");
}

#[test]
fn test_deactivation_crashed_flag_can_be_set_and_read() {
    let mut flags = CrashFlags::new();
    flags.deactivation_crashed = true;
    assert!(
        flags.deactivation_crashed,
        "DEACTIVATION_CRASHED should be true after set(true)"
    );
    flags.deactivation_crashed = false;
    assert!(
        !flags.deactivation_crashed,
        "DEACTIVATION_CRASHED should be false after set(false)"
    );
}

#[test]
fn test_deactivation_crashed_independent_of_last_drop_crashed() {
    let mut flags = CrashFlags::new();
    flags.last_drop_crashed = true;
    assert!(
        !flags.deactivation_crashed,
        "DEACTIVATION_CRASHED should not be affected by LAST_DROP_CRASHED"
    );

    flags.take_last_drop_crashed();
    flags.deactivation_crashed = true;
    assert!(
        !flags.last_drop_crashed,
        "LAST_DROP_CRASHED should not be affected by DEACTIVATION_CRASHED"
    );
}

#[test]
fn test_host_objects_leaked_on_crash_prevents_use_after_free() {
    let instance = with_controller();
    let host_ctx = instance.host_context;
    let handler = instance.component_handler;
    let (actions, teardown) = take_down(instance.teardown(CrashFlags::new()), 3, true);
    let freed = |call: Call| actions.contains(&TeardownAction::Call(call));
    assert!(
        !freed(Call::DestroyHostContext { context: host_ctx }) && teardown.instance.host_context == host_ctx,
        "Leaked host_context should remain valid"
    );
    assert!(
        !freed(Call::DestroyComponentHandler { handler })
            && teardown.instance.component_handler == handler,
        "Leaked component_handler should remain valid"
    );
    assert!(teardown.leaked);
}

#[test]
fn test_host_objects_destroyed_on_clean_shutdown() {
    let (actions, teardown) =
        take_down(with_controller().teardown(CrashFlags::new()), usize::MAX, true);
    assert!(!teardown.leaked);
    for call in [
        Call::DestroyHostContext { context: 0x300 },
        Call::DestroyHostContext { context: 0x700 },
        Call::DestroyComponentHandler { handler: 0x800 },
    ] {
        assert!(actions.contains(&TeardownAction::Call(call)));
    }
}

#[test]
fn test_deactivation_heap_corrupted_flag() {
    let mut flags = CrashFlags::new();
    flags.record_heap_check(true);
    assert!(!flags.deactivation_heap_corrupted);
    flags.record_heap_check(false);
    assert!(flags.deactivation_heap_corrupted);
}

#[test]
fn test_crash_flags_set_together_on_com_crash() {
    let mut flags = CrashFlags::new();
    let result = sandbox_crash();
    let any_crash = result.is_crashed() || result.is_panicked();
    if any_crash {
        flags.record_crash();
        flags.record_heap_check(true);
    }
    assert!(flags.last_drop_crashed, "LAST_DROP_CRASHED should be set");
    assert!(flags.deactivation_crashed, "DEACTIVATION_CRASHED should be set");
    assert!(
        !flags.deactivation_heap_corrupted,
        "DEACTIVATION_HEAP_CORRUPTED should not be set in clean test"
    );
}

#[test]
fn an_instance_is_created_step_by_step() {
    let (calls, instance) = create(vec![
        object(0x300),
        object(0x100),
        Answer::of_result(0),
        object(0x200),
        count(1),
        count(2),
        count(1),
        count(6),
        Answer::of_result(0),
    ]);
    assert_eq!(
        calls,
        vec![
            Call::NewHostContext,
            Call::CreateInstance { factory: 0x400, class_id: CLASS, interface: ICOMPONENT_IID },
            Call::Initialize { object: 0x100, context: 0x300 },
            Call::QueryInterface { object: 0x100, interface: IAUDIO_PROCESSOR_IID },
            Call::GetBusCount { component: 0x100, media: 0, direction: 0 },
            Call::GetBusCount { component: 0x100, media: 0, direction: 1 },
            Call::GetBusInfo { component: 0x100, media: 0, direction: 0, index: 0 },
            Call::GetBusInfo { component: 0x100, media: 0, direction: 1, index: 0 },
            Call::AddRef { object: 0x400 },
        ]
    );
    let instance = instance.unwrap();
    assert_eq!(
        instance,
        Vst3Instance {
            component: 0x100,
            processor: 0x200,
            host_context: 0x300,
            component_handler: 0,
            active: false,
            processing: false,
            input_channels: 1,
            output_channels: 6,
            name: "Synth".to_string(),
            factory: 0x400,
            factory_vtbl: 0x500,
            cached_controller: 0,
            owns_separate_controller: false,
            controller_host_context: 0,
            crashed: false,
        }
    );
}

#[test]
fn buses_that_say_nothing_are_taken_for_stereo() {
    let (calls, instance) = create(vec![
        object(0x300),
        object(0x100),
        Answer::of_result(0),
        object(0x200),
        count(1),
        count(0),
        Answer::of_result(1),
        Answer::of_result(0),
    ]);
    assert_eq!(calls.len(), 8);
    let instance = instance.unwrap();
    assert_eq!((instance.input_channels, instance.output_channels), (2, 2));

    let (calls, instance) = create(vec![
        object(0x300),
        object(0x100),
        Answer::of_result(0),
        object(0x200),
        count(0),
        count(0),
        Answer::of_result(0),
    ]);
    assert_eq!(calls.len(), 7);
    let instance = instance.unwrap();
    assert_eq!((instance.input_channels, instance.output_channels), (0, 2));
}

#[test]
fn a_component_that_is_not_made_leaves_nothing() {
    let (calls, failure) = create(vec![object(0x300), Answer::of_result(-1), Answer::of_result(0)]);
    assert_eq!(failure.unwrap_err(), "createInstance failed for 'Synth' (result: -1)");
    assert_eq!(calls[2], Call::DestroyHostContext { context: 0x300 });
    assert_eq!(calls.len(), 3);
}

#[test]
fn a_component_that_does_not_initialize_is_released() {
    let (calls, failure) = create(vec![
        object(0x300),
        object(0x100),
        Answer::of_result(1),
        Answer::of_result(0),
        Answer::of_result(0),
    ]);
    assert_eq!(failure.unwrap_err(), "IComponent::initialize failed for 'Synth' (result: 1)");
    assert_eq!(
        calls[3..],
        [Call::Release { object: 0x100 }, Call::DestroyHostContext { context: 0x300 }]
    );
}

#[test]
fn a_component_without_a_processor_is_terminated_and_released() {
    let (calls, failure) = create(vec![
        object(0x300),
        object(0x100),
        Answer::of_result(0),
        Answer::of_result(-2147467262),
        Answer::of_result(0),
        Answer::of_result(0),
        Answer::of_result(0),
    ]);
    assert_eq!(
        failure.unwrap_err(),
        "QueryInterface for IAudioProcessor failed for 'Synth' (result: -2147467262)"
    );
    assert_eq!(
        calls[4..],
        [
            Call::Terminate { object: 0x100 },
            Call::Release { object: 0x100 },
            Call::DestroyHostContext { context: 0x300 },
        ]
    );
}

fn look_up(
    instance: &mut Vst3Instance,
    answers: Vec<Answer>,
) -> (Vec<Call>, Vec<Vec<u8>>, Option<usize>) {
    let mut lookup = ControllerLookup::Query;
    let mut step = instance.get_controller();
    let mut calls = Vec::new();
    let mut sent = Vec::new();
    let mut answers = answers.into_iter();
    loop {
        match step {
            Step::Done(controller) => return (calls, sent, controller),
            Step::Call(call) => calls.push(call),
            Step::CallWith(call, bytes) => {
                calls.push(call);
                sent.push(bytes);
            }
            Step::FindController => unreachable!(),
        }
        step = lookup.step(instance, answers.next().unwrap());
    }
}

#[test]
fn a_component_can_be_its_own_controller() {
    let mut instance = fresh();
    let (calls, _, controller) = look_up(&mut instance, vec![object(0x600)]);
    assert_eq!(
        calls,
        vec![Call::QueryInterface { object: 0x100, interface: IEDIT_CONTROLLER_IID }]
    );
    assert_eq!(controller, Some(0x600));
    assert_eq!(instance.cached_controller, 0x600);
    assert!(!instance.owns_separate_controller);
    assert_eq!(instance.get_controller(), Step::Done(Some(0x600)));
}

#[test]
fn a_separate_controller_is_made_connected_and_told_the_state() {
    let mut instance = fresh();
    let (calls, sent, controller) = look_up(
        &mut instance,
        vec![
            Answer::of_result(1),
            class(CLASS),
            object(0x600),
            object(0x700),
            Answer::of_result(0),
            object(0x10),
            object(0x20),
            Answer::of_result(0),
            Answer::of_result(0),
            Answer::of_result(0),
            Answer::of_result(0),
            data(&[1, 2, 3]),
            Answer::of_result(0),
        ],
    );
    assert_eq!(
        calls,
        vec![
            Call::QueryInterface { object: 0x100, interface: IEDIT_CONTROLLER_IID },
            Call::GetControllerClassId { component: 0x100 },
            Call::CreateInstance { factory: 0x400, class_id: CLASS, interface: IEDIT_CONTROLLER_IID },
            Call::NewHostContext,
            Call::Initialize { object: 0x600, context: 0x700 },
            Call::QueryInterface { object: 0x100, interface: ICONNECTION_POINT_IID },
            Call::QueryInterface { object: 0x600, interface: ICONNECTION_POINT_IID },
            Call::Connect { point: 0x10, other: 0x20 },
            Call::Connect { point: 0x20, other: 0x10 },
            Call::Release { object: 0x10 },
            Call::Release { object: 0x20 },
            Call::GetComponentState { component: 0x100 },
            Call::SyncComponentState { controller: 0x600 },
        ]
    );
    assert_eq!(sent, vec![vec![1, 2, 3]]);
    assert_eq!(controller, Some(0x600));
    assert!(instance.owns_separate_controller);
    assert_eq!(instance.controller_host_context, 0x700);
}

#[test]
fn a_controller_without_connection_points_is_still_used() {
    let mut instance = fresh();
    let (calls, sent, controller) = look_up(
        &mut instance,
        vec![
            Answer::of_result(1),
            class(CLASS),
            object(0x600),
            object(0x700),
            Answer::of_result(0),
            object(0x10),
            Answer::of_result(1),
            Answer::of_result(0),
            data(&[]),
        ],
    );
    assert_eq!(calls[7], Call::Release { object: 0x10 });
    assert!(sent.is_empty());
    assert_eq!(controller, Some(0x600));
}

#[test]
fn a_controller_that_does_not_initialize_is_given_back() {
    let mut instance = fresh();
    let before = fresh();
    let (calls, _, controller) = look_up(
        &mut instance,
        vec![
            Answer::of_result(1),
            class(CLASS),
            object(0x600),
            object(0x700),
            Answer::of_result(1),
            Answer::of_result(0),
            Answer::of_result(0),
        ],
    );
    assert_eq!(
        calls[5..],
        [Call::Release { object: 0x600 }, Call::DestroyHostContext { context: 0x700 }]
    );
    assert_eq!(controller, None);
    assert_eq!(instance, before);
}

#[test]
fn a_plugin_can_be_without_a_controller() {
    let mut instance = fresh();
    let (_, _, controller) = look_up(&mut instance, vec![Answer::of_result(1), Answer::of_result(1)]);
    assert_eq!(controller, None);
    let (_, _, controller) = look_up(&mut instance, vec![Answer::of_result(1), class([0; 16])]);
    assert_eq!(controller, None);
    let (_, _, controller) = look_up(
        &mut instance,
        vec![Answer::of_result(1), class(CLASS), object(0)],
    );
    assert_eq!(controller, None);
    assert_eq!(instance, fresh());
}

#[test]
fn an_empty_state_is_not_told() {
    let instance = fresh();
    let mut sync = instance.sync_component_state_to_controller(0x600);
    assert_eq!(sync.step(data(&[])), Step::Done(()));
    assert_eq!(sync, StateSync::Ended);
    let mut sync = instance.sync_component_state_to_controller(0x600);
    assert_eq!(
        sync.step(data(&[5])),
        Step::CallWith(Call::SyncComponentState { controller: 0x600 }, vec![5])
    );
    assert_eq!(sync.step(Answer::of_result(1)), Step::Done(()));
}

#[test]
fn a_separate_controller_is_disconnected() {
    let instance = with_controller();
    let mut disconnecting = instance.disconnect_component_controller();
    let mut calls = Vec::new();
    let mut call = disconnecting.call();
    let mut answers = vec![object(0x10), object(0x20)].into_iter();
    while let Some(made) = call {
        calls.push(made);
        call = disconnecting.step(&answers.next().unwrap_or(Answer::of_result(0)));
    }
    assert_eq!(
        calls,
        vec![
            Call::QueryInterface { object: 0x100, interface: ICONNECTION_POINT_IID },
            Call::QueryInterface { object: 0x600, interface: ICONNECTION_POINT_IID },
            Call::Disconnect { point: 0x10, other: 0x20 },
            Call::Disconnect { point: 0x20, other: 0x10 },
            Call::Release { object: 0x10 },
            Call::Release { object: 0x20 },
        ]
    );
    assert_eq!(fresh().disconnect_component_controller(), Disconnecting::Ended);
}

#[test]
fn one_connection_point_alone_is_given_back() {
    let instance = with_controller();
    for (first, second, point) in [(object(0x10), object(0), 0x10), (object(0), object(0x20), 0x20)] {
        let mut disconnecting = instance.disconnect_component_controller();
        disconnecting.step(&first);
        assert_eq!(disconnecting.step(&second), Some(Call::Release { object: point }));
        assert_eq!(disconnecting.step(&Answer::of_result(0)), None);
    }
}

#[test]
fn a_clean_teardown_gives_everything_back_in_order() {
    let (actions, teardown) =
        take_down(with_controller().teardown(CrashFlags::new()), usize::MAX, true);
    assert_eq!(
        actions,
        vec![
            TeardownAction::Call(Call::SetProcessing { processor: 0x200, state: 0 }),
            TeardownAction::Call(Call::SetActive { component: 0x100, state: 0 }),
            TeardownAction::Call(Call::SetComponentHandler { controller: 0x600, handler: 0 }),
            TeardownAction::Disconnect(Disconnecting::QueryComponent {
                component: 0x100,
                controller: 0x600,
            }),
            TeardownAction::Call(Call::Terminate { object: 0x600 }),
            TeardownAction::Call(Call::Release { object: 0x600 }),
            TeardownAction::Call(Call::Terminate { object: 0x100 }),
            TeardownAction::Call(Call::Release { object: 0x200 }),
            TeardownAction::Call(Call::Release { object: 0x100 }),
            TeardownAction::Call(Call::Release { object: 0x400 }),
            TeardownAction::Call(Call::DestroyHostContext { context: 0x700 }),
            TeardownAction::Call(Call::DestroyHostContext { context: 0x300 }),
            TeardownAction::Call(Call::DestroyComponentHandler { handler: 0x800 }),
        ]
    );
    assert_eq!(teardown.flags, CrashFlags::new());
}

#[test]
fn a_crash_in_any_call_leaves_the_plugin_alone() {
    for crash_at in 0..10 {
        let (actions, teardown) =
            take_down(with_controller().teardown(CrashFlags::new()), crash_at, true);
        assert!(teardown.leaked);
        assert!(teardown.flags.last_drop_crashed);
        assert!(teardown.flags.deactivation_crashed);
        assert!(!teardown.flags.deactivation_heap_corrupted);
        for action in &actions[crash_at + 1..] {
            assert_eq!(*action, TeardownAction::CheckHeap);
        }
    }
}

#[test]
fn a_corrupted_heap_is_reported() {
    let (actions, teardown) =
        take_down(with_controller().teardown(CrashFlags::new()), 4, false);
    assert_eq!(actions.last(), Some(&TeardownAction::CheckHeap));
    assert!(teardown.flags.deactivation_heap_corrupted);
}

#[test]
fn a_plugin_that_crashed_before_is_not_called_at_the_end() {
    let mut instance = with_controller();
    instance.crashed = true;
    let (actions, teardown) = take_down(instance.teardown(CrashFlags::new()), usize::MAX, true);
    assert!(actions.is_empty());
    assert!(teardown.flags.last_drop_crashed);
}

#[test]
fn the_flags_of_earlier_instances_stay() {
    let earlier = CrashFlags {
        last_drop_crashed: false,
        deactivation_crashed: true,
        deactivation_heap_corrupted: true,
    };
    let (_, teardown) = take_down(fresh().teardown(earlier), usize::MAX, true);
    assert_eq!(teardown.flags, earlier);
}
