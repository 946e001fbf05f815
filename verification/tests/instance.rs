use rs_vst_host::bus::{FallbackStep, SPEAKER_MONO, SPEAKER_STEREO};
use rs_vst_host::calls::{Answer, Call, ProcessSetup, EDITOR_VIEW};
use rs_vst_host::com::{
    IAUDIO_PROCESSOR_IID, ICOMPONENT_IID, ICONNECTION_POINT_IID, IEDIT_CONTROLLER_IID, K_AUDIO,
    K_EVENT, K_INPUT, K_OUTPUT, K_REALTIME, K_SAMPLE_32,
};
use rs_vst_host::error::Vst3Error;
use rs_vst_host::instance::{Step, Vst3Instance};
use rs_vst_host::sandbox::{CrashInfo, SandboxResult};
use rs_vst_host::state::Restoring;

fn instance() -> Vst3Instance {
    Vst3Instance {
        component: 0x100,
        processor: 0x200,
        host_context: 0x300,
        component_handler: 0,
        active: false,
        processing: false,
        input_channels: 2,
        output_channels: 2,
        name: "Synth".to_string(),
        factory: 0x400,
        factory_vtbl: 0x500,
        cached_controller: 0,
        owns_separate_controller: false,
        controller_host_context: 0,
        crashed: false,
    }
}

fn sandbox_call<T>(_name: &str, f: impl FnOnce() -> T) -> SandboxResult<T> {
    SandboxResult::Returned(f())
}

fn crash<T>() -> SandboxResult<T> {
    SandboxResult::Crashed(CrashInfo {
        signal: 11,
        signal_name: "SIGSEGV".to_string(),
    })
}

fn panic<T>() -> SandboxResult<T> {
    SandboxResult::Panicked("out of cheese".to_string())
}

fn text(e: Vst3Error) -> String {
    match e {
        Vst3Error::Factory(text) => text,
    }
}

#[test]
fn test_icomponent_iid_is_16_bytes() {
    assert_eq!(ICOMPONENT_IID.len(), 16);
}

#[test]
fn test_iaudio_processor_iid_is_16_bytes() {
    assert_eq!(IAUDIO_PROCESSOR_IID.len(), 16);
}

#[test]
fn test_iedit_controller_iid_is_16_bytes() {
    assert_eq!(IEDIT_CONTROLLER_IID.len(), 16);
}

#[test]
fn test_iconnection_point_iid_is_16_bytes() {
    assert_eq!(ICONNECTION_POINT_IID.len(), 16);
}

#[test]
fn test_process_setup_constants() {
    assert_eq!(K_SAMPLE_32, 0);
    assert_eq!(K_REALTIME, 0);
    assert_eq!(K_AUDIO, 0);
    assert_eq!(K_INPUT, 0);
    assert_eq!(K_OUTPUT, 1);
}

#[test]
fn test_iconnection_point_vtbl_has_correct_layout() {
    // queryInterface, addRef, release, connect, disconnect, notify
    let size = std::mem::size_of::<vst3::Steinberg::Vst::IConnectionPointVtbl>();
    assert_eq!(size, 6 * 8, "IConnectionPointVtbl should be 6 pointers");
}

#[test]
fn test_factory_vtbl_has_create_instance() {
    let size = std::mem::size_of::<vst3::Steinberg::IPluginFactoryVtbl>();
    assert_eq!(size, 7 * 8, "IPluginFactoryVtbl should be 7 pointers");
}

#[test]
fn test_sandbox_used_in_lifecycle_methods() {
    let result = sandbox_call("instance_test", || 42);
    assert!(result.is_ok());
    assert_eq!(result.unwrap(), 42);
}

#[test]
fn an_outcome_is_one_of_three() {
    let returned: SandboxResult<u8> = SandboxResult::Returned(1);
    assert!(returned.is_ok() && !returned.is_crashed() && !returned.is_panicked());
    let crashed: SandboxResult<u8> = crash();
    assert!(!crashed.is_ok() && crashed.is_crashed() && !crashed.is_panicked());
    let panicked: SandboxResult<u8> = panic();
    assert!(!panicked.is_ok() && !panicked.is_crashed() && panicked.is_panicked());
}

#[test]
fn the_sample_size_is_asked_for() {
    let mut plugin = instance();
    assert_eq!(
        plugin.can_process_f32(),
        Step::Call(Call::CanProcessSampleSize { processor: 0x200, size: 0 })
    );
    assert!(plugin.can_process_f32_reply(SandboxResult::Returned(0)));
    assert!(!plugin.can_process_f32_reply(SandboxResult::Returned(1)));
    assert!(!plugin.can_process_f32_reply(crash()));
    plugin.crashed = true;
    assert_eq!(plugin.can_process_f32(), Step::Done(false));
}

#[test]
fn processing_is_set_up() {
    let mut plugin = instance();
    assert_eq!(
        plugin.setup_processing(48000f64.to_bits(), 512),
        Step::Call(Call::SetupProcessing {
            processor: 0x200,
            setup: ProcessSetup {
                process_mode: 0,
                symbolic_sample_size: 0,
                max_samples_per_block: 512,
                sample_rate_bits: 48000f64.to_bits(),
            },
        })
    );
    assert_eq!(plugin.setup_processing_reply(SandboxResult::Returned(0)), Ok(()));
    let e = plugin.setup_processing_reply(SandboxResult::Returned(-3)).unwrap_err();
    assert_eq!(text(e), "setupProcessing failed for 'Synth' (result: -3)");
    assert!(!plugin.is_crashed());
    let e = plugin.setup_processing_reply(crash()).unwrap_err();
    assert_eq!(text(e), "Plugin 'Synth' crashed during setupProcessing (SIGSEGV)");
    assert!(plugin.is_crashed());
}

#[test]
fn a_component_is_activated_once() {
    let mut plugin = instance();
    assert_eq!(plugin.activate(), Step::Call(Call::SetActive { component: 0x100, state: 1 }));
    let e = plugin.activate_reply(SandboxResult::Returned(2)).unwrap_err();
    assert_eq!(text(e), "setActive(true) failed for 'Synth' (result: 2)");
    assert!(!plugin.active);
    assert_eq!(plugin.activate_reply(SandboxResult::Returned(0)), Ok(()));
    assert!(plugin.active);
    assert_eq!(plugin.activate(), Step::Done(Ok(())));
}

#[test]
fn a_panic_during_activation_counts_as_a_crash() {
    let mut plugin = instance();
    let e = plugin.activate_reply(panic()).unwrap_err();
    assert_eq!(text(e), "Plugin 'Synth' panicked during activation: out of cheese");
    assert!(plugin.is_crashed());
    assert!(!plugin.active);
}

#[test]
fn processing_is_started_once() {
    let mut plugin = instance();
    assert_eq!(
        plugin.start_processing(),
        Step::Call(Call::SetProcessing { processor: 0x200, state: 1 })
    );
    let e = plugin.start_processing_reply(SandboxResult::Returned(1)).unwrap_err();
    assert_eq!(text(e), "setProcessing(true) failed for 'Synth' (result: 1)");
    assert_eq!(plugin.start_processing_reply(SandboxResult::Returned(0)), Ok(()));
    assert!(plugin.processing);
    assert_eq!(plugin.start_processing(), Step::Done(Ok(())));
    let e = plugin.start_processing_reply(crash()).unwrap_err();
    assert_eq!(text(e), "Plugin 'Synth' crashed during start_processing (SIGSEGV)");
}

#[test]
fn a_block_is_processed_unless_the_plugin_crashes() {
    let mut plugin = instance();
    assert_eq!(
        plugin.process(0x900),
        Step::Call(Call::Process { processor: 0x200, data: 0x900 })
    );
    assert!(plugin.process_reply(SandboxResult::Returned(5)));
    assert!(!plugin.process_reply(panic()));
    assert_eq!(plugin.process(0x900), Step::Done(false));
}

#[test]
fn the_latency_is_none_where_it_cannot_be_had() {
    let mut plugin = instance();
    assert_eq!(
        plugin.latency_samples(),
        Step::Call(Call::GetLatencySamples { processor: 0x200 })
    );
    assert_eq!(plugin.latency_samples_reply(SandboxResult::Returned(64)), 64);
    assert_eq!(plugin.latency_samples_reply(crash()), 0);
    plugin.crashed = true;
    assert_eq!(plugin.latency_samples(), Step::Done(0));
}

#[test]
fn a_crashed_plugin_is_not_called() {
    let mut plugin = instance();
    plugin.cached_controller = 0x600;
    plugin.crashed = true;
    let gone = || Vst3Error::Factory("Plugin has crashed".to_string());
    assert_eq!(plugin.setup_processing(0, 1), Step::Done(Err(gone())));
    assert_eq!(plugin.activate(), Step::Done(Err(gone())));
    assert_eq!(plugin.start_processing(), Step::Done(Err(gone())));
    assert_eq!(plugin.set_bus_arrangements(3, 3), Err(gone()));
    assert_eq!(plugin.try_bus_arrangement(3, 3), Err(gone()));
    assert_eq!(
        plugin.set_bus_arrangements_with_fallback(2, 2).1,
        FallbackStep::Done(Err(gone()))
    );
    assert_eq!(plugin.get_component_state(), Step::Done(vec![]));
    assert_eq!(plugin.get_controller_state(false), Step::Done(vec![]));
    assert_eq!(plugin.set_component_state(&[1]), Step::Done(false));
    assert_eq!(plugin.set_controller_state(&[1], false), Step::Done(false));
    assert_eq!(plugin.query_parameters(false), Step::Done(None));
    assert_eq!(plugin.install_component_handler(false), Step::Done(false));
    assert_eq!(plugin.create_editor_view(false), Step::Done(None));
    assert_eq!(plugin.has_editor(false), Step::Done(false));
    assert_eq!(plugin.shutdown(), Step::Done(()));
}

#[test]
fn a_shutdown_stops_processing_and_then_deactivates() {
    let mut plugin = instance();
    plugin.active = true;
    plugin.processing = true;
    assert_eq!(
        plugin.shutdown(),
        Step::Call(Call::SetProcessing { processor: 0x200, state: 0 })
    );
    plugin.shutdown_reply(true);
    assert_eq!(plugin.shutdown(), Step::Call(Call::SetActive { component: 0x100, state: 0 }));
    plugin.shutdown_reply(true);
    assert_eq!(plugin.shutdown(), Step::Done(()));
    assert!(!plugin.active && !plugin.processing && !plugin.crashed);
}

#[test]
fn a_crash_ends_the_shutdown() {
    let mut plugin = instance();
    plugin.active = true;
    plugin.processing = true;
    plugin.shutdown_reply(false);
    assert_eq!(plugin.shutdown(), Step::Done(()));
    assert!(plugin.crashed && plugin.active && plugin.processing);
}

#[test]
fn buses_are_arranged_and_activated() {
    let mut plugin = instance();
    let calls = plugin.set_bus_arrangements(3, 3).unwrap();
    assert_eq!(
        calls,
        vec![
            Call::SetBusArrangements {
                processor: 0x200,
                inputs: 3,
                num_inputs: 1,
                outputs: 3,
                num_outputs: 1,
            },
            Call::ActivateBus { component: 0x100, media: K_AUDIO, direction: K_INPUT, index: 0, state: 1 },
            Call::ActivateBus { component: 0x100, media: K_AUDIO, direction: K_OUTPUT, index: 0, state: 1 },
            Call::GetBusCount { component: 0x100, media: K_EVENT, direction: K_INPUT },
        ]
    );
    assert_eq!(
        plugin.event_bus_calls(2),
        vec![
            Call::ActivateBus { component: 0x100, media: K_EVENT, direction: K_INPUT, index: 0, state: 1 },
            Call::ActivateBus { component: 0x100, media: K_EVENT, direction: K_INPUT, index: 1, state: 1 },
        ]
    );
    assert_eq!(plugin.event_bus_calls(0), vec![]);
    assert_eq!(plugin.event_bus_calls(-1), vec![]);
    assert_eq!(plugin.set_bus_arrangements_reply(SandboxResult::Returned(())), Ok(()));
    let e = plugin.set_bus_arrangements_reply(panic()).unwrap_err();
    assert_eq!(text(e), "Plugin 'Synth' panicked during bus arrangement: out of cheese");
}

fn proposal(inputs: u64, num_inputs: i32, outputs: u64) -> FallbackStep {
    FallbackStep::Try(Call::SetBusArrangements {
        processor: 0x200,
        inputs,
        num_inputs,
        outputs,
        num_outputs: 1,
    })
}

#[test]
fn stereo_is_proposed_before_mono() {
    let mut plugin = instance();
    plugin.output_channels = 6;
    let (mut search, step) = plugin.set_bus_arrangements_with_fallback(2, 2);
    assert_eq!(step, proposal(SPEAKER_STEREO, 1, SPEAKER_STEREO));
    let step = search.probed(&mut plugin, SandboxResult::Returned(1));
    assert_eq!(step, proposal(SPEAKER_MONO, 1, SPEAKER_MONO));
    let step = search.probed(&mut plugin, SandboxResult::Returned(0));
    assert_eq!(step, FallbackStep::Done(Ok(1)));
    assert_eq!(plugin.output_channels, 1);
    assert_eq!(plugin.input_channels, 1);
}

#[test]
fn an_accepted_arrangement_ends_the_search() {
    let mut plugin = instance();
    plugin.input_channels = 0;
    let (mut search, step) = plugin.set_bus_arrangements_with_fallback(0, 2);
    assert_eq!(step, proposal(0, 0, SPEAKER_STEREO));
    let step = search.probed(&mut plugin, SandboxResult::Returned(0));
    assert_eq!(step, FallbackStep::Done(Ok(2)));
    assert_eq!(plugin.output_channels, 2);
    assert_eq!(plugin.input_channels, 0);
}

#[test]
fn the_defaults_are_activated_and_not_proposed_when_all_is_refused() {
    let activate = |direction| Call::ActivateBus {
        component: 0x100,
        media: K_AUDIO,
        direction,
        index: 0,
        state: 1,
    };
    let count = Call::GetBusCount { component: 0x100, media: K_EVENT, direction: K_INPUT };

    let mut plugin = instance();
    let (mut search, step) = plugin.set_bus_arrangements_with_fallback(1, 1);
    assert_eq!(step, proposal(SPEAKER_MONO, 1, SPEAKER_MONO));
    let step = search.probed(&mut plugin, SandboxResult::Returned(1));
    assert_eq!(
        step,
        FallbackStep::UseDefaults(vec![activate(K_INPUT), activate(K_OUTPUT), count])
    );
    assert_eq!(search.defaulted(&mut plugin, SandboxResult::Returned(())), Ok(1));
    assert!(!plugin.is_crashed());
    let e = search.defaulted(&mut plugin, crash()).unwrap_err();
    assert_eq!(text(e), "Plugin 'Synth' crashed during bus arrangement (SIGSEGV)");

    let mut plugin = instance();
    plugin.input_channels = 0;
    let (mut search, _) = plugin.set_bus_arrangements_with_fallback(0, 2);
    search.probed(&mut plugin, SandboxResult::Returned(1));
    let step = search.probed(&mut plugin, SandboxResult::Returned(1));
    assert_eq!(step, FallbackStep::UseDefaults(vec![activate(K_OUTPUT), count]));
    assert_eq!(search.defaulted(&mut plugin, SandboxResult::Returned(())), Ok(2));
}

#[test]
fn a_crash_ends_the_search_for_an_arrangement() {
    let mut plugin = instance();
    let (mut search, _) = plugin.set_bus_arrangements_with_fallback(2, 2);
    match search.probed(&mut plugin, crash()) {
        FallbackStep::Done(Err(e)) => assert_eq!(
            text(e),
            "Plugin 'Synth' crashed during bus arrangement probe (SIGSEGV)"
        ),
        other => panic!("{:?}", other),
    }
    assert!(plugin.crashed);
}

fn state(result: i32, data: &[u8]) -> SandboxResult<Answer> {
    let mut answer = Answer::of_result(result);
    answer.data = data.to_vec();
    SandboxResult::Returned(answer)
}

#[test]
fn the_state_of_the_component_is_what_it_wrote() {
    let plugin = instance();
    assert_eq!(
        plugin.get_component_state(),
        Step::Call(Call::GetComponentState { component: 0x100 })
    );
    assert_eq!(plugin.get_component_state_reply(state(0, &[1, 2, 3])), vec![1, 2, 3]);
    assert_eq!(plugin.get_component_state_reply(state(1, &[1, 2, 3])), vec![]);
    assert_eq!(plugin.get_component_state_reply(crash()), vec![]);
}

#[test]
fn the_state_of_the_controller_needs_a_controller() {
    let mut plugin = instance();
    assert_eq!(plugin.get_controller_state(false), Step::FindController);
    assert_eq!(plugin.get_controller_state(true), Step::Done(vec![]));
    plugin.cached_controller = 0x600;
    assert_eq!(
        plugin.get_controller_state(true),
        Step::Call(Call::GetControllerState { controller: 0x600 })
    );
    assert_eq!(plugin.get_controller_state_reply(state(0, &[9])), vec![9]);
}

#[test]
fn a_state_is_handed_to_the_component() {
    let mut plugin = instance();
    assert_eq!(plugin.set_component_state(&[]), Step::Done(false));
    assert_eq!(
        plugin.set_component_state(&[4, 5]),
        Step::CallWith(Call::SetComponentState { component: 0x100 }, vec![4, 5])
    );
    let mut restoring = Restoring::Apply;
    assert_eq!(restoring.applied(&mut plugin, SandboxResult::Returned(1)), Step::Done(false));
    assert_eq!(restoring, Restoring::Ended { restored: false });
    let mut restoring = Restoring::Apply;
    assert_eq!(restoring.applied(&mut plugin, crash()), Step::Done(false));
    assert!(plugin.crashed);
}

#[test]
fn a_restored_state_is_told_to_the_controller() {
    let mut plugin = instance();
    let mut restoring = Restoring::Apply;
    assert_eq!(restoring.applied(&mut plugin, SandboxResult::Returned(0)), Step::FindController);
    plugin.cached_controller = 0x600;
    assert_eq!(
        restoring.searched(&plugin),
        Step::Call(Call::GetComponentState { component: 0x100 })
    );
    let mut answer = Answer::of_result(0);
    answer.data = vec![4, 5];
    assert_eq!(
        restoring.answered(answer),
        Step::CallWith(Call::SyncComponentState { controller: 0x600 }, vec![4, 5])
    );
    assert_eq!(restoring.answered(Answer::of_result(1)), Step::Done(true));

    let mut restoring = Restoring::Apply;
    assert_eq!(
        restoring.applied(&mut plugin, SandboxResult::Returned(0)),
        Step::Call(Call::GetComponentState { component: 0x100 })
    );
    assert_eq!(restoring.answered(Answer::of_result(1)), Step::Done(true));
}

#[test]
fn a_state_is_restored_without_a_controller() {
    let mut plugin = instance();
    let mut restoring = Restoring::Apply;
    restoring.applied(&mut plugin, SandboxResult::Returned(0));
    assert_eq!(restoring.searched(&plugin), Step::Done(true));
}

#[test]
fn a_state_is_handed_to_the_controller() {
    let mut plugin = instance();
    assert_eq!(plugin.set_controller_state(&[], false), Step::Done(false));
    assert_eq!(plugin.set_controller_state(&[6], false), Step::FindController);
    assert_eq!(plugin.set_controller_state(&[6], true), Step::Done(false));
    plugin.cached_controller = 0x600;
    assert_eq!(
        plugin.set_controller_state(&[6], false),
        Step::CallWith(Call::SetControllerState { controller: 0x600 }, vec![6])
    );
    assert!(plugin.set_controller_state_reply(SandboxResult::Returned(0)));
    assert!(!plugin.set_controller_state_reply(panic()));
    assert!(plugin.crashed);
}

#[test]
fn a_handler_is_kept_only_where_the_controller_took_it() {
    let mut plugin = instance();
    assert_eq!(plugin.install_component_handler(false), Step::FindController);
    assert_eq!(plugin.install_component_handler(true), Step::Done(false));
    plugin.cached_controller = 0x600;
    assert_eq!(plugin.install_component_handler(true), Step::Call(Call::NewComponentHandler));
    assert_eq!(
        plugin.install_component_handler_call(0x700),
        Call::SetComponentHandler { controller: 0x600, handler: 0x700 }
    );
    assert_eq!(
        plugin.install_component_handler_reply(0x700, SandboxResult::Returned(1)),
        (false, Some(Call::DestroyComponentHandler { handler: 0x700 }))
    );
    assert_eq!(plugin.component_handler(), 0);
    assert_eq!(
        plugin.install_component_handler_reply(0x700, SandboxResult::Returned(0)),
        (true, None)
    );
    assert_eq!(plugin.component_handler(), 0x700);
    assert_eq!(
        plugin.install_component_handler_reply(0x800, crash()),
        (false, Some(Call::DestroyComponentHandler { handler: 0x800 }))
    );
    assert!(plugin.crashed);
    assert_eq!(plugin.component_handler(), 0x700);
}

#[test]
fn the_parameters_are_read_from_the_controller() {
    let mut plugin = instance();
    assert_eq!(plugin.query_parameters(false), Step::FindController);
    assert_eq!(plugin.query_parameters(true), Step::Done(None));
    plugin.cached_controller = 0x600;
    assert_eq!(plugin.query_parameters(false), Step::Done(Some(0x600)));
}

#[test]
fn an_editor_is_a_view_of_the_controller() {
    let mut plugin = instance();
    assert_eq!(plugin.create_editor_view(false), Step::FindController);
    assert_eq!(plugin.has_editor(true), Step::Done(false));
    plugin.cached_controller = 0x600;
    let create = Call::CreateView { controller: 0x600, name: EDITOR_VIEW };
    assert_eq!(&EDITOR_VIEW, b"editor\0");
    assert_eq!(plugin.create_editor_view(false), Step::Call(create));
    assert_eq!(plugin.create_editor_view_reply(SandboxResult::Returned(0x800)), Some(0x800));
    assert_eq!(plugin.create_editor_view_reply(SandboxResult::Returned(0)), None);
    assert_eq!(plugin.has_editor(false), Step::Call(create));
    assert_eq!(
        plugin.has_editor_reply(SandboxResult::Returned(0x800)),
        (true, Some(Call::Release { object: 0x800 }))
    );
    assert_eq!(plugin.has_editor_reply(SandboxResult::Returned(0)), (false, None));
    assert_eq!(plugin.has_editor_reply(crash()), (false, None));
    assert!(plugin.crashed);
}
