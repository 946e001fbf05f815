use rs_vst_host::cli::{Cli, Command, ScanPathsAction, Task};
use rs_vst_host::commands::{
    devices, list, midi_ports, scan_paths_add, scan_paths_list, scan_paths_remove, InputPort,
    OutputDevice, ShownPath,
};
use rs_vst_host::plugins::{total_classes, PluginClassInfo, PluginModuleInfo, ScanCache};
use rs_vst_host::scan::{
    bundles_found, loading_bundle, loading_text, scan_complete, scan_heading, search_paths,
    take_in, BundleOutcome, Scan, ScanEvent, ScanStage,
};
use rs_vst_host::session::{
    audio_config, callback_processes, AudioConfig, ParameterTable, RunEvent, RunOptions, RunSession, RunStage,
};
use rs_vst_host::text::{push_decimal, push_digits, push_right_aligned};

fn class(name: &str, subcategories: Option<&str>, vendor: Option<&str>) -> PluginClassInfo {
    PluginClassInfo {
        name: name.to_string(),
        category: "Audio Module Class".to_string(),
        subcategories: subcategories.map(str::to_string),
        vendor: vendor.map(str::to_string),
        cid: [0; 16],
    }
}

fn module(path: &str, vendor: Option<&str>, classes: Vec<PluginClassInfo>) -> PluginModuleInfo {
    PluginModuleInfo {
        path: path.to_string(),
        factory_vendor: vendor.map(str::to_string),
        classes,
    }
}

fn shown(path: &str, exists: bool) -> ShownPath {
    ShownPath { path: path.to_string(), exists }
}

fn options() -> RunOptions {
    RunOptions {
        midi: None,
        sample_rate: None,
        buffer_size: None,
        no_tone: false,
        list_params: false,
    }
}

#[test]
fn numbers_are_written_in_decimal() {
    for n in [0, 7, 10, 99, 100, 65535, u64::MAX] {
        let mut out = String::from(">");
        push_digits(&mut out, n);
        assert_eq!(out, format!(">{}", n));
    }
    for n in [0, -1, 1, i64::MIN, i64::MAX] {
        let mut out = String::new();
        push_decimal(&mut out, n);
        assert_eq!(out, format!("{}", n));
    }
    for n in [0, 12, 123, 1234] {
        let mut out = String::new();
        push_right_aligned(&mut out, n, 3);
        assert_eq!(out, format!("{:>3}", n));
    }
}

#[test]
fn explicit_paths_stand_alone() {
    assert_eq!(search_paths(vec!["a"], vec!["d"], vec!["p"]), vec!["a"]);
    assert_eq!(search_paths(vec![], vec!["d"], vec!["p", "q"]), vec!["d", "p", "q"]);
    assert_eq!(search_paths::<&str>(vec![], vec![], vec![]), Vec::<&str>::new());
}

#[test]
fn a_scan_says_where_it_looks() {
    assert_eq!(
        scan_heading(true, &vec![shown("/p", true)], &vec![shown("/a", true), shown("/b", false)]),
        "Scanning for VST3 plugins...\n\n\
         Using only explicitly provided paths (defaults excluded).\n\n\
         Search paths:\n  /a\n  /b (not found)\n\n"
    );
    assert_eq!(
        scan_heading(false, &vec![shown("/p", true)], &vec![shown("/p", true)]),
        "Scanning for VST3 plugins...\n\n\
         Persistent scan paths (from config):\n  + /p\n\n\
         Search paths:\n  /p\n\n"
    );
    assert_eq!(
        scan_heading(false, &vec![], &vec![]),
        "Scanning for VST3 plugins...\n\nSearch paths:\n\n"
    );
}

#[test]
fn a_scan_says_what_it_finds() {
    assert_eq!(bundles_found(3), "Found 3 VST3 bundle(s).\n\n");
    assert_eq!(bundles_found(0), "Found 0 VST3 bundle(s).\n\nNo VST3 plugins found.\n");
    assert_eq!(loading_text(&Some("Synth".to_string()), "/x"), "  Loading Synth... ");
    assert_eq!(loading_text(&None, "/"), "  Loading /... ");
    assert_eq!(loading_bundle("/vst3/My Synth.vst3"), "  Loading My Synth... ");
    assert_eq!(loading_bundle("/"), "  Loading /... ");
}

#[test]
fn only_readable_modules_are_kept() {
    let mut modules = Vec::new();
    let info = module("/a", None, vec![class("One", Some("Fx|Delay"), None), class("Two", None, None)]);
    assert_eq!(
        take_in(&mut modules, BundleOutcome::Info(info)),
        "OK (2 class(es))\n    - One [Audio Module Class | Fx|Delay]\n    - Two [Audio Module Class]\n"
    );
    assert_eq!(
        take_in(&mut modules, BundleOutcome::MetadataError("bad".to_string())),
        "metadata error: bad\n"
    );
    assert_eq!(
        take_in(&mut modules, BundleOutcome::LoadError("worse".to_string())),
        "load error: worse\n"
    );
    let info = module("/b", None, vec![]);
    assert_eq!(take_in(&mut modules, BundleOutcome::Info(info)), "OK (0 class(es))\n");
    assert_eq!(modules.len(), 2);
    assert_eq!(total_classes(&modules), 2);
    assert_eq!(
        scan_complete(&modules),
        "\nScan complete: 2 module(s), 2 plugin class(es) cached.\n"
    );
}

#[test]
fn a_scan_loads_every_bundle_and_keeps_what_it_can_read() {
    let mut scan = Scan::scan();
    assert_eq!((scan.bundles, scan.modules.len(), scan.error.as_str()), (0, 0, ""));
    assert_eq!(scan.step(ScanEvent::Discovered(3)), "Found 3 VST3 bundle(s).\n\n");
    for (bundle, outcome) in [
        BundleOutcome::Info(module("/a", None, vec![class("One", None, None)])),
        BundleOutcome::LoadError("bad".to_string()),
        BundleOutcome::Info(module("/c", None, vec![])),
    ]
    .into_iter()
    .enumerate()
    {
        assert_eq!(scan.stage, ScanStage::Load { bundle });
        scan.step(ScanEvent::Loaded(outcome));
    }
    assert_eq!(scan.stage, ScanStage::SaveCache);
    let paths: Vec<&str> = scan.modules.iter().map(|m| m.path.as_str()).collect();
    assert_eq!(paths, vec!["/a", "/c"]);
    assert_eq!(
        scan.step(ScanEvent::Saved),
        "\nScan complete: 2 module(s), 1 plugin class(es) cached.\n"
    );
    assert_eq!(scan.stage, ScanStage::Finished);
}

#[test]
fn a_scan_without_bundles_saves_nothing() {
    let mut scan = Scan::scan();
    assert_eq!(
        scan.step(ScanEvent::Discovered(0)),
        "Found 0 VST3 bundle(s).\n\nNo VST3 plugins found.\n"
    );
    assert_eq!(scan.stage, ScanStage::Finished);
}

#[test]
fn a_scan_fails_where_the_cache_cannot_be_saved() {
    let mut scan = Scan::scan();
    scan.step(ScanEvent::Discovered(1));
    scan.step(ScanEvent::Loaded(BundleOutcome::MetadataError("x".to_string())));
    assert_eq!(scan.step(ScanEvent::Failed("disk full".to_string())), "");
    assert_eq!((scan.stage, scan.error.as_str()), (ScanStage::Failed, "disk full"));
}

#[test]
fn plugins_are_listed_and_numbered_across_modules() {
    assert_eq!(list(None), "No plugin cache found. Run 'scan' first.\n");
    let cache = ScanCache {
        scan_timestamp: "today".to_string(),
        modules: vec![
            module("/a.vst3", Some("Maker"), vec![class("One", Some("Fx"), Some("Own")), class("Two", None, None)]),
            module("/b.vst3", None, vec![class("Three", Some(""), None)]),
        ],
    };
    assert_eq!(
        list(Some(&cache)),
        concat_lines(&[
            "Cached plugins (scanned today):",
            "",
            "    1. One (Own)",
            "       Category: Audio Module Class | Fx",
            "       Path: /a.vst3",
            "",
            "    2. Two (Maker)",
            "       Category: Audio Module Class",
            "       Path: /a.vst3",
            "",
            "    3. Three (Unknown)",
            "       Category: Audio Module Class",
            "       Path: /b.vst3",
            "",
        ])
    );
    let cache = ScanCache { scan_timestamp: "t".to_string(), modules: vec![module("/a", None, vec![])] };
    assert_eq!(
        list(Some(&cache)),
        "Cached plugins (scanned t):\n\n  (no plugins found in cache)\n"
    );
}

fn concat_lines(lines: &[&str]) -> String {
    let mut text = lines.join("\n");
    text.push('\n');
    text
}

#[test]
fn devices_and_ports_are_listed() {
    assert_eq!(devices(&vec![]), "No audio output devices found.\n");
    let found = vec![
        OutputDevice { name: "Speaker".to_string(), is_default: true },
        OutputDevice { name: "Phones".to_string(), is_default: false },
    ];
    assert_eq!(
        devices(&found),
        "Audio output devices:\n\n    1. Speaker (default)\n    2. Phones\n\n"
    );
    assert_eq!(midi_ports(&vec![]), "No MIDI input ports found.\n");
    let ports = vec![
        InputPort { index: 0, name: "Keys".to_string() },
        InputPort { index: 99, name: "Pads".to_string() },
    ];
    assert_eq!(midi_ports(&ports), "MIDI input ports:\n\n    1. Keys\n  100. Pads\n\n");
}

#[test]
fn persistent_paths_are_managed() {
    assert_eq!(
        scan_paths_add("/d", true),
        "Added '/d' to persistent scan paths.\nRun 'scan' to discover plugins in this directory.\n"
    );
    assert_eq!(scan_paths_add("/d", false), "'/d' is already in the persistent scan paths.\n");
    assert_eq!(
        scan_paths_remove("/d", true),
        "Removed '/d' from persistent scan paths.\nRun 'scan' to update the plugin cache.\n"
    );
    assert_eq!(scan_paths_remove("/d", false), "'/d' was not in the persistent scan paths.\n");
    assert_eq!(
        scan_paths_list(&vec![], Some("/c")),
        "No persistent scan paths configured.\n\nAdd one with: rs-vst-host scan-paths add <DIR>\n"
    );
    let paths = vec![shown("/a", true), shown("/b", false)];
    assert_eq!(
        scan_paths_list(&paths, Some("/c")),
        "Persistent scan paths:\n\n    1. /a\n    2. /b (not found)\n\nConfig file: /c\n"
    );
    assert_eq!(
        scan_paths_list(&paths, None),
        "Persistent scan paths:\n\n    1. /a\n    2. /b (not found)\n\n"
    );
}

#[test]
fn the_device_fills_what_the_options_leave_open() {
    assert_eq!(
        audio_config(&options(), 44100, 8),
        AudioConfig { sample_rate: 44100, channels: 2, buffer_size: 0 }
    );
    let asked = RunOptions { sample_rate: Some(96000), buffer_size: Some(256), ..options() };
    assert_eq!(
        audio_config(&asked, 44100, 1),
        AudioConfig { sample_rate: 96000, channels: 1, buffer_size: 256 }
    );
}

#[test]
fn the_callback_is_silent_unless_the_engine_is_free() {
    assert!(callback_processes(false, true));
    assert!(!callback_processes(false, false));
    assert!(!callback_processes(true, true));
    assert!(!callback_processes(true, false));
}

#[test]
fn the_largest_block_follows_the_buffer() {
    let with = |buffer_size| AudioConfig { sample_rate: 1, channels: 2, buffer_size };
    assert_eq!(with(0).max_block_size(), 4096);
    assert_eq!(with(256).max_block_size(), 256);
    assert_eq!(with(u32::MAX).max_block_size(), u32::MAX as i32);
    assert_eq!(with(0x8000_0000).max_block_size(), i32::MIN);
}

#[test]
fn a_session_goes_from_beginning_to_end() {
    let mut session = RunSession::run(RunOptions {
        midi: Some("Keys".to_string()),
        buffer_size: Some(64),
        list_params: true,
        ..options()
    });
    assert_eq!((session.class_name.as_str(), session.error.as_str()), ("", ""));
    assert_eq!((session.config.sample_rate, session.config.channels, session.config.buffer_size), (0, 0, 0));
    let table = ParameterTable { count: 2, table: "A\nB\n".to_string() };
    let mut shown = String::new();
    let mut stages = Vec::new();
    for event in [
        RunEvent::Resolved("Synth".to_string()),
        RunEvent::Done,
        RunEvent::Supported(true),
        RunEvent::Device(Some("Speaker".to_string())),
        RunEvent::DeviceConfig(48000, 6),
        RunEvent::Done,
        RunEvent::Done,
        RunEvent::Done,
        RunEvent::Done,
        RunEvent::Latency(32),
        RunEvent::Done,
        RunEvent::Parameters(Some(table)),
        RunEvent::Done,
        RunEvent::Midi("Keys 1".to_string()),
        RunEvent::Done,
        RunEvent::Done,
        RunEvent::Done,
        RunEvent::Done,
        RunEvent::Done,
        RunEvent::Done,
        RunEvent::Done,
    ] {
        stages.push(session.stage);
        shown.push_str(&session.step(event));
    }
    assert_eq!(session.stage, RunStage::Finished);
    assert_eq!(session.class_name, "Synth");
    assert_eq!(session.arrangements(), (3, 3));
    assert!(session.tone_enabled());
    assert_eq!(session.config, AudioConfig { sample_rate: 48000, channels: 2, buffer_size: 64 });
    assert_eq!(
        stages[5..9],
        [
            RunStage::SetBusArrangements,
            RunStage::SetupProcessing,
            RunStage::Activate,
            RunStage::StartProcessing,
        ]
    );
    assert_eq!(
        stages[17..],
        [RunStage::Interact, RunStage::StopStream, RunStage::Pause, RunStage::ShutdownEngine]
    );
    assert_eq!(
        shown,
        "Loading plugin: Synth\n\
         Audio device: Speaker\n\
         Audio config: 48000 Hz, 2 ch, buffer: 64 frames\n\
         Plugin latency: 32 samples\n\
         \nPlugin parameters (2):\n\nA\nB\n\n\
         Test tone: 440 Hz sine wave\n\
         MIDI input: Keys 1\n\
         \nProcessing audio. Type 'help' for commands, 'quit' to stop.\n\n\
         \nStopping...\n\
         Done.\n"
    );
}

fn at(stage: RunStage, options: RunOptions) -> RunSession {
    let mut session = RunSession::run(options);
    session.stage = stage;
    session.class_name = "Synth".to_string();
    session
}

#[test]
fn a_failure_ends_the_session() {
    for stage in [
        RunStage::Resolve,
        RunStage::CreateInstance,
        RunStage::ReadDeviceConfig,
        RunStage::SetBusArrangements,
        RunStage::SetupProcessing,
        RunStage::Activate,
        RunStage::StartProcessing,
        RunStage::BuildStream,
        RunStage::Play,
    ] {
        let mut session = at(stage, options());
        assert_eq!(session.step(RunEvent::Failed("why".to_string())), "");
        assert_eq!((session.stage, session.error.as_str()), (RunStage::Failed, "why"));
    }
    let mut session = at(RunStage::CatchInterrupt, options());
    session.step(RunEvent::Failed("why".to_string()));
    assert_eq!(session.error, "Failed to set Ctrl+C handler: why");
    let mut session = at(RunStage::CheckSampleSize, options());
    session.step(RunEvent::Supported(false));
    assert_eq!(session.error, "Plugin 'Synth' does not support 32-bit float processing");
    let mut session = at(RunStage::OpenDevice, options());
    session.step(RunEvent::Device(None));
    assert_eq!(session.error, "No audio output device available");
    assert_eq!(session.stage, RunStage::Failed);
}

#[test]
fn a_session_goes_on_without_midi() {
    let mut session = at(RunStage::OpenMidi, options());
    assert_eq!(session.step(RunEvent::Failed("busy".to_string())), "MIDI input: failed (busy)\n");
    assert_eq!(session.stage, RunStage::CatchInterrupt);
    let mut session = at(RunStage::BuildEngine, RunOptions { no_tone: true, ..options() });
    assert!(!session.tone_enabled());
    assert_eq!(session.step(RunEvent::Done), "Test tone: disabled\n");
    assert_eq!(session.stage, RunStage::CatchInterrupt);
}

#[test]
fn little_is_shown_where_there_is_little_to_say() {
    let mut session = at(RunStage::AskLatency, options());
    assert_eq!(session.step(RunEvent::Latency(0)), "");
    let mut session = at(RunStage::QueryParameters, options());
    assert_eq!(session.step(RunEvent::Parameters(None)), "");
    let mut session = at(RunStage::QueryParameters, RunOptions { list_params: true, ..options() });
    assert_eq!(
        session.step(RunEvent::Parameters(None)),
        "\nPlugin does not expose parameters via IEditController.\n\n"
    );
    let mut session = at(RunStage::ReadDeviceConfig, options());
    assert_eq!(
        session.step(RunEvent::DeviceConfig(44100, 1)),
        "Audio config: 44100 Hz, 1 ch, buffer: default\n"
    );
}

#[test]
fn every_command_is_a_task() {
    let task = |command: Command<&'static str>| Cli { command }.task();
    assert_eq!(task(Command::Scan { paths: vec!["/a"] }), Task::Scan(vec!["/a"]));
    assert_eq!(
        task(Command::ScanPaths { action: ScanPathsAction::Add { dir: "/a" } }),
        Task::AddScanPath("/a")
    );
    assert_eq!(
        task(Command::ScanPaths { action: ScanPathsAction::Remove { dir: "/a" } }),
        Task::RemoveScanPath("/a")
    );
    assert_eq!(task(Command::ScanPaths { action: ScanPathsAction::List }), Task::ListScanPaths);
    assert_eq!(task(Command::List), Task::ListPlugins);
    assert_eq!(
        task(Command::Run {
            plugin: "P".to_string(),
            device: Some("D".to_string()),
            midi: None,
            sample_rate: Some(1),
            buffer_size: Some(2),
            no_tone: true,
            list_params: false,
        }),
        Task::Run {
            plugin: "P".to_string(),
            device: Some("D".to_string()),
            options: RunOptions {
                midi: None,
                sample_rate: Some(1),
                buffer_size: Some(2),
                no_tone: true,
                list_params: false,
            },
        }
    );
    assert_eq!(
        task(Command::Render {
            plugin: "P".to_string(),
            notes: "n",
            out: "o",
            sample_rate: 48000,
            tail_bits: 1.5f64.to_bits(),
        }),
        Task::Render {
            plugin: "P".to_string(),
            notes: "n",
            out: "o",
            sample_rate: 48000,
            tail_bits: 1.5f64.to_bits(),
        }
    );
    assert_eq!(task(Command::Devices), Task::ListDevices);
    assert_eq!(task(Command::MidiPorts), Task::ListMidiPorts);
    assert_eq!(
        task(Command::Worker { socket: "s".to_string() }),
        Task::Worker { socket: "s".to_string() }
    );
    assert_eq!(
        task(Command::GuiWorker { socket: "s".to_string(), safe_mode: true, malloc_debug: false }),
        Task::GuiWorker { socket: "s".to_string(), safe_mode: true, malloc_debug: false }
    );
    assert_eq!(
        task(Command::AudioWorker {
            socket: "s".to_string(),
            paths: vec!["/a"],
            safe_mode: false,
            malloc_debug: true,
        }),
        Task::AudioWorker {
            socket: "s".to_string(),
            paths: vec!["/a"],
            safe_mode: false,
            malloc_debug: true,
        }
    );
}

#[test]
fn the_user_interface_is_supervised_unless_it_shall_not_be() {
    for (in_process, malloc_debug) in [(false, false), (false, true), (true, false), (true, true)] {
        let cli: Cli<String> = Cli {
            command: Command::Gui { paths: vec![], safe_mode: true, malloc_debug, in_process },
        };
        assert_eq!(
            cli.task(),
            Task::LaunchGui {
                paths: vec![],
                safe_mode: true,
                malloc_debug,
                supervised: !in_process,
                print_instructions: malloc_debug,
            }
        );
    }
}
