//! A session with a plugin and an audio device: the order in which it is set up, run and ended.
//!
//! The session says what to do next and takes what came of it. Every failure but that of the MIDI
//! input ends it.

use vstd::prelude::*;
use vstd::string::*;

use crate::com::K_SPEAKER_STEREO;
use crate::text;
use crate::text::push_digits;

verus! {

/// The block size that is announced to the plugin where the device decides on it.
pub const DEFAULT_MAX_BLOCK: i32 = 4096;

/// How long to wait for the last audio callback, in milliseconds.
pub const STOP_PAUSE: u64 = 100;

/// How a session is asked for.
#[derive(Debug, PartialEq, Eq)]
pub struct RunOptions {
    /// The MIDI input port, where one is to be opened.
    pub midi: Option<String>,
    /// The sample rate, where it is not that of the device.
    pub sample_rate: Option<u32>,
    /// The buffer size in frames, where it is not that of the device.
    pub buffer_size: Option<u32>,
    /// Whether there is no test tone.
    pub no_tone: bool,
    /// Whether the parameters of the plugin are listed.
    pub list_params: bool,
}

/// The configuration of the audio device. A buffer size of zero leaves it to the device.
#[derive(Clone, Copy, Debug, PartialEq, Eq, Structural)]
pub struct AudioConfig {
    pub sample_rate: u32,
    pub channels: u16,
    pub buffer_size: u32,
}

/// The configuration that the options ask for, of a device that has its own: no more than two of
/// its channels are used.
pub open spec fn chosen_config(
    options: RunOptions,
    device_rate: u32,
    device_channels: u16,
) -> AudioConfig {
    AudioConfig {
        sample_rate: match options.sample_rate {
            Some(rate) => rate,
            None => device_rate,
        },
        channels: if device_channels < 2 {
            device_channels
        } else {
            2
        },
        buffer_size: match options.buffer_size {
            Some(frames) => frames,
            None => 0,
        },
    }
}

impl AudioConfig {
    /// The largest block that the plugin has to expect. A size beyond the signed range wraps
    /// around.
    pub open spec fn max_block(self) -> int {
        if self.buffer_size == 0 {
            DEFAULT_MAX_BLOCK as int
        } else if self.buffer_size > i32::MAX {
            self.buffer_size - 0x1_0000_0000
        } else {
            self.buffer_size as int
        }
    }

    /// What is shown of the configuration.
    pub open spec fn text(self) -> Seq<char> {
        "Audio config: "@ + text::digits(self.sample_rate as nat) + " Hz, "@ + text::digits(
            self.channels as nat,
        ) + " ch, buffer: "@ + (if self.buffer_size > 0 {
            text::digits(self.buffer_size as nat) + " frames"@
        } else {
            "default"@
        }) + "\n"@
    }

    /// The largest block that the plugin has to expect.
    pub fn max_block_size(&self) -> (size: i32)
        ensures
            size == self.max_block(),
    {
        if self.buffer_size == 0 {
            DEFAULT_MAX_BLOCK
        } else if self.buffer_size > 0x7fff_ffff {
            (self.buffer_size as i64 - 0x1_0000_0000) as i32
        } else {
            self.buffer_size as i32
        }
    }

    fn line(&self) -> (line: String)
        ensures
            line@ == self.text(),
    {
        let mut line: String = String::from_str("Audio config: ");
        push_digits(&mut line, self.sample_rate as u64);
        line.append(" Hz, ");
        push_digits(&mut line, self.channels as u64);
        line.append(" ch, buffer: ");
        let ghost before = line@;
        if self.buffer_size > 0 {
            push_digits(&mut line, self.buffer_size as u64);
            line.append(" frames");
            assert(line@ =~= before + (text::digits(self.buffer_size as nat) + " frames"@));
        } else {
            line.append("default");
        }
        line.append("\n");
        line
    }
}

/// Chooses the configuration that the options ask for.
pub fn audio_config(options: &RunOptions, device_rate: u32, device_channels: u16) -> (config:
    AudioConfig)
    ensures
        config == chosen_config(*options, device_rate, device_channels),
        config.channels <= device_channels && config.channels <= 2,
        config.channels == device_channels || config.channels == 2,
        options.sample_rate matches Some(rate) ==> config.sample_rate == rate,
        options.sample_rate is None ==> config.sample_rate == device_rate,
        options.buffer_size matches Some(frames) ==> config.buffer_size == frames,
        options.buffer_size is None ==> config.buffer_size == 0,
{
    AudioConfig {
        sample_rate: match options.sample_rate {
            Some(rate) => rate,
            None => device_rate,
        },
        channels: if device_channels < 2 {
            device_channels
        } else {
            2
        },
        buffer_size: match options.buffer_size {
            Some(frames) => frames,
            None => 0,
        },
    }
}

/// Whether the audio callback has the engine process a buffer. It fills the buffer with silence
/// once the engine shuts down, and while the engine is in use elsewhere.
pub fn callback_processes(shutting_down: bool, engine_free: bool) -> (b: bool)
    ensures
        b == (!shutting_down && engine_free),
{
    !shutting_down && engine_free
}

/// Where a session stands: each stage names what has to be done next.
#[derive(Clone, Copy, Debug, PartialEq, Eq, Structural)]
pub enum RunStage {
    /// Finding the plugin and loading its module.
    Resolve,
    /// Creating the instance.
    CreateInstance,
    /// Asking whether the plugin processes 32-bit samples.
    CheckSampleSize,
    /// Opening the output device.
    OpenDevice,
    /// Asking the device for its configuration.
    ReadDeviceConfig,
    /// Arranging the buses.
    SetBusArrangements,
    /// Configuring the processing.
    SetupProcessing,
    /// Activating the plugin.
    Activate,
    /// Starting to process.
    StartProcessing,
    /// Asking for the latency.
    AskLatency,
    /// Installing a component handler.
    InstallHandler,
    /// Asking for the parameters.
    QueryParameters,
    /// Building the audio engine.
    BuildEngine,
    /// Opening the MIDI input.
    OpenMidi,
    /// Catching the interrupt of the user.
    CatchInterrupt,
    /// Building the output stream.
    BuildStream,
    /// Starting it.
    Play,
    /// Taking commands from the user.
    Interact,
    /// Ending the output stream.
    StopStream,
    /// Waiting for the last callback.
    Pause,
    /// Shutting the engine down.
    ShutdownEngine,
    /// The session is over.
    Finished,
    /// The session has failed.
    Failed,
}

/// The parameters of a plugin: how many, and a table of them.
#[derive(Debug, PartialEq, Eq)]
pub struct ParameterTable {
    pub count: usize,
    pub table: String,
}

/// What came of what had to be done.
#[derive(Debug, PartialEq, Eq)]
pub enum RunEvent {
    /// It was done.
    Done,
    /// It failed, and why.
    Failed(String),
    /// The plugin was found: the name of its class.
    Resolved(String),
    /// Whether the plugin processes 32-bit samples.
    Supported(bool),
    /// The name of the output device, where there is one.
    Device(Option<String>),
    /// The sample rate and the number of channels of the device.
    DeviceConfig(u32, u16),
    /// The latency in samples.
    Latency(u32),
    /// The parameters, where the plugin has a controller.
    Parameters(Option<ParameterTable>),
    /// The name of the MIDI input port.
    Midi(String),
}

/// The text that says that a plugin cannot be used.
pub open spec fn unsupported_text(name: Seq<char>) -> Seq<char> {
    "Plugin '"@ + name + "' does not support 32-bit float processing"@
}

/// Says that a plugin cannot be used.
pub fn unsupported(name: &str) -> (e: String)
    ensures
        e@ == unsupported_text(name@),
{
    let mut e: String = String::from_str("Plugin '");
    e.append(name);
    e.append("' does not support 32-bit float processing");
    e
}

/// Says which plugin is loaded.
pub open spec fn loading_text(name: Seq<char>) -> Seq<char> {
    "Loading plugin: "@ + name + "\n"@
}

/// Says which plugin is loaded.
pub fn loading_line(name: &str) -> (line: String)
    ensures
        line@ == loading_text(name@),
{
    let mut line: String = String::from_str("Loading plugin: ");
    line.append(name);
    line.append("\n");
    line
}

/// What is shown of the parameters where they are to be listed.
pub open spec fn parameters_text(listed: bool, parameters: Option<ParameterTable>) -> Seq<char> {
    if listed {
        match parameters {
            Some(p) => "\nPlugin parameters ("@ + text::digits(p.count as nat) + "):\n\n"@
                + p.table@ + "\n"@,
            None => "\nPlugin does not expose parameters via IEditController.\n\n"@,
        }
    } else {
        Seq::empty()
    }
}

fn parameters_lines(listed: bool, parameters: &Option<ParameterTable>) -> (lines: String)
    ensures
        lines@ == parameters_text(listed, *parameters),
{
    if listed {
        match parameters {
            Some(p) => {
                let mut lines: String = String::from_str("\nPlugin parameters (");
                push_digits(&mut lines, p.count as u64);
                lines.append("):\n\n");
                lines.append(p.table.as_str());
                lines.append("\n");
                lines
            },
            None => String::from_str(
                "\nPlugin does not expose parameters via IEditController.\n\n",
            ),
        }
    } else {
        let lines: String = String::new();
        assert(lines@ =~= Seq::<char>::empty());
        lines
    }
}

/// A session.
#[derive(Debug, PartialEq, Eq)]
pub struct RunSession {
    /// What was asked for.
    pub options: RunOptions,
    /// Where the session stands.
    pub stage: RunStage,
    /// The name of the plugin, once it is known.
    pub class_name: String,
    /// The configuration of the device, once it is chosen.
    pub config: AudioConfig,
    /// Why the session failed, once it has.
    pub error: String,
}

/// The stage that follows when what had to be done was done.
pub open spec fn next_stage(stage: RunStage, with_midi: bool) -> RunStage {
    match stage {
        RunStage::Resolve => RunStage::CreateInstance,
        RunStage::CreateInstance => RunStage::CheckSampleSize,
        RunStage::CheckSampleSize => RunStage::OpenDevice,
        RunStage::OpenDevice => RunStage::ReadDeviceConfig,
        RunStage::ReadDeviceConfig => RunStage::SetBusArrangements,
        RunStage::SetBusArrangements => RunStage::SetupProcessing,
        RunStage::SetupProcessing => RunStage::Activate,
        RunStage::Activate => RunStage::StartProcessing,
        RunStage::StartProcessing => RunStage::AskLatency,
        RunStage::AskLatency => RunStage::InstallHandler,
        RunStage::InstallHandler => RunStage::QueryParameters,
        RunStage::QueryParameters => RunStage::BuildEngine,
        RunStage::BuildEngine => if with_midi {
            RunStage::OpenMidi
        } else {
            RunStage::CatchInterrupt
        },
        RunStage::OpenMidi => RunStage::CatchInterrupt,
        RunStage::CatchInterrupt => RunStage::BuildStream,
        RunStage::BuildStream => RunStage::Play,
        RunStage::Play => RunStage::Interact,
        RunStage::Interact => RunStage::StopStream,
        RunStage::StopStream => RunStage::Pause,
        RunStage::Pause => RunStage::ShutdownEngine,
        RunStage::ShutdownEngine => RunStage::Finished,
        RunStage::Finished => RunStage::Finished,
        RunStage::Failed => RunStage::Failed,
    }
}

fn following(stage: RunStage, with_midi: bool) -> (next: RunStage)
    ensures
        next == next_stage(stage, with_midi),
{
    match stage {
        RunStage::Resolve => RunStage::CreateInstance,
        RunStage::CreateInstance => RunStage::CheckSampleSize,
        RunStage::CheckSampleSize => RunStage::OpenDevice,
        RunStage::OpenDevice => RunStage::ReadDeviceConfig,
        RunStage::ReadDeviceConfig => RunStage::SetBusArrangements,
        RunStage::SetBusArrangements => RunStage::SetupProcessing,
        RunStage::SetupProcessing => RunStage::Activate,
        RunStage::Activate => RunStage::StartProcessing,
        RunStage::StartProcessing => RunStage::AskLatency,
        RunStage::AskLatency => RunStage::InstallHandler,
        RunStage::InstallHandler => RunStage::QueryParameters,
        RunStage::QueryParameters => RunStage::BuildEngine,
        RunStage::BuildEngine => if with_midi {
            RunStage::OpenMidi
        } else {
            RunStage::CatchInterrupt
        },
        RunStage::OpenMidi => RunStage::CatchInterrupt,
        RunStage::CatchInterrupt => RunStage::BuildStream,
        RunStage::BuildStream => RunStage::Play,
        RunStage::Play => RunStage::Interact,
        RunStage::Interact => RunStage::StopStream,
        RunStage::StopStream => RunStage::Pause,
        RunStage::Pause => RunStage::ShutdownEngine,
        RunStage::ShutdownEngine => RunStage::Finished,
        RunStage::Finished => RunStage::Finished,
        RunStage::Failed => RunStage::Failed,
    }
}

impl RunSession {
    /// The event is one that can come of what has to be done.
    pub open spec fn expects(self, event: RunEvent) -> bool {
        match self.stage {
            RunStage::Resolve => event is Resolved || event is Failed,
            RunStage::CheckSampleSize => event is Supported,
            RunStage::OpenDevice => event is Device,
            RunStage::ReadDeviceConfig => event is DeviceConfig || event is Failed,
            RunStage::AskLatency => event is Latency,
            RunStage::InstallHandler => event is Done,
            RunStage::QueryParameters => event is Parameters,
            RunStage::BuildEngine => event is Done,
            RunStage::OpenMidi => event is Midi || event is Failed,
            RunStage::Interact => event is Done,
            RunStage::StopStream => event is Done,
            RunStage::Pause => event is Done,
            RunStage::ShutdownEngine => event is Done,
            RunStage::Finished => false,
            RunStage::Failed => false,
            _ => event is Done || event is Failed,
        }
    }

    /// The event ends the session, and why.
    pub open spec fn failure(self, event: RunEvent) -> Option<Seq<char>> {
        match event {
            RunEvent::Failed(e) => match self.stage {
                RunStage::OpenMidi => None,
                RunStage::CatchInterrupt => Some("Failed to set Ctrl+C handler: "@ + e@),
                _ => Some(e@),
            },
            RunEvent::Supported(supported) => if supported {
                None
            } else {
                Some(unsupported_text(self.class_name@))
            },
            RunEvent::Device(device) => match device {
                Some(name) => None,
                None => Some("No audio output device available"@),
            },
            _ => None,
        }
    }

    /// What is shown on the event.
    pub open spec fn shown(self, event: RunEvent) -> Seq<char> {
        match event {
            RunEvent::Resolved(name) => loading_text(name@),
            RunEvent::Device(device) => match device {
                Some(name) => "Audio device: "@ + name@ + "\n"@,
                None => Seq::empty(),
            },
            RunEvent::DeviceConfig(rate, channels) => chosen_config(
                self.options,
                rate,
                channels,
            ).text(),
            RunEvent::Latency(samples) => if samples > 0 {
                "Plugin latency: "@ + text::digits(samples as nat) + " samples\n"@
            } else {
                Seq::empty()
            },
            RunEvent::Parameters(parameters) => parameters_text(
                self.options.list_params,
                parameters,
            ),
            RunEvent::Midi(port) => "MIDI input: "@ + port@ + "\n"@,
            RunEvent::Failed(e) => if self.stage is OpenMidi {
                "MIDI input: failed ("@ + e@ + ")\n"@
            } else {
                Seq::empty()
            },
            RunEvent::Supported(_) => Seq::empty(),
            RunEvent::Done => match self.stage {
                RunStage::BuildEngine => if self.options.no_tone {
                    "Test tone: disabled\n"@
                } else {
                    "Test tone: 440 Hz sine wave\n"@
                },
                RunStage::Play =>
                    "\nProcessing audio. Type 'help' for commands, 'quit' to stop.\n\n"@,
                RunStage::Interact => "\nStopping...\n"@,
                RunStage::ShutdownEngine => "Done.\n"@,
                _ => Seq::empty(),
            },
        }
    }

    /// The stage after the event.
    pub open spec fn after(self, event: RunEvent) -> RunStage {
        if self.failure(event) is Some {
            RunStage::Failed
        } else {
            next_stage(self.stage, self.options.midi is Some)
        }
    }

    /// The configuration after the event.
    pub open spec fn config_after(self, event: RunEvent) -> AudioConfig {
        match event {
            RunEvent::DeviceConfig(rate, channels) => chosen_config(self.options, rate, channels),
            _ => self.config,
        }
    }

    /// The name of the plugin after the event.
    pub open spec fn name_after(self, event: RunEvent) -> Seq<char> {
        match event {
            RunEvent::Resolved(name) => name@,
            _ => self.class_name@,
        }
    }

    /// Begins a session.
    pub fn run(options: RunOptions) -> (session: RunSession)
        ensures
            session.options == options,
            session.stage is Resolve,
            session.class_name@.len() == 0,
            session.config == (AudioConfig { sample_rate: 0, channels: 0, buffer_size: 0 }),
            session.error@.len() == 0,
    {
        RunSession {
            options,
            stage: RunStage::Resolve,
            class_name: String::new(),
            config: AudioConfig { sample_rate: 0, channels: 0, buffer_size: 0 },
            error: String::new(),
        }
    }

    /// The arrangements of the input and the output bus that the plugin is asked for.
    pub fn arrangements(&self) -> (r: (u64, u64))
        ensures
            r.0 == K_SPEAKER_STEREO,
            r.1 == K_SPEAKER_STEREO,
    {
        (K_SPEAKER_STEREO, K_SPEAKER_STEREO)
    }

    /// Whether the engine plays the test tone into the plugin.
    pub fn tone_enabled(&self) -> (b: bool)
        ensures
            b == !self.options.no_tone,
    {
        !self.options.no_tone
    }

    fn shown_on_done(&self) -> (out: String)
        ensures
            out@ == self.shown(RunEvent::Done),
    {
        match self.stage {
            RunStage::BuildEngine => if self.options.no_tone {
                String::from_str("Test tone: disabled\n")
            } else {
                String::from_str("Test tone: 440 Hz sine wave\n")
            },
            RunStage::Play => String::from_str(
                "\nProcessing audio. Type 'help' for commands, 'quit' to stop.\n\n",
            ),
            RunStage::Interact => String::from_str("\nStopping...\n"),
            RunStage::ShutdownEngine => String::from_str("Done.\n"),
            _ => {
                let out: String = String::new();
                assert(out@ =~= Seq::<char>::empty());
                out
            },
        }
    }

    fn line(start: &str, middle: &str, end: &str) -> (out: String)
        ensures
            out@ == start@ + middle@ + end@,
    {
        let mut out: String = String::from_str(start);
        out.append(middle);
        out.append(end);
        out
    }

    /// Takes what came of what had to be done, and goes on. Returns what is shown.
    pub fn step(&mut self, event: RunEvent) -> (out: String)
        requires
            old(self).expects(event),
        ensures
            out@ == old(self).shown(event),
            final(self).options == old(self).options,
            final(self).stage == old(self).after(event),
            final(self).config == old(self).config_after(event),
            final(self).class_name@ == old(self).name_after(event),
            match old(self).failure(event) {
                Some(e) => final(self).error@ == e,
                None => final(self).error == old(self).error,
            },
    {
        let with_midi: bool = self.options.midi.is_some();
        let next: RunStage = following(self.stage, with_midi);
        let mut out: String = String::new();
        assert(out@ =~= Seq::<char>::empty());
        match event {
            RunEvent::Done => {
                out = self.shown_on_done();
                self.stage = next;
            },
            RunEvent::Failed(e) => {
                match self.stage {
                    RunStage::OpenMidi => {
                        out = Self::line("MIDI input: failed (", e.as_str(), ")\n");
                        self.stage = next;
                    },
                    RunStage::CatchInterrupt => {
                        let mut message: String = String::from_str(
                            "Failed to set Ctrl+C handler: ",
                        );
                        message.append(e.as_str());
                        self.error = message;
                        self.stage = RunStage::Failed;
                    },
                    _ => {
                        self.error = e;
                        self.stage = RunStage::Failed;
                    },
                }
            },
            RunEvent::Resolved(name) => {
                out = loading_line(name.as_str());
                self.class_name = name;
                self.stage = next;
            },
            RunEvent::Supported(supported) => {
                if supported {
                    self.stage = next;
                } else {
                    self.error = unsupported(self.class_name.as_str());
                    self.stage = RunStage::Failed;
                }
            },
            RunEvent::Device(device) => {
                match device {
                    Some(name) => {
                        out = Self::line("Audio device: ", name.as_str(), "\n");
                        self.stage = next;
                    },
                    None => {
                        self.error = String::from_str("No audio output device available");
                        self.stage = RunStage::Failed;
                    },
                }
            },
            RunEvent::DeviceConfig(rate, channels) => {
                let config: AudioConfig = audio_config(&self.options, rate, channels);
                out = config.line();
                self.config = config;
                self.stage = next;
            },
            RunEvent::Latency(samples) => {
                if samples > 0 {
                    out = String::from_str("Plugin latency: ");
                    push_digits(&mut out, samples as u64);
                    out.append(" samples\n");
                }
                self.stage = next;
            },
            RunEvent::Parameters(parameters) => {
                out = parameters_lines(self.options.list_params, &parameters);
                self.stage = next;
            },
            RunEvent::Midi(port) => {
                out = Self::line("MIDI input: ", port.as_str(), "\n");
                self.stage = next;
            },
        }
        out
    }
}

/// The device is opened with as many of its channels as there are up to two, so that a stereo
/// device is opened in stereo. What the options ask for goes before what the device has of its
/// own, and a buffer size that is not asked for is left to the device.
pub proof fn lemma_config(options: RunOptions, device_rate: u32, device_channels: u16)
    ensures
        ({
            let config = chosen_config(options, device_rate, device_channels);
            &&& config.channels <= device_channels && config.channels <= 2
            &&& config.channels == device_channels || config.channels == 2
            &&& options.sample_rate matches Some(rate) ==> config.sample_rate == rate
            &&& options.sample_rate is None ==> config.sample_rate == device_rate
            &&& options.buffer_size matches Some(frames) ==> config.buffer_size == frames
            &&& options.buffer_size is None ==> config.buffer_size == 0
        }),
{
}

/// The plugin is told of the buffer size that is asked for, and of 4096 frames where none is. A
/// size that is no positive 32-bit number is told as the one that it is congruent to.
pub proof fn lemma_max_block(config: AudioConfig)
    ensures
        config.buffer_size == 0 ==> config.max_block() == 4096,
        config.buffer_size > 0 ==> i32::MIN <= config.max_block() <= i32::MAX && exists|turns: int|
            config.max_block() == config.buffer_size + #[trigger] (turns * 0x1_0000_0000),
        0 < config.buffer_size <= i32::MAX ==> config.max_block() == config.buffer_size,
{
    if config.buffer_size > 0 {
        let turns: int = if config.buffer_size > i32::MAX {
            -1
        } else {
            0
        };
        assert(config.max_block() == config.buffer_size + turns * 0x1_0000_0000);
    }
}

/// The stages of a session in which nothing fails, in their order.
pub open spec fn stage_order(with_midi: bool) -> Seq<RunStage> {
    seq![
        RunStage::Resolve,
        RunStage::CreateInstance,
        RunStage::CheckSampleSize,
        RunStage::OpenDevice,
        RunStage::ReadDeviceConfig,
        RunStage::SetBusArrangements,
        RunStage::SetupProcessing,
        RunStage::Activate,
        RunStage::StartProcessing,
        RunStage::AskLatency,
        RunStage::InstallHandler,
        RunStage::QueryParameters,
        RunStage::BuildEngine,
    ] + (if with_midi {
        seq![RunStage::OpenMidi]
    } else {
        seq![]
    }) + seq![
        RunStage::CatchInterrupt,
        RunStage::BuildStream,
        RunStage::Play,
        RunStage::Interact,
        RunStage::StopStream,
        RunStage::Pause,
        RunStage::ShutdownEngine,
        RunStage::Finished,
    ]
}

/// The stage that a session has reached after events, given of each whether it let the session
/// go on.
pub open spec fn reached(with_midi: bool, outcomes: Seq<bool>) -> RunStage
    decreases outcomes.len(),
{
    if outcomes.len() == 0 {
        RunStage::Resolve
    } else {
        let stage = reached(with_midi, outcomes.drop_last());
        if stage is Failed || !outcomes.last() {
            RunStage::Failed
        } else {
            next_stage(stage, with_midi)
        }
    }
}

/// A session goes through its stages in their order, up to the first failure. It never goes on
/// after a failure, and it is finished once every stage has been passed.
pub proof fn lemma_run_order(with_midi: bool, outcomes: Seq<bool>)
    requires
        outcomes.len() < stage_order(with_midi).len(),
    ensures
        if forall|i: int| 0 <= i < outcomes.len() ==> outcomes[i] {
            reached(with_midi, outcomes) == stage_order(with_midi)[outcomes.len() as int]
        } else {
            reached(with_midi, outcomes) is Failed
        },
        stage_order(with_midi).last() is Finished,
    decreases outcomes.len(),
{
    if outcomes.len() > 0 {
        let before = outcomes.drop_last();
        lemma_run_order(with_midi, before);
        if forall|i: int| 0 <= i < outcomes.len() ==> outcomes[i] {
            assert forall|i: int| 0 <= i < before.len() implies before[i] by {
                assert(outcomes[i]);
            }
            assert(outcomes[outcomes.len() - 1]);
        } else {
            let i = choose|i: int| 0 <= i < outcomes.len() && !outcomes[i];
            if i < before.len() {
                assert(!before[i]);
            }
        }
    }
}

/// What a session does on an event is what the order of its stages says: it goes on to the next
/// stage, or it fails.
pub proof fn lemma_run_step(session: RunSession, event: RunEvent, outcomes: Seq<bool>)
    requires
        session.expects(event),
        session.stage == reached(session.options.midi is Some, outcomes),
    ensures
        session.after(event) == reached(
            session.options.midi is Some,
            outcomes.push(session.failure(event) is None),
        ),
{
    let next = outcomes.push(session.failure(event) is None);
    assert(next.drop_last() =~= outcomes);
}

/// What comes after what in a session that nothing stops. The plugin is created and its sample size
/// checked before a device is opened. The buses are arranged and the processing is configured with
/// what the device has, before the plugin is activated; it is active before it processes, and it
/// processes before the engine is built. MIDI is opened only where it was asked for. The stream
/// plays before commands are taken, and when those end it is stopped, the last callback is waited
/// for, and only then the engine is shut down.
pub proof fn lemma_what_comes_next(session: RunSession, event: RunEvent)
    requires
        session.expects(event),
        session.failure(event) is None,
    ensures
        ({
            let next = session.after(event);
            &&& session.stage is Resolve ==> next is CreateInstance
            &&& session.stage is CreateInstance ==> next is CheckSampleSize
            &&& session.stage is CheckSampleSize ==> next is OpenDevice
            &&& session.stage is OpenDevice ==> next is ReadDeviceConfig
            &&& session.stage is ReadDeviceConfig ==> next is SetBusArrangements
            &&& session.stage is SetBusArrangements ==> next is SetupProcessing
            &&& session.stage is SetupProcessing ==> next is Activate
            &&& session.stage is Activate ==> next is StartProcessing
            &&& session.stage is StartProcessing ==> next is AskLatency
            &&& session.stage is AskLatency ==> next is InstallHandler
            &&& session.stage is InstallHandler ==> next is QueryParameters
            &&& session.stage is QueryParameters ==> next is BuildEngine
            &&& session.stage is BuildEngine && session.options.midi is Some ==> next is OpenMidi
            &&& session.stage is BuildEngine && session.options.midi is None ==> next
                is CatchInterrupt
            &&& session.stage is OpenMidi ==> next is CatchInterrupt
            &&& session.stage is CatchInterrupt ==> next is BuildStream
            &&& session.stage is BuildStream ==> next is Play
            &&& session.stage is Play ==> next is Interact
            &&& session.stage is Interact ==> next is StopStream
            &&& session.stage is StopStream ==> next is Pause
            &&& session.stage is Pause ==> next is ShutdownEngine
            &&& session.stage is ShutdownEngine ==> next is Finished
        }),
{
}

/// What ends a session, and what it then says: whatever fails but the MIDI input, for its own
/// reason; a plugin without 32-bit processing; and the lack of a device. Nothing else does.
pub proof fn lemma_what_ends_it(session: RunSession, event: RunEvent)
    requires
        session.expects(event),
    ensures
        session.after(event) is Failed <==> session.failure(event) is Some,
        event matches RunEvent::Failed(e) ==> {
            &&& session.stage is OpenMidi ==> session.failure(event) is None
            &&& session.stage is CatchInterrupt ==> session.failure(event) == Some(
                "Failed to set Ctrl+C handler: "@ + e@,
            )
            &&& !(session.stage is OpenMidi) && !(session.stage is CatchInterrupt)
                ==> session.failure(event) == Some(e@)
        },
        event == RunEvent::Supported(false) ==> session.failure(event) == Some(
            "Plugin '"@ + session.class_name@ + "' does not support 32-bit float processing"@,
        ),
        event == RunEvent::Device(None) ==> session.failure(event) == Some(
            "No audio output device available"@,
        ),
        !(event is Failed) && event != RunEvent::Supported(false) && event != RunEvent::Device(
            None,
        ) ==> session.failure(event) is None,
{
}

/// What a session shows: the plugin, the device and its configuration, a latency that is not zero,
/// the parameters where they were asked for, the MIDI port or that it failed, whether there is a
/// test tone, and how it begins and ends.
pub proof fn lemma_what_is_shown(session: RunSession, event: RunEvent)
    requires
        session.expects(event),
    ensures
        ({
            let shown = session.shown(event);
            &&& event matches RunEvent::Resolved(name) ==> shown == "Loading plugin: "@ + name@
                + "\n"@
            &&& event matches RunEvent::Device(Some(name)) ==> shown == "Audio device: "@ + name@
                + "\n"@
            &&& event matches RunEvent::DeviceConfig(rate, channels) ==> shown
                == session.config_after(event).text()
            &&& event matches RunEvent::Latency(n) ==> {
                &&& n > 0 ==> shown == "Plugin latency: "@ + text::digits(n as nat)
                    + " samples\n"@
                &&& n == 0 ==> shown.len() == 0
            }
            &&& event matches RunEvent::Parameters(p) ==> {
                &&& !session.options.list_params ==> shown.len() == 0
                &&& session.options.list_params && p is None ==> shown
                    == "\nPlugin does not expose parameters via IEditController.\n\n"@
                &&& session.options.list_params && p is Some ==> shown == "\nPlugin parameters ("@
                    + text::digits(p->Some_0.count as nat) + "):\n\n"@ + p->Some_0.table@
                    + "\n"@
            }
            &&& event matches RunEvent::Midi(port) ==> shown == "MIDI input: "@ + port@ + "\n"@
            &&& event matches RunEvent::Failed(e) ==> {
                &&& session.stage is OpenMidi ==> shown == "MIDI input: failed ("@ + e@ + ")\n"@
                &&& !(session.stage is OpenMidi) ==> shown.len() == 0
            }
            &&& event is Done ==> {
                &&& session.stage is BuildEngine && session.options.no_tone ==> shown
                    == "Test tone: disabled\n"@
                &&& session.stage is BuildEngine && !session.options.no_tone ==> shown
                    == "Test tone: 440 Hz sine wave\n"@
                &&& session.stage is Play ==> shown
                    == "\nProcessing audio. Type 'help' for commands, 'quit' to stop.\n\n"@
                &&& session.stage is Interact ==> shown == "\nStopping...\n"@
                &&& session.stage is ShutdownEngine ==> shown == "Done.\n"@
                &&& !(session.stage is BuildEngine) && !(session.stage is Play) && !(session.stage
                    is Interact) && !(session.stage is ShutdownEngine) ==> shown.len() == 0
            }
            &&& event is Supported || event == RunEvent::Device(None) ==> shown.len() == 0
        }),
{
}

/// What is shown of a configuration: the rate, the channels, and the buffer size, or that it is the
/// default one.
pub proof fn lemma_config_text(config: AudioConfig)
    ensures
        ({
            let start = "Audio config: "@ + text::digits(config.sample_rate as nat) + " Hz, "@
                + text::digits(config.channels as nat) + " ch, buffer: "@;
            &&& config.buffer_size == 0 ==> config.text() == start + "default"@ + "\n"@
            &&& config.buffer_size > 0 ==> config.text() == start + (text::digits(
                config.buffer_size as nat,
            ) + " frames"@) + "\n"@
        }),
{
}

/// What a session keeps: the configuration that was chosen when the device told its own, and the
/// name that was found. No other event changes them.
pub proof fn lemma_what_is_kept(session: RunSession, event: RunEvent)
    ensures
        event matches RunEvent::DeviceConfig(rate, channels) ==> {
            let config = session.config_after(event);
            &&& config.channels <= channels && config.channels <= 2
            &&& config.channels == channels || config.channels == 2
            &&& config.sample_rate == (match session.options.sample_rate {
                Some(asked) => asked,
                None => rate,
            })
            &&& config.buffer_size == (match session.options.buffer_size {
                Some(asked) => asked,
                None => 0,
            })
        },
        !(event is DeviceConfig) ==> session.config_after(event) == session.config,
        event matches RunEvent::Resolved(name) ==> session.name_after(event) == name@,
        !(event is Resolved) ==> session.name_after(event) == session.class_name@,
{
}

} // verus!
