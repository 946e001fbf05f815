//! The commands that the user can give, and the task that each of them stands for.
//!
//! Paths have a type of the caller's choice, since a path need not be text.

use vstd::prelude::*;
use vstd::string::*;

use crate::session::RunOptions;

verus! {

/// The command line.
#[derive(Debug, PartialEq, Eq)]
pub struct Cli<P> {
    pub command: Command<P>,
}

/// A command.
#[derive(Debug, PartialEq, Eq)]
pub enum Command<P> {
    /// Scan for plugins. Where paths are given, only those are searched.
    Scan { paths: Vec<P> },
    /// Manage the persistent scan paths.
    ScanPaths { action: ScanPathsAction<P> },
    /// List the plugins in the cache.
    List,
    /// Load and run a plugin.
    Run {
        plugin: String,
        device: Option<String>,
        midi: Option<String>,
        sample_rate: Option<u32>,
        buffer_size: Option<u32>,
        no_tone: bool,
        list_params: bool,
    },
    /// Render a list of notes to a file. The tail is the bit pattern of a 64-bit floating-point
    /// number of seconds.
    Render { plugin: String, notes: P, out: P, sample_rate: u32, tail_bits: u64 },
    /// List the audio output devices.
    Devices,
    /// List the MIDI input ports.
    MidiPorts,
    /// Launch the graphical user interface.
    Gui { paths: Vec<P>, safe_mode: bool, malloc_debug: bool, in_process: bool },
    /// Run as a plugin worker.
    Worker { socket: String },
    /// Run as the worker of the user interface.
    GuiWorker { socket: String, safe_mode: bool, malloc_debug: bool },
    /// Run as the audio worker.
    AudioWorker { socket: String, paths: Vec<P>, safe_mode: bool, malloc_debug: bool },
}

/// What to do with the persistent scan paths.
#[derive(Debug, PartialEq, Eq)]
pub enum ScanPathsAction<P> {
    /// Add a directory.
    Add { dir: P },
    /// Remove a directory.
    Remove { dir: P },
    /// List them.
    List,
}

/// A task of the host.
#[derive(Debug, PartialEq, Eq)]
pub enum Task<P> {
    /// Scan, in these paths alone where there are any.
    Scan(Vec<P>),
    /// Add a persistent scan path.
    AddScanPath(P),
    /// Remove a persistent scan path.
    RemoveScanPath(P),
    /// List the persistent scan paths.
    ListScanPaths,
    /// List the plugins in the cache.
    ListPlugins,
    /// Run a plugin on an output device.
    Run { plugin: String, device: Option<String>, options: RunOptions },
    /// Render a list of notes to a file.
    Render { plugin: String, notes: P, out: P, sample_rate: u32, tail_bits: u64 },
    /// List the audio output devices.
    ListDevices,
    /// List the MIDI input ports.
    ListMidiPorts,
    /// Launch the user interface: in this process, or in one of its own that is watched over. The
    /// instructions for debugging the heap are printed first where heap diagnostics are on.
    LaunchGui {
        paths: Vec<P>,
        safe_mode: bool,
        malloc_debug: bool,
        supervised: bool,
        print_instructions: bool,
    },
    /// Run as a plugin worker.
    Worker { socket: String },
    /// Run as the worker of the user interface.
    GuiWorker { socket: String, safe_mode: bool, malloc_debug: bool },
    /// Run as the audio worker.
    AudioWorker { socket: String, paths: Vec<P>, safe_mode: bool, malloc_debug: bool },
}

/// The task that a command stands for.
pub open spec fn task_of<P>(command: Command<P>) -> Task<P> {
    match command {
        Command::Scan { paths } => Task::Scan(paths),
        Command::ScanPaths { action } => match action {
            ScanPathsAction::Add { dir } => Task::AddScanPath(dir),
            ScanPathsAction::Remove { dir } => Task::RemoveScanPath(dir),
            ScanPathsAction::List => Task::ListScanPaths,
        },
        Command::List => Task::ListPlugins,
        Command::Run {
            plugin,
            device,
            midi,
            sample_rate,
            buffer_size,
            no_tone,
            list_params,
        } => Task::Run {
            plugin,
            device,
            options: RunOptions { midi, sample_rate, buffer_size, no_tone, list_params },
        },
        Command::Render { plugin, notes, out, sample_rate, tail_bits } => Task::Render {
            plugin,
            notes,
            out,
            sample_rate,
            tail_bits,
        },
        Command::Devices => Task::ListDevices,
        Command::MidiPorts => Task::ListMidiPorts,
        Command::Gui { paths, safe_mode, malloc_debug, in_process } => Task::LaunchGui {
            paths,
            safe_mode,
            malloc_debug,
            supervised: !in_process,
            print_instructions: malloc_debug,
        },
        Command::Worker { socket } => Task::Worker { socket },
        Command::GuiWorker { socket, safe_mode, malloc_debug } => Task::GuiWorker {
            socket,
            safe_mode,
            malloc_debug,
        },
        Command::AudioWorker { socket, paths, safe_mode, malloc_debug } => Task::AudioWorker {
            socket,
            paths,
            safe_mode,
            malloc_debug,
        },
    }
}

impl<P> Cli<P> {
    /// The task that the command line asks for.
    pub fn task(self) -> (task: Task<P>)
        ensures
            task == task_of(self.command),
    {
        match self.command {
            Command::Scan { paths } => Task::Scan(paths),
            Command::ScanPaths { action } => match action {
                ScanPathsAction::Add { dir } => Task::AddScanPath(dir),
                ScanPathsAction::Remove { dir } => Task::RemoveScanPath(dir),
                ScanPathsAction::List => Task::ListScanPaths,
            },
            Command::List => Task::ListPlugins,
            Command::Run {
                plugin,
                device,
                midi,
                sample_rate,
                buffer_size,
                no_tone,
                list_params,
            } => Task::Run {
                plugin,
                device,
                options: RunOptions { midi, sample_rate, buffer_size, no_tone, list_params },
            },
            Command::Render { plugin, notes, out, sample_rate, tail_bits } => Task::Render {
                plugin,
                notes,
                out,
                sample_rate,
                tail_bits,
            },
            Command::Devices => Task::ListDevices,
            Command::MidiPorts => Task::ListMidiPorts,
            Command::Gui { paths, safe_mode, malloc_debug, in_process } => Task::LaunchGui {
                paths,
                safe_mode,
                malloc_debug,
                supervised: !in_process,
                print_instructions: malloc_debug,
            },
            Command::Worker { socket } => Task::Worker { socket },
            Command::GuiWorker { socket, safe_mode, malloc_debug } => Task::GuiWorker {
                socket,
                safe_mode,
                malloc_debug,
            },
            Command::AudioWorker { socket, paths, safe_mode, malloc_debug } => Task::AudioWorker {
                socket,
                paths,
                safe_mode,
                malloc_debug,
            },
        }
    }
}

/// Every command leads to its own task, which is given all that the command says. The user
/// interface runs in a process of its own unless it is asked for in this one, and the instructions
/// for debugging the heap are printed exactly where heap diagnostics are on.
pub proof fn lemma_task_of<P>(command: Command<P>)
    ensures
        ({
            let task = task_of(command);
            &&& command matches Command::Scan { paths: p } ==> (task matches Task::Scan(paths)
                && paths == p)
            &&& command matches Command::ScanPaths { action: ScanPathsAction::Add { dir: d } } ==> (
            task matches Task::AddScanPath(dir) && dir == d)
            &&& command matches Command::ScanPaths { action: ScanPathsAction::Remove { dir: d } }
                ==> (task matches Task::RemoveScanPath(dir) && dir == d)
            &&& command matches Command::ScanPaths { action: ScanPathsAction::List } ==> task
                is ListScanPaths
            &&& command is List ==> task is ListPlugins
            &&& command matches Command::Run {
                plugin: p,
                device: d,
                midi,
                sample_rate,
                buffer_size,
                no_tone,
                list_params,
            } ==> (task matches Task::Run { plugin, device, options } && {
                &&& plugin == p
                &&& device == d
                &&& options.midi == midi
                &&& options.sample_rate == sample_rate
                &&& options.buffer_size == buffer_size
                &&& options.no_tone == no_tone
                &&& options.list_params == list_params
            })
            &&& command matches Command::Render {
                plugin: p,
                notes: n,
                out: o,
                sample_rate: r,
                tail_bits: t,
            } ==> (task matches Task::Render { plugin, notes, out, sample_rate, tail_bits } && {
                &&& plugin == p
                &&& notes == n
                &&& out == o
                &&& sample_rate == r
                &&& tail_bits == t
            })
            &&& command is Devices ==> task is ListDevices
            &&& command is MidiPorts ==> task is ListMidiPorts
            &&& command matches Command::Gui {
                paths: p,
                safe_mode: s,
                malloc_debug: m,
                in_process,
            } ==> (task matches Task::LaunchGui {
                paths,
                safe_mode,
                malloc_debug,
                supervised,
                print_instructions,
            } && {
                &&& paths == p
                &&& safe_mode == s
                &&& malloc_debug == m
                &&& supervised != in_process
                &&& print_instructions == m
            })
            &&& command matches Command::Worker { socket: s } ==> (task matches Task::Worker {
                socket,
            } && socket == s)
            &&& command matches Command::GuiWorker { socket: s, safe_mode: f, malloc_debug: m } ==> (
            task matches Task::GuiWorker { socket, safe_mode, malloc_debug } && socket == s
                && safe_mode == f && malloc_debug == m)
            &&& command matches Command::AudioWorker {
                socket: s,
                paths: p,
                safe_mode: f,
                malloc_debug: m,
            } ==> (task matches Task::AudioWorker { socket, paths, safe_mode, malloc_debug }
                && socket == s && paths == p && safe_mode == f && malloc_debug == m)
        }),
{
}

} // verus!
