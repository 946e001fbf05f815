//! An offline rendering from beginning to end: the order in which the plugin is set up, the
//! blocks are processed and the file is written.
//!
//! The session says what to do next and takes what came of it. A failure ends it.

use vstd::prelude::*;
use vstd::string::*;

use crate::com::K_SPEAKER_STEREO;
use crate::render;
use crate::render::{
    note_events, prepare_notes, rendered_line, sort_events, MidiEvent, RenderBlock, RenderNote,
    Rendering,
};
use crate::session;
use crate::session::{loading_line, unsupported};
use crate::text;

verus! {

/// Where a rendering stands: each stage names what has to be done next.
#[derive(Clone, Copy, Debug, PartialEq, Eq, Structural)]
pub enum RenderStage {
    /// Finding the plugin and loading its module.
    Resolve,
    /// Creating the instance.
    CreateInstance,
    /// Asking whether the plugin processes 32-bit samples.
    CheckSampleSize,
    /// Reading the list of notes.
    ReadNotes,
    /// Arranging the buses.
    SetBusArrangements,
    /// Configuring the processing.
    SetupProcessing,
    /// Activating the plugin.
    Activate,
    /// Starting to process.
    StartProcessing,
    /// Building the audio engine, without a test tone.
    BuildEngine,
    /// Working out on which samples the notes start and end, and how many samples there are.
    PlaceNotes,
    /// Handing out the events of the block and processing it.
    Process,
    /// Shutting the engine down.
    ShutdownEngine,
    /// Writing the file.
    WriteFile,
    /// The rendering is over.
    Finished,
    /// The rendering has failed.
    Failed,
}

/// What came of what had to be done.
#[derive(Debug, PartialEq, Eq)]
pub enum RenderEvent {
    /// It was done.
    Done,
    /// It failed, and why.
    Failed(String),
    /// The plugin was found: the name of its class.
    Resolved(String),
    /// Whether the plugin processes 32-bit samples.
    Supported(bool),
    /// The notes that were read.
    Notes(Vec<RenderNote>),
    /// The samples on which each note starts and ends, and the number of samples.
    Placed(Vec<(usize, usize)>, usize),
    /// The file that was written, and how many seconds it lasts, as they are shown.
    Written(String, String),
}

/// A rendering from beginning to end.
#[derive(Debug, PartialEq, Eq)]
pub struct RenderSession {
    /// The sample rate.
    pub sample_rate: u32,
    /// Where the rendering stands.
    pub stage: RenderStage,
    /// The name of the plugin, once it is known.
    pub class_name: String,
    /// The notes by start time, once they are known.
    pub notes: Vec<RenderNote>,
    /// The events by sample, once the notes are placed.
    pub events: Vec<MidiEvent>,
    /// The number of samples, once the notes are placed.
    pub total: usize,
    /// How far the blocks have come.
    pub rendering: Rendering,
    /// The block to process.
    pub block: RenderBlock,
    /// Why the rendering failed, once it has.
    pub error: String,
}

impl RenderSession {
    /// The blocks have not gone too far, and the block to process hands out exactly the events
    /// that fall on its frames.
    pub open spec fn wf(self) -> bool {
        &&& self.rendering.wf(self.events@, self.total as int)
        &&& render::ascending(self.events@)
        &&& self.rendering.in_step(self.events@)
        &&& self.stage is Process ==> {
            &&& self.block.end_event <= self.events@.len()
            &&& render::hands_out_its_events(self.events@, self.block)
        }
    }

    /// The event is one that can come of what has to be done.
    pub open spec fn expects(self, event: RenderEvent) -> bool {
        match self.stage {
            RenderStage::Resolve => event is Resolved || event is Failed,
            RenderStage::CheckSampleSize => event is Supported,
            RenderStage::ReadNotes => event is Notes || event is Failed,
            RenderStage::BuildEngine => event is Done,
            RenderStage::PlaceNotes => event matches RenderEvent::Placed(times, total) && {
                &&& times@.len() == self.notes@.len()
                &&& forall|i: int| 0 <= i < times@.len() ==> (#[trigger] times@[i]).0 < usize::MAX
            },
            RenderStage::Process => event is Done,
            RenderStage::ShutdownEngine => event is Done,
            RenderStage::WriteFile => event is Written || event is Failed,
            RenderStage::Finished => false,
            RenderStage::Failed => false,
            _ => event is Done || event is Failed,
        }
    }

    /// The event ends the rendering, and why.
    pub open spec fn failure(self, event: RenderEvent) -> Option<Seq<char>> {
        match event {
            RenderEvent::Failed(e) => Some(e@),
            RenderEvent::Supported(supported) => if supported {
                None
            } else {
                Some(session::unsupported_text(self.class_name@))
            },
            RenderEvent::Notes(notes) => if notes@.len() == 0 {
                Some("Note list is empty"@)
            } else {
                None
            },
            _ => None,
        }
    }

    /// What is shown on the event.
    pub open spec fn shown(self, event: RenderEvent) -> Seq<char> {
        match event {
            RenderEvent::Resolved(name) => session::loading_text(name@),
            RenderEvent::Written(out, seconds) => render::rendered_text(
                self.notes@.len(),
                out@,
                seconds@,
                self.sample_rate as nat,
            ) + "\n"@,
            _ => Seq::empty(),
        }
    }

    /// The stage after the event. The blocks are processed until there is no frame left.
    pub open spec fn after(self, event: RenderEvent) -> RenderStage {
        if self.failure(event) is Some {
            RenderStage::Failed
        } else {
            match self.stage {
                RenderStage::Resolve => RenderStage::CreateInstance,
                RenderStage::CreateInstance => RenderStage::CheckSampleSize,
                RenderStage::CheckSampleSize => RenderStage::ReadNotes,
                RenderStage::ReadNotes => RenderStage::SetBusArrangements,
                RenderStage::SetBusArrangements => RenderStage::SetupProcessing,
                RenderStage::SetupProcessing => RenderStage::Activate,
                RenderStage::Activate => RenderStage::StartProcessing,
                RenderStage::StartProcessing => RenderStage::BuildEngine,
                RenderStage::BuildEngine => RenderStage::PlaceNotes,
                RenderStage::PlaceNotes => if event matches RenderEvent::Placed(times, total)
                    && total > 0 {
                    RenderStage::Process
                } else {
                    RenderStage::ShutdownEngine
                },
                RenderStage::Process => if self.rendering.cursor < self.total {
                    RenderStage::Process
                } else {
                    RenderStage::ShutdownEngine
                },
                RenderStage::ShutdownEngine => RenderStage::WriteFile,
                RenderStage::WriteFile => RenderStage::Finished,
                RenderStage::Finished => RenderStage::Finished,
                RenderStage::Failed => RenderStage::Failed,
            }
        }
    }

    /// The blocks that have not been processed yet.
    pub open spec fn pending(self) -> Seq<RenderBlock> {
        if self.stage is Process {
            seq![self.block] + self.rendering.blocks(self.events@, self.total as int)
        } else {
            Seq::empty()
        }
    }

    /// The notes, the events and the blocks after the event.
    pub open spec fn contents_after(self, event: RenderEvent, next: RenderSession) -> bool {
        match event {
            RenderEvent::Notes(notes) => {
                &&& notes@.len() > 0 ==> render::by_start_time(notes@, next.notes@)
                &&& notes@.len() == 0 ==> next.notes == self.notes
                &&& next.events == self.events && next.total == self.total
            },
            RenderEvent::Placed(times, total) => {
                &&& next.notes == self.notes
                &&& next.total == total
                &&& exists|unsorted: Seq<MidiEvent>| #[trigger]
                    render::are_note_events(self.notes@, times@, unsorted) && render::by_sample(
                        unsorted,
                        next.events@,
                    )
                &&& render::ascending(next.events@)
                &&& next.pending() == (Rendering { cursor: 0, next_event: 0 }).blocks(
                    next.events@,
                    total as int,
                )
            },
            _ => {
                &&& next.notes == self.notes && next.events == self.events && next.total
                    == self.total
                &&& self.stage is Process ==> self.pending() == seq![self.block] + next.pending()
            },
        }
    }

    /// Begins a rendering.
    pub fn render(sample_rate: u32) -> (r: RenderSession)
        ensures
            r.wf(),
            r.sample_rate == sample_rate,
            r.stage is Resolve,
            r.class_name@.len() == 0,
            r.notes@.len() == 0,
            r.events@.len() == 0,
            r.total == 0,
            r.rendering == (Rendering { cursor: 0, next_event: 0 }),
            r.block == (RenderBlock { start: 0, frames: 0, first_event: 0, end_event: 0 }),
            r.error@.len() == 0,
    {
        RenderSession {
            sample_rate,
            stage: RenderStage::Resolve,
            class_name: String::new(),
            notes: Vec::new(),
            events: Vec::new(),
            total: 0,
            rendering: Rendering::new(),
            block: RenderBlock { start: 0, frames: 0, first_event: 0, end_event: 0 },
            error: String::new(),
        }
    }

    /// The arrangements of the input and the output bus that the plugin is asked for.
    pub fn arrangements(&self) -> (r: (u64, u64))
        ensures
            r.0 == K_SPEAKER_STEREO,
            r.1 == K_SPEAKER_STEREO,
    {
        (K_SPEAKER_STEREO, K_SPEAKER_STEREO)
    }

    /// Where in the block to process an event takes place: the number of frames between the start
    /// of the block and the sample of the event.
    pub fn event_offset(&self, event: usize) -> (offset: usize)
        requires
            self.wf(),
            self.stage is Process,
            self.block.first_event <= event < self.block.end_event,
        ensures
            offset == self.events@[event as int].sample - self.block.start,
            offset < self.block.frames,
    {
        assert(self.events@[event as int].sample >= self.block.start);
        self.events[event].sample - self.block.start
    }

    fn advance(&mut self)
        requires
            old(self).rendering.wf(old(self).events@, old(self).total as int),
            render::ascending(old(self).events@),
            old(self).rendering.in_step(old(self).events@),
        ensures
            final(self).wf(),
            final(self).sample_rate == old(self).sample_rate,
            final(self).class_name == old(self).class_name,
            final(self).notes == old(self).notes,
            final(self).events == old(self).events,
            final(self).total == old(self).total,
            final(self).error == old(self).error,
            final(self).stage == (if old(self).rendering.cursor < old(self).total {
                RenderStage::Process
            } else {
                RenderStage::ShutdownEngine
            }),
            final(self).pending() == old(self).rendering.blocks(
                old(self).events@,
                old(self).total as int,
            ),
    {
        proof {
            assert(self.events@.len() == self.events.len());
            if self.rendering.cursor < self.total {
                render::lemma_block_in_step(self.rendering, self.events@, self.total);
            }
        }
        match self.rendering.next_block(&self.events, self.total) {
            Some(block) => {
                self.block = block;
                self.stage = RenderStage::Process;
            },
            None => {
                self.stage = RenderStage::ShutdownEngine;
            },
        }
    }

    /// Takes what came of what had to be done, and goes on. Returns what is shown.
    pub fn step(&mut self, event: RenderEvent) -> (out: String)
        requires
            old(self).wf(),
            old(self).expects(event),
        ensures
            final(self).wf(),
            out@ == old(self).shown(event),
            final(self).sample_rate == old(self).sample_rate,
            final(self).stage == old(self).after(event),
            old(self).contents_after(event, *final(self)),
            final(self).class_name@ == (match event {
                RenderEvent::Resolved(name) => name@,
                _ => old(self).class_name@,
            }),
            match old(self).failure(event) {
                Some(e) => final(self).error@ == e,
                None => final(self).error == old(self).error,
            },
    {
        let mut out: String = String::new();
        assert(out@ =~= Seq::<char>::empty());
        match event {
            RenderEvent::Done => match self.stage {
                RenderStage::CreateInstance => {
                    self.stage = RenderStage::CheckSampleSize;
                },
                RenderStage::SetBusArrangements => {
                    self.stage = RenderStage::SetupProcessing;
                },
                RenderStage::SetupProcessing => {
                    self.stage = RenderStage::Activate;
                },
                RenderStage::Activate => {
                    self.stage = RenderStage::StartProcessing;
                },
                RenderStage::StartProcessing => {
                    self.stage = RenderStage::BuildEngine;
                },
                RenderStage::BuildEngine => {
                    self.stage = RenderStage::PlaceNotes;
                },
                RenderStage::Process => {
                    self.advance();
                },
                _ => {
                    self.stage = RenderStage::WriteFile;
                },
            },
            RenderEvent::Failed(e) => {
                self.error = e;
                self.stage = RenderStage::Failed;
            },
            RenderEvent::Resolved(name) => {
                out = loading_line(name.as_str());
                self.class_name = name;
                self.stage = RenderStage::CreateInstance;
            },
            RenderEvent::Supported(supported) => {
                if supported {
                    self.stage = RenderStage::ReadNotes;
                } else {
                    self.error = unsupported(self.class_name.as_str());
                    self.stage = RenderStage::Failed;
                }
            },
            RenderEvent::Notes(notes) => {
                match prepare_notes(&notes) {
                    Ok(sorted) => {
                        self.notes = sorted;
                        self.stage = RenderStage::SetBusArrangements;
                    },
                    Err(e) => {
                        self.error = e;
                        self.stage = RenderStage::Failed;
                    },
                }
            },
            RenderEvent::Placed(times, total) => {
                let unsorted: Vec<MidiEvent> = note_events(&self.notes, &times);
                self.events = sort_events(&unsorted);
                self.total = total;
                self.rendering = Rendering::new();
                self.advance();
                assert(render::are_note_events(old(self).notes@, times@, unsorted@));
            },
            RenderEvent::Written(file, seconds) => {
                out = rendered_line(
                    self.notes.len(),
                    file.as_str(),
                    seconds.as_str(),
                    self.sample_rate,
                );
                out.append("\n");
                self.stage = RenderStage::Finished;
            },
        }
        out
    }
}

/// The stages that a rendering passes before the first block, in their order.
pub open spec fn setup_order() -> Seq<RenderStage> {
    seq![
        RenderStage::Resolve,
        RenderStage::CreateInstance,
        RenderStage::CheckSampleSize,
        RenderStage::ReadNotes,
        RenderStage::SetBusArrangements,
        RenderStage::SetupProcessing,
        RenderStage::Activate,
        RenderStage::StartProcessing,
        RenderStage::BuildEngine,
        RenderStage::PlaceNotes,
    ]
}

/// The plugin is set up in a fixed order before the first block: an event leads from one stage to
/// the next one, or the rendering has failed.
pub proof fn lemma_setup_order(session: RenderSession, event: RenderEvent, position: int)
    requires
        0 <= position < setup_order().len() - 1,
        session.stage == setup_order()[position],
        session.expects(event),
    ensures
        session.after(event) == (if session.failure(event) is Some {
            RenderStage::Failed
        } else {
            setup_order()[position + 1]
        }),
{
}

/// The blocks are processed in their order, each of them once: the block at hand is the first one
/// that is pending, the others stay pending, and the engine is shut down when none is left.
pub proof fn lemma_blocks_in_order(session: RenderSession, next: RenderSession)
    requires
        session.wf(),
        session.stage is Process,
        next.stage == session.after(RenderEvent::Done),
        session.contents_after(RenderEvent::Done, next),
    ensures
        session.pending().first() == session.block,
        next.pending() == session.pending().drop_first(),
        next.stage is ShutdownEngine <==> next.pending().len() == 0,
{
    assert(next.pending() =~= session.pending().drop_first());
}

/// What comes after what in a rendering that nothing stops, up to the file. The notes are read
/// before the plugin is set up; it is activated before it processes; blocks are processed while
/// frames are left, and the engine is shut down before the file is written.
pub proof fn lemma_what_comes_next(session: RenderSession, event: RenderEvent)
    requires
        session.expects(event),
        session.failure(event) is None,
    ensures
        ({
            let next = session.after(event);
            &&& session.stage is Resolve ==> next is CreateInstance
            &&& session.stage is CreateInstance ==> next is CheckSampleSize
            &&& session.stage is CheckSampleSize ==> next is ReadNotes
            &&& session.stage is ReadNotes ==> next is SetBusArrangements
            &&& session.stage is SetBusArrangements ==> next is SetupProcessing
            &&& session.stage is SetupProcessing ==> next is Activate
            &&& session.stage is Activate ==> next is StartProcessing
            &&& session.stage is StartProcessing ==> next is BuildEngine
            &&& session.stage is BuildEngine ==> next is PlaceNotes
            &&& event matches RenderEvent::Placed(times, total) ==> (next is Process <==> total > 0)
                && (next is ShutdownEngine <==> total == 0)
            &&& session.stage is Process ==> (next is Process <==> session.rendering.cursor
                < session.total) && (next is ShutdownEngine <==> session.rendering.cursor
                >= session.total)
            &&& session.stage is ShutdownEngine ==> next is WriteFile
            &&& session.stage is WriteFile ==> next is Finished
        }),
{
}

/// What ends a rendering, and what it then says: whatever fails, for its own reason; a plugin
/// without 32-bit processing; and a list without notes. Nothing else does. What it shows is which
/// plugin it loads and what it has rendered.
pub proof fn lemma_what_ends_it(session: RenderSession, event: RenderEvent)
    requires
        session.expects(event),
    ensures
        session.after(event) is Failed <==> session.failure(event) is Some,
        event matches RenderEvent::Failed(e) ==> session.failure(event) == Some(e@),
        event == RenderEvent::Supported(false) ==> session.failure(event) == Some(
            "Plugin '"@ + session.class_name@ + "' does not support 32-bit float processing"@,
        ),
        event matches RenderEvent::Notes(notes) ==> {
            &&& notes@.len() == 0 ==> session.failure(event) == Some("Note list is empty"@)
            &&& notes@.len() > 0 ==> session.failure(event) is None
        },
        !(event is Failed) && event != RenderEvent::Supported(false) && !(event is Notes)
            ==> session.failure(event) is None,
        event matches RenderEvent::Resolved(name) ==> session.shown(event) == "Loading plugin: "@
            + name@ + "\n"@,
        event matches RenderEvent::Written(out, seconds) ==> session.shown(event) == (
        "Rendered "@ + text::digits(session.notes@.len()) + " notes → "@ + out@ + " ("@ + seconds@
            + "s at "@ + text::digits(session.sample_rate as nat) + " Hz)"@) + "\n"@,
        !(event is Resolved) && !(event is Written) ==> session.shown(event).len() == 0,
{
}

/// The notes of a list are all kept, each of them once, in the order in which they start.
pub proof fn lemma_notes_kept(session: RenderSession, notes: Vec<RenderNote>, next: RenderSession)
    requires
        notes@.len() > 0,
        session.contents_after(RenderEvent::Notes(notes), next),
    ensures
        next.notes@.to_multiset() == notes@.to_multiset(),
        forall|i: int, j: int|
            0 <= i <= j < next.notes@.len() ==> render::total_rank(next.notes@[i].start_time_bits)
                <= render::total_rank(next.notes@[j].start_time_bits),
{
    render::lemma_notes_sorted(notes@, next.notes@);
}

/// Every note of a rendering is played: on the sample that it starts on there is an event that
/// strikes it, and one that lets it go on the sample that it ends on, or on the one after its start
/// where it would end no later than it starts. There are no other events, and the blocks that are
/// then due cover every frame.
pub proof fn lemma_notes_played(
    session: RenderSession,
    times: Vec<(usize, usize)>,
    total: usize,
    next: RenderSession,
    i: int,
)
    requires
        session.contents_after(RenderEvent::Placed(times, total), next),
        0 <= i < session.notes@.len(),
        times@.len() == session.notes@.len(),
        next.events@.len() <= usize::MAX,
    ensures
        next.events@.len() == 2 * session.notes@.len(),
        exists|on: int|
            0 <= on < next.events@.len() && {
                let event = #[trigger] next.events@[on];
                &&& event.sample == times@[i].0
                &&& event.message@[0] == 0x90
                &&& event.message@[1] == session.notes@[i].pitch
                &&& 1 <= session.notes@[i].velocity <= 127 ==> event.message@[2]
                    == session.notes@[i].velocity
            },
        exists|off: int|
            0 <= off < next.events@.len() && {
                let event = #[trigger] next.events@[off];
                &&& times@[i].1 > times@[i].0 ==> event.sample == times@[i].1
                &&& times@[i].1 <= times@[i].0 ==> event.sample == times@[i].0 + 1
                &&& event.message@ == seq![0x80u8, session.notes@[i].pitch, 0u8]
            },
        next.total == total,
        render::tile(next.pending(), 0, total as int),
{
    let unsorted = choose|unsorted: Seq<MidiEvent>| #[trigger]
        render::are_note_events(session.notes@, times@, unsorted) && render::by_sample(
            unsorted,
            next.events@,
        );
    render::lemma_note_sounds(session.notes@, times@, unsorted, i);
    render::lemma_events_sorted(unsorted, next.events@);
    render::lemma_events_stable(unsorted, next.events@);
    lemma_kept(unsorted, next.events@, 2 * i);
    lemma_kept(unsorted, next.events@, 2 * i + 1);
    render::lemma_rendering(next.events@, total);
}

proof fn lemma_kept(a: Seq<MidiEvent>, b: Seq<MidiEvent>, i: int)
    requires
        a.to_multiset() == b.to_multiset(),
        0 <= i < a.len(),
    ensures
        exists|j: int| 0 <= j < b.len() && #[trigger] b[j] == a[i],
{
    broadcast use vstd::seq_lib::group_to_multiset_ensures;

    assert(a.contains(a[i]));
    assert(b.to_multiset().count(a[i]) > 0);
    assert(b.contains(a[i]));
}

} // verus!
