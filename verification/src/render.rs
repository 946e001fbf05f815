//! Offline rendering of a list of notes: the events that the notes give rise to, and the blocks
//! in which they reach the plugin.
//!
//! Times are floating-point numbers, which are carried by their bit patterns. What depends on
//! their value, such as the sample that a time falls on, is worked out by the caller.

use vstd::prelude::*;
use vstd::string::*;

use crate::sorting;
use crate::sorting::stable_order;
use crate::text;
use crate::text::push_digits;

verus! {

/// The largest number of frames in a block.
pub const BLOCK: usize = 512;

/// The number of channels that are rendered.
pub const CHANNELS: usize = 2;

/// The status byte of a note-on message.
pub const NOTE_ON: u8 = 0x90;

/// The status byte of a note-off message.
pub const NOTE_OFF: u8 = 0x80;

/// A note of the list.
#[derive(Clone, Copy, Debug, PartialEq, Eq, Structural)]
pub struct RenderNote {
    /// The pitch.
    pub pitch: u8,
    /// The velocity.
    pub velocity: u8,
    /// When the note starts, in seconds: the bit pattern of a 64-bit floating-point number.
    pub start_time_bits: u64,
    /// How long it lasts, in seconds: the bit pattern of a 64-bit floating-point number.
    pub duration_bits: u64,
}

/// The velocity of a note that states none.
pub fn default_velocity() -> (v: u8)
    ensures
        v == 100,
{
    100
}

/// The place of a 64-bit floating-point number, given by its bit pattern, in the total order of
/// such numbers: the positive ones ascend with their bit patterns, and the negative ones, which
/// have the uppermost bit set, descend below them.
pub open spec fn total_rank(bits: u64) -> int {
    if bits < 0x8000_0000_0000_0000 {
        bits as int
    } else {
        0x8000_0000_0000_0000 - 1 - bits
    }
}

/// The places of the start times of the notes.
pub open spec fn start_ranks(notes: Seq<RenderNote>) -> Seq<i128> {
    notes.map_values(|note: RenderNote| total_rank(note.start_time_bits) as i128)
}

/// The notes by start time. Notes that start together keep their order.
pub open spec fn by_start_time(notes: Seq<RenderNote>, r: Seq<RenderNote>) -> bool {
    exists|order: Seq<usize>| #[trigger]
        sorting::is_stable_order(start_ranks(notes), order) && r == sorting::arranged(notes, order)
}

/// Puts the notes in the order in which they start. A list without notes is refused.
pub fn prepare_notes(notes: &Vec<RenderNote>) -> (r: Result<Vec<RenderNote>, String>)
    ensures
        match r {
            Ok(sorted) => notes@.len() > 0 && by_start_time(notes@, sorted@),
            Err(e) => notes@.len() == 0 && e@ == "Note list is empty"@,
        },
{
    if notes.len() == 0 {
        return Err(String::from_str("Note list is empty"));
    }
    let mut ranks: Vec<i128> = Vec::new();
    while ranks.len() < notes.len()
        invariant
            ranks@.len() <= notes@.len(),
            forall|i: int|
                0 <= i < ranks@.len() ==> #[trigger] ranks@[i] == total_rank(
                    notes@[i].start_time_bits,
                ),
        decreases notes@.len() - ranks@.len(),
    {
        let bits: u64 = notes[ranks.len()].start_time_bits;
        let rank: i128 = if bits < 0x8000_0000_0000_0000 {
            bits as i128
        } else {
            0x7fff_ffff_ffff_ffff - bits as i128
        };
        ranks.push(rank);
    }
    assert(ranks@ =~= start_ranks(notes@));
    let order: Vec<usize> = stable_order(&ranks);
    let mut sorted: Vec<RenderNote> = Vec::new();
    while sorted.len() < order.len()
        invariant
            order@.len() == notes@.len(),
            forall|i: int| 0 <= i < order@.len() ==> #[trigger] order@[i] < notes@.len(),
            sorted@.len() <= order@.len(),
            forall|i: int|
                0 <= i < sorted@.len() ==> #[trigger] sorted@[i] == notes@[order@[i] as int],
        decreases order@.len() - sorted@.len(),
    {
        sorted.push(notes[order[sorted.len()]]);
    }
    assert(sorted@ =~= sorting::arranged(notes@, order@));
    Ok(sorted)
}

/// A message to the plugin at a sample.
#[derive(Clone, Copy, Debug, PartialEq, Eq)]
pub struct MidiEvent {
    /// The sample.
    pub sample: usize,
    /// The status byte and two data bytes.
    pub message: [u8; 3],
}

impl MidiEvent {
    /// What the event says.
    pub open spec fn says(self, sample: int, status: u8, data1: u8, data2: u8) -> bool {
        self.sample == sample && self.message@ == seq![status, data1, data2]
    }
}

/// A velocity within the range of a note-on message, in which zero would mean note-off.
pub open spec fn clamped_velocity(velocity: u8) -> u8 {
    if velocity < 1 {
        1
    } else if velocity > 127 {
        127
    } else {
        velocity
    }
}

/// Where a note ends: not before the sample after its start.
pub open spec fn end_sample(on: usize, off: usize) -> int {
    if off > on {
        off as int
    } else {
        on + 1
    }
}

/// The events that the notes give rise to, an on and an off for each.
pub open spec fn are_note_events(
    notes: Seq<RenderNote>,
    times: Seq<(usize, usize)>,
    events: Seq<MidiEvent>,
) -> bool {
    &&& events.len() == 2 * notes.len()
    &&& forall|i: int|
        #![trigger notes[i]]
        0 <= i < notes.len() ==> {
            &&& events[2 * i].says(
                times[i].0 as int,
                NOTE_ON,
                notes[i].pitch,
                clamped_velocity(notes[i].velocity),
            )
            &&& events[2 * i + 1].says(
                end_sample(times[i].0, times[i].1),
                NOTE_OFF,
                notes[i].pitch,
                0,
            )
        }
}

fn clamp_velocity(velocity: u8) -> (v: u8)
    ensures
        v == clamped_velocity(velocity),
{
    if velocity < 1 {
        1
    } else if velocity > 127 {
        127
    } else {
        velocity
    }
}

fn event(sample: usize, status: u8, data1: u8, data2: u8) -> (e: MidiEvent)
    ensures
        e.says(sample as int, status, data1, data2),
{
    let e = MidiEvent { sample, message: [status, data1, data2] };
    assert(e.message@ =~= seq![status, data1, data2]);
    e
}

/// Makes the events of the notes, given the samples on which each note starts and ends.
pub fn note_events(notes: &Vec<RenderNote>, times: &Vec<(usize, usize)>) -> (events: Vec<MidiEvent>)
    requires
        times@.len() == notes@.len(),
        forall|i: int| 0 <= i < times@.len() ==> (#[trigger] times@[i]).0 < usize::MAX,
    ensures
        are_note_events(notes@, times@, events@),
        forall|i: int|
            #![trigger times@[i]]
            0 <= i < times@.len() ==> {
                &&& events@[2 * i].sample == times@[i].0
                &&& times@[i].1 > times@[i].0 ==> events@[2 * i + 1].sample == times@[i].1
                &&& times@[i].1 <= times@[i].0 ==> events@[2 * i + 1].sample == times@[i].0 + 1
            },
{
    let mut events: Vec<MidiEvent> = Vec::new();
    let mut n: usize = 0;
    while n < notes.len()
        invariant
            n <= notes@.len(),
            times@.len() == notes@.len(),
            forall|i: int| 0 <= i < times@.len() ==> (#[trigger] times@[i]).0 < usize::MAX,
            are_note_events(notes@.take(n as int), times@, events@),
        decreases notes@.len() - n,
    {
        let note: RenderNote = notes[n];
        let (on, off): (usize, usize) = times[n];
        let end: usize = if off > on {
            off
        } else {
            on + 1
        };
        let ghost before = events@;
        events.push(event(on, NOTE_ON, note.pitch, clamp_velocity(note.velocity)));
        events.push(event(end, NOTE_OFF, note.pitch, 0));
        proof {
            assert forall|i: int| 0 <= i < n + 1 implies {
                &&& events@[2 * i].says(
                    times@[i].0 as int,
                    NOTE_ON,
                    (#[trigger] notes@.take(n + 1)[i]).pitch,
                    clamped_velocity(notes@[i].velocity),
                )
                &&& events@[2 * i + 1].says(
                    end_sample(times@[i].0, times@[i].1),
                    NOTE_OFF,
                    notes@[i].pitch,
                    0,
                )
            } by {
                if i < n {
                    assert(notes@.take(n as int)[i] == notes@[i]);
                    assert(events@[2 * i] == before[2 * i]);
                    assert(events@[2 * i + 1] == before[2 * i + 1]);
                }
            }
        }
        n = n + 1;
    }
    proof {
        assert(notes@.take(n as int) =~= notes@);
        assert forall|i: int|
            #![trigger times@[i]]
            0 <= i < times@.len() implies {
            &&& events@[2 * i].sample == times@[i].0
            &&& times@[i].1 > times@[i].0 ==> events@[2 * i + 1].sample == times@[i].1
            &&& times@[i].1 <= times@[i].0 ==> events@[2 * i + 1].sample == times@[i].0 + 1
        } by {
            lemma_note_sounds(notes@, times@, events@, i);
        }
    }
    events
}

/// The samples of the events.
pub open spec fn samples(events: Seq<MidiEvent>) -> Seq<i128> {
    events.map_values(|e: MidiEvent| e.sample as i128)
}

/// The events by sample. Events on the same sample keep their order.
pub open spec fn by_sample(events: Seq<MidiEvent>, r: Seq<MidiEvent>) -> bool {
    exists|order: Seq<usize>| #[trigger]
        sorting::is_stable_order(samples(events), order) && r == sorting::arranged(events, order)
}

/// No event comes before an earlier one.
pub open spec fn ascending(events: Seq<MidiEvent>) -> bool {
    forall|i: int, j: int| 0 <= i <= j < events.len() ==> events[i].sample <= events[j].sample
}

/// Puts events in the order in which they take place.
pub fn sort_events(events: &Vec<MidiEvent>) -> (r: Vec<MidiEvent>)
    ensures
        by_sample(events@, r@),
        ascending(r@),
{
    let mut keys: Vec<i128> = Vec::new();
    while keys.len() < events.len()
        invariant
            keys@.len() <= events@.len(),
            forall|i: int| 0 <= i < keys@.len() ==> #[trigger] keys@[i] == events@[i].sample,
        decreases events@.len() - keys@.len(),
    {
        keys.push(events[keys.len()].sample as i128);
    }
    assert(keys@ =~= samples(events@));
    let order: Vec<usize> = stable_order(&keys);
    let mut sorted: Vec<MidiEvent> = Vec::new();
    while sorted.len() < order.len()
        invariant
            order@.len() == events@.len(),
            forall|i: int| 0 <= i < order@.len() ==> #[trigger] order@[i] < events@.len(),
            sorted@.len() <= order@.len(),
            forall|i: int|
                0 <= i < sorted@.len() ==> #[trigger] sorted@[i] == events@[order@[i] as int],
        decreases order@.len() - sorted@.len(),
    {
        sorted.push(events[order[sorted.len()]]);
    }
    proof {
        assert(sorted@ =~= sorting::arranged(events@, order@));
        assert forall|i: int, j: int| 0 <= i <= j < sorted@.len() implies sorted@[i].sample
            <= sorted@[j].sample by {
            if i < j {
                assert(sorting::comes_before(keys@, order@[i] as int, order@[j] as int));
            }
        }
    }
    sorted
}

/// One block: its frames, and the events to hand out before it is processed.
#[derive(Clone, Copy, Debug, PartialEq, Eq, Structural)]
pub struct RenderBlock {
    /// The first frame.
    pub start: usize,
    /// The number of frames.
    pub frames: usize,
    /// The first event to hand out.
    pub first_event: usize,
    /// The event after the last one to hand out.
    pub end_event: usize,
}

/// How far a rendering has come.
#[derive(Clone, Copy, Debug, PartialEq, Eq, Structural)]
pub struct Rendering {
    /// The frames that have been rendered.
    pub cursor: usize,
    /// The events that have been handed out.
    pub next_event: usize,
}

/// The events from `first` on that fall before a frame: where they end.
pub open spec fn events_end(events: Seq<MidiEvent>, first: int, before: int) -> int
    decreases events.len() - first,
{
    if 0 <= first < events.len() && events[first].sample < before {
        events_end(events, first + 1, before)
    } else {
        first
    }
}

impl Rendering {
    /// The rendering has not gone too far.
    pub open spec fn wf(self, events: Seq<MidiEvent>, total: int) -> bool {
        self.cursor <= total && self.next_event <= events.len()
    }

    /// The events that have been handed out are those that fall on the frames that have been
    /// rendered.
    pub open spec fn in_step(self, events: Seq<MidiEvent>) -> bool {
        forall|j: int|
            0 <= j < events.len() ==> (j < self.next_event <==> (#[trigger] events[j]).sample
                < self.cursor)
    }

    /// The block that is due.
    pub open spec fn block(self, events: Seq<MidiEvent>, total: int) -> RenderBlock {
        let frames = if total - self.cursor < BLOCK {
            total - self.cursor
        } else {
            BLOCK as int
        };
        RenderBlock {
            start: self.cursor,
            frames: frames as usize,
            first_event: self.next_event,
            end_event: events_end(
                events,
                self.next_event as int,
                self.cursor + frames,
            ) as usize,
        }
    }

    /// The rendering after a block.
    pub open spec fn after(self, block: RenderBlock) -> Rendering {
        Rendering { cursor: (self.cursor + block.frames) as usize, next_event: block.end_event }
    }

    /// All blocks that are due from here on.
    pub open spec fn blocks(self, events: Seq<MidiEvent>, total: int) -> Seq<RenderBlock>
        decreases total - self.cursor,
        when self.wf(events, total) && total <= usize::MAX
    {
        if self.cursor < total {
            let block = self.block(events, total);
            seq![block] + self.after(block).blocks(events, total)
        } else {
            Seq::empty()
        }
    }

    /// A rendering that begins.
    pub fn new() -> (r: Rendering)
        ensures
            r.cursor == 0,
            r.next_event == 0,
    {
        Rendering { cursor: 0, next_event: 0 }
    }

    /// Gives the block that is due, until all frames are rendered.
    pub fn next_block(&mut self, events: &Vec<MidiEvent>, total: usize) -> (r: Option<RenderBlock>)
        requires
            old(self).wf(events@, total as int),
        ensures
            final(self).wf(events@, total as int),
            if old(self).cursor < total {
                let block = old(self).block(events@, total as int);
                r == Some(block) && *final(self) == old(self).after(block)
            } else {
                r is None && *final(self) == *old(self)
            },
    {
        if self.cursor >= total {
            return None;
        }
        let rest: usize = total - self.cursor;
        let frames: usize = if rest < BLOCK {
            rest
        } else {
            BLOCK
        };
        let start: usize = self.cursor;
        let end: usize = start + frames;
        let first_event: usize = self.next_event;
        let mut event: usize = first_event;
        while event < events.len() && events[event].sample < end
            invariant
                first_event <= event <= events@.len(),
                events_end(events@, first_event as int, end as int) == events_end(
                    events@,
                    event as int,
                    end as int,
                ),
            decreases events@.len() - event,
        {
            event = event + 1;
        }
        self.cursor = end;
        self.next_event = event;
        Some(RenderBlock { start, frames, first_event, end_event: event })
    }
}

/// The text that says what was rendered. The number of seconds is given as it is to be shown.
pub open spec fn rendered_text(
    notes: nat,
    out: Seq<char>,
    seconds: Seq<char>,
    sample_rate: nat,
) -> Seq<char> {
    "Rendered "@ + text::digits(notes) + " notes → "@ + out + " ("@ + seconds + "s at "@
        + text::digits(sample_rate) + " Hz)"@
}

/// Says what was rendered.
pub fn rendered_line(notes: usize, out: &str, seconds: &str, sample_rate: u32) -> (line: String)
    ensures
        line@ == rendered_text(notes as nat, out@, seconds@, sample_rate as nat),
{
    let mut line: String = String::from_str("Rendered ");
    push_digits(&mut line, notes as u64);
    line.append(" notes → ");
    line.append(out);
    line.append(" (");
    line.append(seconds);
    line.append("s at ");
    push_digits(&mut line, sample_rate as u64);
    line.append(" Hz)");
    line
}

/// A note sounds from the sample that it starts on to the one that it ends on, and for one sample
/// where it would end no later than it starts. It is struck with its own pitch and velocity, but
/// for a velocity of zero, which becomes one, and one above 127, which becomes 127; it is let go
/// with the same pitch. Nothing else is played.
pub proof fn lemma_note_sounds(
    notes: Seq<RenderNote>,
    times: Seq<(usize, usize)>,
    events: Seq<MidiEvent>,
    i: int,
)
    requires
        are_note_events(notes, times, events),
        0 <= i < notes.len(),
    ensures
        events.len() == 2 * notes.len(),
        events[2 * i].sample == times[i].0,
        times[i].1 > times[i].0 ==> events[2 * i + 1].sample == times[i].1,
        times[i].1 <= times[i].0 ==> events[2 * i + 1].sample == times[i].0 + 1,
        events[2 * i].message@[0] == 0x90,
        events[2 * i].message@[1] == notes[i].pitch,
        1 <= notes[i].velocity <= 127 ==> events[2 * i].message@[2] == notes[i].velocity,
        notes[i].velocity == 0 ==> events[2 * i].message@[2] == 1,
        notes[i].velocity > 127 ==> events[2 * i].message@[2] == 127,
        events[2 * i + 1].message@ == seq![0x80u8, notes[i].pitch, 0u8],
{
    let note = notes[i];
}

/// Every note is let go after it is struck, and is struck with a velocity that is not zero.
pub proof fn lemma_note_ends_after_start(
    notes: Seq<RenderNote>,
    times: Seq<(usize, usize)>,
    events: Seq<MidiEvent>,
    i: int,
)
    requires
        are_note_events(notes, times, events),
        0 <= i < notes.len(),
    ensures
        events[2 * i].sample < events[2 * i + 1].sample,
        events[2 * i].message@[1] == events[2 * i + 1].message@[1],
        1 <= events[2 * i].message@[2] <= 127,
{
    let note = notes[i];
}

/// Sorting by start time gives the notes in the order in which they start, each of them once,
/// and leaves notes that start together as they were.
pub proof fn lemma_notes_sorted(notes: Seq<RenderNote>, r: Seq<RenderNote>)
    requires
        by_start_time(notes, r),
    ensures
        forall|i: int, j: int|
            0 <= i <= j < r.len() ==> total_rank(r[i].start_time_bits) <= total_rank(
                r[j].start_time_bits,
            ),
        r.to_multiset() == notes.to_multiset(),
        forall|other: Seq<RenderNote>| by_start_time(notes, other) ==> other == r,
{
    let keys = start_ranks(notes);
    let order = choose|order: Seq<usize>| #[trigger]
        sorting::is_stable_order(keys, order) && r == sorting::arranged(notes, order);
    assert forall|i: int, j: int| 0 <= i <= j < r.len() implies total_rank(r[i].start_time_bits)
        <= total_rank(r[j].start_time_bits) by {
        if i < j {
            assert(sorting::comes_before(keys, order[i] as int, order[j] as int));
        }
    }
    sorting::lemma_arranged_multiset(keys, order, notes);
    assert forall|other: Seq<RenderNote>| by_start_time(notes, other) implies other == r by {
        let o = choose|o: Seq<usize>| #[trigger]
            sorting::is_stable_order(keys, o) && other == sorting::arranged(notes, o);
        sorting::lemma_stable_order_unique(keys, order, o);
    }
}

/// Sorting by sample keeps every event, and its result is the only one.
pub proof fn lemma_events_sorted(events: Seq<MidiEvent>, r: Seq<MidiEvent>)
    requires
        by_sample(events, r),
    ensures
        ascending(r),
        r.to_multiset() == events.to_multiset(),
        forall|other: Seq<MidiEvent>| by_sample(events, other) ==> other == r,
{
    let keys = samples(events);
    let order = choose|order: Seq<usize>| #[trigger]
        sorting::is_stable_order(keys, order) && r == sorting::arranged(events, order);
    assert forall|i: int, j: int| 0 <= i <= j < r.len() implies r[i].sample <= r[j].sample by {
        if i < j {
            assert(sorting::comes_before(keys, order[i] as int, order[j] as int));
        }
    }
    sorting::lemma_arranged_multiset(keys, order, events);
    assert forall|other: Seq<MidiEvent>| by_sample(events, other) implies other == r by {
        let o = choose|o: Seq<usize>| #[trigger]
            sorting::is_stable_order(keys, o) && other == sorting::arranged(events, o);
        sorting::lemma_stable_order_unique(keys, order, o);
    }
}

/// The blocks follow each other without a gap, none is empty or too large, and they end where
/// the rendering ends.
pub open spec fn tile(blocks: Seq<RenderBlock>, from: int, total: int) -> bool {
    &&& blocks.len() == 0 <==> from == total
    &&& forall|k: int|
        #![trigger blocks[k]]
        0 <= k < blocks.len() ==> {
            &&& blocks[k].start == from + k * BLOCK
            &&& 0 < blocks[k].frames <= BLOCK
            &&& k + 1 < blocks.len() ==> blocks[k].frames == BLOCK
            &&& k + 1 == blocks.len() ==> blocks[k].start + blocks[k].frames == total
        }
}

/// A block hands out exactly the events that fall on its frames.
pub open spec fn hands_out_its_events(events: Seq<MidiEvent>, block: RenderBlock) -> bool {
    forall|j: int|
        0 <= j < events.len() ==> (block.first_event <= j < block.end_event <==> block.start <= (
        #[trigger] events[j]).sample < block.start + block.frames)
}

proof fn lemma_events_end(events: Seq<MidiEvent>, first: int, before: int)
    requires
        0 <= first <= events.len(),
        ascending(events),
    ensures
        first <= events_end(events, first, before) <= events.len(),
        forall|j: int|
            first <= j < events.len() ==> ((#[trigger] events[j]).sample < before <==> j
                < events_end(events, first, before)),
    decreases events.len() - first,
{
    if first < events.len() && events[first].sample < before {
        lemma_events_end(events, first + 1, before);
    }
}

/// The block that is due hands out exactly the events that fall on its frames, and the rendering
/// stays in step.
pub proof fn lemma_block_in_step(r: Rendering, events: Seq<MidiEvent>, total: usize)
    requires
        r.wf(events, total as int),
        events.len() <= usize::MAX,
        ascending(events),
        r.in_step(events),
        r.cursor < total,
    ensures
        hands_out_its_events(events, r.block(events, total as int)),
        r.block(events, total as int).end_event <= events.len(),
        r.after(r.block(events, total as int)).in_step(events),
{
    let block = r.block(events, total as int);
    lemma_events_end(events, r.next_event as int, r.cursor + block.frames);
}

proof fn lemma_blocks_from(r: Rendering, events: Seq<MidiEvent>, total: usize)
    requires
        r.wf(events, total as int),
        events.len() <= usize::MAX,
        ascending(events),
        r.in_step(events),
    ensures
        tile(r.blocks(events, total as int), r.cursor as int, total as int),
        forall|k: int|
            0 <= k < r.blocks(events, total as int).len() ==> hands_out_its_events(
                events,
                #[trigger] r.blocks(events, total as int)[k],
            ),
    decreases total - r.cursor,
{
    if r.cursor < total {
        let block = r.block(events, total as int);
        let next = r.after(block);
        lemma_events_end(events, r.next_event as int, r.cursor + block.frames);
        lemma_block_in_step(r, events, total);
        lemma_blocks_from(next, events, total);
        let rest = next.blocks(events, total as int);
        let all = r.blocks(events, total as int);
        assert(all == seq![block] + rest);
        assert(hands_out_its_events(events, block));
        assert forall|k: int|
            #![trigger all[k]]
            0 <= k < all.len() implies {
            &&& all[k].start == r.cursor + k * BLOCK
            &&& 0 < all[k].frames <= BLOCK
            &&& k + 1 < all.len() ==> all[k].frames == BLOCK
            &&& k + 1 == all.len() ==> all[k].start + all[k].frames == total
            &&& hands_out_its_events(events, all[k])
        } by {
            if k > 0 {
                assert(all[k] == rest[k - 1]);
            }
            if rest.len() > 0 {
                let first = rest[0];
            }
        }
    }
}

/// The blocks of a rendering cover every frame once, and every event that falls before the end
/// is handed out once, with the block that it falls in; a later event is never handed out.
pub proof fn lemma_rendering(events: Seq<MidiEvent>, total: usize)
    requires
        events.len() <= usize::MAX,
        ascending(events),
    ensures
        ({
            let blocks = (Rendering { cursor: 0, next_event: 0 }).blocks(events, total as int);
            &&& tile(blocks, 0, total as int)
            &&& forall|k: int|
                0 <= k < blocks.len() ==> hands_out_its_events(events, #[trigger] blocks[k])
            &&& forall|j: int|
                0 <= j < events.len() && (#[trigger] events[j]).sample < total ==> {
                    let k = events[j].sample as int / BLOCK as int;
                    &&& 0 <= k < blocks.len()
                    &&& blocks[k].first_event <= j < blocks[k].end_event
                    &&& forall|other: int|
                        0 <= other < blocks.len() && (#[trigger] blocks[other]).first_event <= j
                            < blocks[other].end_event ==> other == k
                }
            &&& forall|j: int, k: int|
                0 <= j < events.len() && (#[trigger] events[j]).sample >= total && 0 <= k
                    < blocks.len() ==> !((#[trigger] blocks[k]).first_event <= j
                    < blocks[k].end_event)
        }),
{
    let start = Rendering { cursor: 0, next_event: 0 };
    let blocks = start.blocks(events, total as int);
    lemma_blocks_from(start, events, total);
    assert forall|j: int|
        0 <= j < events.len() && (#[trigger] events[j]).sample < total implies {
        let k = events[j].sample as int / BLOCK as int;
        &&& 0 <= k < blocks.len()
        &&& blocks[k].first_event <= j < blocks[k].end_event
        &&& forall|other: int|
            0 <= other < blocks.len() && (#[trigger] blocks[other]).first_event <= j
                < blocks[other].end_event ==> other == k
    } by {
        let k = events[j].sample as int / BLOCK as int;
        let last = blocks[blocks.len() - 1];
        if k >= blocks.len() {
            assert(last.start + last.frames == total);
        }
        assert(hands_out_its_events(events, blocks[k]));
        assert forall|other: int|
            0 <= other < blocks.len() && (#[trigger] blocks[other]).first_event <= j
                < blocks[other].end_event implies other == k by {
            assert(hands_out_its_events(events, blocks[other]));
        }
    }
    assert forall|j: int, k: int|
        0 <= j < events.len() && (#[trigger] events[j]).sample >= total && 0 <= k
            < blocks.len() implies !((#[trigger] blocks[k]).first_event <= j < blocks[k].end_event) by {
        assert(hands_out_its_events(events, blocks[k]));
        let last = blocks[blocks.len() - 1];
        assert(last.start + last.frames == total);
    }
}

/// Times are put in order by what they mean. Of two positive ones the one with the smaller bit
/// pattern comes first, of two negative ones the one with the larger, and a negative one always
/// comes before a positive one.
pub proof fn lemma_total_rank(a: u64, b: u64)
    ensures
        a < 0x8000_0000_0000_0000 && b < 0x8000_0000_0000_0000 ==> (total_rank(a) < total_rank(b)
            <==> a < b),
        a >= 0x8000_0000_0000_0000 && b >= 0x8000_0000_0000_0000 ==> (total_rank(a) < total_rank(b)
            <==> a > b),
        a >= 0x8000_0000_0000_0000 && b < 0x8000_0000_0000_0000 ==> total_rank(a) < total_rank(b),
        total_rank(a) == total_rank(b) <==> a == b,
{
}

/// A block has 512 frames, or as many as are left where those are fewer, and begins where the
/// rendering stands; the rendering then stands behind it.
pub proof fn lemma_block_frames(r: Rendering, events: Seq<MidiEvent>, total: usize)
    requires
        r.wf(events, total as int),
    ensures
        ({
            let block = r.block(events, total as int);
            &&& block.start == r.cursor
            &&& block.first_event == r.next_event
            &&& total - r.cursor >= 512 ==> block.frames == 512
            &&& total - r.cursor < 512 ==> block.frames == total - r.cursor
            &&& r.after(block).cursor == r.cursor + block.frames
            &&& r.after(block).next_event == block.end_event
        }),
{
}

/// What is said of a rendering: how many notes there were, where the file lies, how long it lasts
/// and at which rate.
pub proof fn lemma_rendered_text(
    notes: nat,
    out: Seq<char>,
    seconds: Seq<char>,
    sample_rate: nat,
)
    ensures
        rendered_text(notes, out, seconds, sample_rate) == "Rendered "@ + text::digits(notes)
            + " notes → "@ + out + " ("@ + seconds + "s at "@ + text::digits(sample_rate)
            + " Hz)"@,
{
}

/// Notes are put in the order in which they start, and those that start together stay in the order
/// in which they stood: each place has a note from its own former place, the start times never go
/// back, and where they are the same the former places go on.
pub proof fn lemma_notes_stable(notes: Seq<RenderNote>, r: Seq<RenderNote>)
    requires
        by_start_time(notes, r),
    ensures
        r.len() == notes.len(),
        exists|places: Seq<usize>|
            {
                &&& places.len() == notes.len()
                &&& #[trigger] places.no_duplicates()
                &&& forall|i: int|
                    0 <= i < r.len() ==> places[i] < notes.len() && #[trigger] r[i]
                        == notes[places[i] as int]
                &&& forall|i: int, j: int|
                    #![trigger r[i], r[j]]
                    0 <= i < j < r.len() ==> {
                        &&& total_rank(r[i].start_time_bits) <= total_rank(r[j].start_time_bits)
                        &&& r[i].start_time_bits == r[j].start_time_bits ==> places[i] < places[j]
                    }
            },
{
    let keys = start_ranks(notes);
    let order = choose|order: Seq<usize>| #[trigger]
        sorting::is_stable_order(keys, order) && r == sorting::arranged(notes, order);
    assert forall|i: int, j: int| #![trigger r[i], r[j]] 0 <= i < j < r.len() implies {
        &&& total_rank(r[i].start_time_bits) <= total_rank(r[j].start_time_bits)
        &&& r[i].start_time_bits == r[j].start_time_bits ==> order[i] < order[j]
    } by {
        sorting::lemma_stable_order_ascends(keys, order, i, j);
    }
    assert forall|i: int, j: int|
        0 <= i < order.len() && 0 <= j < order.len() && i != j implies order[i] != order[j] by {
        if i < j {
            assert(sorting::comes_before(keys, order[i] as int, order[j] as int));
        } else {
            assert(sorting::comes_before(keys, order[j] as int, order[i] as int));
        }
    }
    assert(order.no_duplicates());
}

/// Events are put in the order of their samples, and those on one sample stay in the order in which
/// they stood.
pub proof fn lemma_events_stable(events: Seq<MidiEvent>, r: Seq<MidiEvent>)
    requires
        by_sample(events, r),
    ensures
        r.len() == events.len(),
        exists|places: Seq<usize>|
            {
                &&& places.len() == events.len()
                &&& #[trigger] places.no_duplicates()
                &&& forall|i: int|
                    0 <= i < r.len() ==> places[i] < events.len() && #[trigger] r[i]
                        == events[places[i] as int]
                &&& forall|i: int, j: int|
                    #![trigger r[i], r[j]]
                    0 <= i < j < r.len() ==> {
                        &&& r[i].sample <= r[j].sample
                        &&& r[i].sample == r[j].sample ==> places[i] < places[j]
                    }
            },
{
    let keys = samples(events);
    let order = choose|order: Seq<usize>| #[trigger]
        sorting::is_stable_order(keys, order) && r == sorting::arranged(events, order);
    assert forall|i: int, j: int| #![trigger r[i], r[j]] 0 <= i < j < r.len() implies {
        &&& r[i].sample <= r[j].sample
        &&& r[i].sample == r[j].sample ==> order[i] < order[j]
    } by {
        sorting::lemma_stable_order_ascends(keys, order, i, j);
    }
    assert forall|i: int, j: int|
        0 <= i < order.len() && 0 <= j < order.len() && i != j implies order[i] != order[j] by {
        if i < j {
            assert(sorting::comes_before(keys, order[i] as int, order[j] as int));
        } else {
            assert(sorting::comes_before(keys, order[j] as int, order[i] as int));
        }
    }
    assert(order.no_duplicates());
}

/// A block takes events from where the last one stopped, as long as they fall before its end, and
/// stops at the first one that does not.
pub proof fn lemma_block_events(r: Rendering, events: Seq<MidiEvent>, total: usize)
    requires
        r.wf(events, total as int),
        events.len() <= usize::MAX,
    ensures
        ({
            let block = r.block(events, total as int);
            &&& r.next_event == block.first_event <= block.end_event <= events.len()
            &&& forall|j: int|
                block.first_event <= j < block.end_event ==> (#[trigger] events[j]).sample
                    < block.start + block.frames
            &&& block.end_event < events.len() ==> events[block.end_event as int].sample
                >= block.start + block.frames
        }),
{
    let block = r.block(events, total as int);
    lemma_events_stop(events, r.next_event as int, block.start + block.frames);
}

proof fn lemma_events_stop(events: Seq<MidiEvent>, first: int, before: int)
    requires
        0 <= first <= events.len(),
    ensures
        ({
            let end = events_end(events, first, before);
            &&& first <= end <= events.len()
            &&& forall|j: int| first <= j < end ==> (#[trigger] events[j]).sample < before
            &&& end < events.len() ==> events[end].sample >= before
        }),
    decreases events.len() - first,
{
    if first < events.len() && events[first].sample < before {
        lemma_events_stop(events, first + 1, before);
    }
}

} // verus!
