use rs_vst_host::render::{
    default_velocity, note_events, prepare_notes, rendered_line, sort_events, MidiEvent,
    RenderBlock, RenderNote, Rendering, BLOCK, CHANNELS,
};
use rs_vst_host::render_session::{RenderEvent, RenderSession, RenderStage};
use rs_vst_host::sorting::stable_order;
use rs_vst_host::wav::{write_wav_16, HEADER_LEN};

fn note(pitch: u8, velocity: u8, start: f64, duration: f64) -> RenderNote {
    RenderNote {
        pitch,
        velocity,
        start_time_bits: start.to_bits(),
        duration_bits: duration.to_bits(),
    }
}

fn at(sample: usize) -> MidiEvent {
    MidiEvent { sample, message: [0x90, sample as u8, 1] }
}

#[test]
fn a_note_that_states_no_velocity_has_100() {
    assert_eq!(default_velocity(), 100);
}

#[test]
fn notes_are_sorted_by_start_time_and_keep_their_order() {
    let notes = vec![
        note(1, 100, 2.0, 1.0),
        note(2, 100, -0.0, 1.0),
        note(3, 100, 2.0, 1.0),
        note(4, 100, 0.0, 1.0),
        note(5, 100, -1.5, 1.0),
        note(6, 100, f64::INFINITY, 1.0),
        note(7, 100, -3.0, 1.0),
    ];
    let sorted = prepare_notes(&notes).unwrap();
    let pitches: Vec<u8> = sorted.iter().map(|n| n.pitch).collect();
    assert_eq!(pitches, vec![7, 5, 2, 4, 1, 3, 6]);
}

#[test]
fn the_order_of_notes_is_the_total_order_of_numbers() {
    let times = [
        f64::NAN, -f64::NAN, 0.0, -0.0, 1.0, -1.0, f64::MIN_POSITIVE, 5e-324, -5e-324, f64::MAX,
        f64::MIN, f64::INFINITY, f64::NEG_INFINITY,
    ];
    let notes: Vec<RenderNote> =
        times.iter().enumerate().map(|(i, t)| note(i as u8, 1, *t, 1.0)).collect();
    let mut expected = notes.clone();
    expected.sort_by(|a, b| {
        f64::from_bits(a.start_time_bits).total_cmp(&f64::from_bits(b.start_time_bits))
    });
    assert_eq!(prepare_notes(&notes).unwrap(), expected);
}

#[test]
fn an_empty_list_of_notes_is_refused() {
    assert_eq!(prepare_notes(&vec![]), Err("Note list is empty".to_string()));
}

#[test]
fn a_note_is_struck_and_let_go() {
    let notes = vec![note(60, 0, 0.0, 1.0), note(61, 255, 0.0, 1.0), note(62, 64, 0.0, 1.0)];
    let events = note_events(&notes, &vec![(0, 480), (10, 10), (20, 5)]);
    let expected = [
        (0, [0x90, 60, 1]),
        (480, [0x80, 60, 0]),
        (10, [0x90, 61, 127]),
        (11, [0x80, 61, 0]),
        (20, [0x90, 62, 64]),
        (21, [0x80, 62, 0]),
    ];
    assert_eq!(events.len(), 6);
    for (event, (sample, message)) in events.iter().zip(expected) {
        assert_eq!((event.sample, event.message), (sample, message));
    }
}

#[test]
fn events_on_the_same_sample_keep_their_order() {
    let on = MidiEvent { sample: 5, message: [0x90, 1, 1] };
    let off = MidiEvent { sample: 5, message: [0x80, 1, 0] };
    let early = MidiEvent { sample: 2, message: [0x90, 2, 1] };
    let late = MidiEvent { sample: usize::MAX, message: [0x90, 3, 1] };
    assert_eq!(sort_events(&vec![late, off, early, on]), vec![early, off, on, late]);
    assert_eq!(sort_events(&vec![]), vec![]);
}

#[test]
fn a_stable_order_is_what_a_stable_sort_gives() {
    let keys: Vec<i128> = vec![3, -1, 3, 0, -1, 7, 0, i128::MAX, i128::MIN];
    let mut expected: Vec<usize> = (0..keys.len()).collect();
    expected.sort_by_key(|i| keys[*i]);
    assert_eq!(stable_order(&keys), expected);
}

fn blocks(events: &Vec<MidiEvent>, total: usize) -> Vec<RenderBlock> {
    let mut rendering = Rendering::new();
    let mut list = Vec::new();
    while let Some(block) = rendering.next_block(events, total) {
        list.push(block);
    }
    list
}

#[test]
fn blocks_cover_every_frame_once() {
    assert_eq!(BLOCK, 512);
    assert_eq!(CHANNELS, 2);
    assert_eq!(blocks(&vec![], 0), vec![]);
    for total in [1, 511, 512, 513, 1024, 1500] {
        let mut next = 0;
        for block in blocks(&vec![], total) {
            assert_eq!(block.start, next);
            assert!(block.frames > 0 && block.frames <= 512);
            next = block.start + block.frames;
        }
        assert_eq!(next, total);
    }
}

#[test]
fn events_are_handed_out_with_the_block_that_they_fall_in() {
    let events: Vec<MidiEvent> = [0, 0, 511, 512, 1100, 1199, 1200, 5000].map(at).to_vec();
    assert_eq!(
        blocks(&events, 1200),
        vec![
            RenderBlock { start: 0, frames: 512, first_event: 0, end_event: 3 },
            RenderBlock { start: 512, frames: 512, first_event: 3, end_event: 4 },
            RenderBlock { start: 1024, frames: 176, first_event: 4, end_event: 6 },
        ]
    );
}

#[test]
fn a_rendering_is_reported() {
    assert_eq!(
        rendered_line(3, "out.wav", "2.5", 48000),
        "Rendered 3 notes → out.wav (2.5s at 48000 Hz)"
    );
}

#[test]
fn a_rendering_goes_from_beginning_to_end() {
    let mut session = RenderSession::render(44100);
    assert_eq!((session.class_name.as_str(), session.error.as_str()), ("", ""));
    assert_eq!((session.notes.len(), session.events.len(), session.total), (0, 0, 0));
    assert_eq!(session.arrangements(), (3, 3));
    assert_eq!(session.step(RenderEvent::Resolved("Synth".to_string())), "Loading plugin: Synth\n");
    assert_eq!(session.stage, RenderStage::CreateInstance);
    assert_eq!(session.step(RenderEvent::Done), "");
    assert_eq!(session.stage, RenderStage::CheckSampleSize);
    session.step(RenderEvent::Supported(true));
    assert_eq!(session.stage, RenderStage::ReadNotes);
    session.step(RenderEvent::Notes(vec![note(61, 9, 0.5, 0.1), note(60, 9, 0.0, 0.1)]));
    assert_eq!(session.notes[0].pitch, 60);
    for stage in [
        RenderStage::SetBusArrangements,
        RenderStage::SetupProcessing,
        RenderStage::Activate,
        RenderStage::StartProcessing,
        RenderStage::BuildEngine,
    ] {
        assert_eq!(session.stage, stage);
        session.step(RenderEvent::Done);
    }
    assert_eq!(session.stage, RenderStage::PlaceNotes);
    session.step(RenderEvent::Placed(vec![(0, 700), (600, 650)], 1000));
    let samples: Vec<usize> = session.events.iter().map(|e| e.sample).collect();
    assert_eq!(samples, vec![0, 600, 650, 700]);
    assert_eq!(session.stage, RenderStage::Process);
    assert_eq!(
        session.block,
        RenderBlock { start: 0, frames: 512, first_event: 0, end_event: 1 }
    );
    assert_eq!(session.event_offset(0), 0);
    session.step(RenderEvent::Done);
    assert_eq!(
        session.block,
        RenderBlock { start: 512, frames: 488, first_event: 1, end_event: 4 }
    );
    let offsets: Vec<usize> = (1..4).map(|event| session.event_offset(event)).collect();
    assert_eq!(offsets, vec![600 - 512, 650 - 512, 700 - 512]);
    session.step(RenderEvent::Done);
    assert_eq!(session.stage, RenderStage::ShutdownEngine);
    session.step(RenderEvent::Done);
    assert_eq!(session.stage, RenderStage::WriteFile);
    assert_eq!(
        session.step(RenderEvent::Written("o.wav".to_string(), "0.0".to_string())),
        "Rendered 2 notes → o.wav (0.0s at 44100 Hz)\n"
    );
    assert_eq!(session.stage, RenderStage::Finished);
}

#[test]
fn a_rendering_of_nothing_has_no_blocks() {
    let mut session = RenderSession::render(44100);
    session.stage = RenderStage::PlaceNotes;
    session.step(RenderEvent::Placed(vec![], 0));
    assert_eq!(session.stage, RenderStage::ShutdownEngine);
}

#[test]
fn a_rendering_fails_where_something_is_missing() {
    let mut session = RenderSession::render(44100);
    session.step(RenderEvent::Failed("no such plugin".to_string()));
    assert_eq!((session.stage, session.error.as_str()), (RenderStage::Failed, "no such plugin"));

    let mut session = RenderSession::render(44100);
    session.step(RenderEvent::Resolved("Synth".to_string()));
    session.step(RenderEvent::Done);
    session.step(RenderEvent::Supported(false));
    assert_eq!(session.stage, RenderStage::Failed);
    assert_eq!(session.error, "Plugin 'Synth' does not support 32-bit float processing");

    let mut session = RenderSession::render(44100);
    session.stage = RenderStage::ReadNotes;
    session.step(RenderEvent::Notes(vec![]));
    assert_eq!((session.stage, session.error.as_str()), (RenderStage::Failed, "Note list is empty"));
}

#[test]
fn a_file_has_a_header_and_samples() {
    let bytes = write_wav_16(&[0, 1, -1, i16::MAX, i16::MIN, 258], 48000, 2);
    let mut expected: Vec<u8> = Vec::new();
    expected.extend_from_slice(b"RIFF");
    expected.extend_from_slice(&48u32.to_le_bytes());
    expected.extend_from_slice(b"WAVEfmt ");
    expected.extend_from_slice(&16u32.to_le_bytes());
    expected.extend_from_slice(&1u16.to_le_bytes());
    expected.extend_from_slice(&2u16.to_le_bytes());
    expected.extend_from_slice(&48000u32.to_le_bytes());
    expected.extend_from_slice(&192000u32.to_le_bytes());
    expected.extend_from_slice(&4u16.to_le_bytes());
    expected.extend_from_slice(&16u16.to_le_bytes());
    expected.extend_from_slice(b"data");
    expected.extend_from_slice(&12u32.to_le_bytes());
    assert_eq!(expected.len(), HEADER_LEN);
    for sample in [0i16, 1, -1, i16::MAX, i16::MIN, 258] {
        expected.extend_from_slice(&sample.to_le_bytes());
    }
    assert_eq!(bytes, expected);
}

#[test]
fn a_file_gives_its_samples_back() {
    let samples: Vec<i16> = (-2000..2000).map(|i| i * 16).collect();
    let bytes = write_wav_16(&samples, 44100, 1);
    assert_eq!(bytes.len(), 44 + 8000);
    let read: Vec<i16> = bytes[44..]
        .chunks(2)
        .map(|pair| i16::from_le_bytes([pair[0], pair[1]]))
        .collect();
    assert_eq!(read, samples);
}

#[test]
fn a_file_without_samples_is_a_header() {
    let bytes = write_wav_16(&[], 8000, 1);
    assert_eq!(bytes.len(), 44);
    assert_eq!(bytes[4..8], 36u32.to_le_bytes());
    assert_eq!(bytes[40..44], 0u32.to_le_bytes());
}
