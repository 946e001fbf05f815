use rs_vst_host::com::{
    char16_to_string, char8_to_string, event_as_note_off, event_as_note_on, iid_as_tuid_ptr,
    k_invalid_argument, k_not_implemented, make_note_off_event, make_note_on_event, non_empty,
    platform_id, string128_to_string, tuid_to_bytes,
    view_rect_height, view_rect_width, write_string128, String128, ViewRect, FUNKNOWN_IID,
    IAUDIO_PROCESSOR_IID, IBSTREAM_IID, ICOMPONENT_HANDLER_IID, ICOMPONENT_IID,
    ICONNECTION_POINT_IID, IEDIT_CONTROLLER_IID, IEVENT_LIST_IID, IHOST_APPLICATION_IID,
    IPARAMETER_CHANGES_IID, IPARAM_VALUE_QUEUE_IID, IPLUGIN_BASE_IID, IPLUGIN_FACTORY2_IID,
    IPLUGIN_FACTORY3_IID, IPLUGIN_FACTORY_IID, IPLUG_FRAME_IID, IPLUG_VIEW_IID, K_AUDIO,
    K_CAN_AUTOMATE, K_EVENT, K_INPUT, K_IS_BYPASS, K_IS_LIVE, K_IS_READ_ONLY,
    K_NOTE_OFF_EVENT, K_NOTE_ON_EVENT, K_OUTPUT, K_PLATFORM_TYPE_HWND,
    K_PLATFORM_TYPE_NSVIEW, K_PLATFORM_TYPE_X11, K_REALTIME, K_RESULT_FALSE, K_RESULT_OK,
    K_SAMPLE_32, K_SPEAKER_MONO, K_SPEAKER_STEREO,
};
use rs_vst_host::utf16::{decode, encode};
use vst3::com_scrape_types::Interface;
use vst3::Steinberg;
use vst3::Steinberg::Vst;

fn uuid_to_big_endian(uuid: &str) -> [u8; 16] {
    let hex: String = uuid.chars().filter(|c| c.is_ascii_hexdigit()).collect();
    assert_eq!(hex.len(), 32);
    let mut bytes = [0u8; 16];
    for i in 0..16 {
        bytes[i] = u8::from_str_radix(&hex[i * 2..i * 2 + 2], 16).unwrap();
    }
    bytes
}

#[test]
fn test_icomponent_iid() {
    let expected = uuid_to_big_endian("E831FF31-F2D5-4301-928E-BBEE25697802");
    assert_eq!(ICOMPONENT_IID, expected);
}

#[test]
fn test_iaudio_processor_iid() {
    let expected = uuid_to_big_endian("42043F99-B7DA-453C-A569-E79D9AAEC33D");
    assert_eq!(IAUDIO_PROCESSOR_IID, expected);
}

#[test]
fn test_funknown_iid() {
    let expected = uuid_to_big_endian("00000000-0000-0000-C000-000000000046");
    assert_eq!(FUNKNOWN_IID, expected);
}

#[test]
fn test_iedit_controller_iid() {
    let expected = uuid_to_big_endian("DCD7BBE3-7742-448D-A874-AACC979C759E");
    assert_eq!(IEDIT_CONTROLLER_IID, expected);
}

#[test]
fn test_iplugin_factory_iids() {
    let f2 = uuid_to_big_endian("0007B650-F24B-4C0B-A464-EDB9F00B2ABB");
    let f3 = uuid_to_big_endian("4555A2AB-C123-4E57-9B12-291036878931");
    assert_eq!(IPLUGIN_FACTORY2_IID, f2);
    assert_eq!(IPLUGIN_FACTORY3_IID, f3);
}

#[test]
fn test_char8_to_string() {
    let buf: [i8; 6] = [b'H' as i8, b'i' as i8, 0, 0, 0, 0];
    assert_eq!(char8_to_string(&buf), "Hi");
}

#[test]
fn test_char16_to_string() {
    let buf: [u16; 4] = [b'O' as u16, b'K' as u16, 0, 0];
    assert_eq!(char16_to_string(&buf), "OK");
}

#[test]
fn test_write_string128() {
    let mut s: String128 = [0; 128];
    write_string128(&mut s, "Test");
    assert_eq!(string128_to_string(&s), "Test");
}

#[test]
fn test_view_rect_dimensions() {
    let rect = ViewRect {
        left: 10,
        top: 20,
        right: 810,
        bottom: 620,
    };
    assert_eq!(view_rect_width(&rect), 800);
    assert_eq!(view_rect_height(&rect), 600);
}

#[test]
fn test_backward_compat_constants() {
    assert_eq!(K_RESULT_OK, 0);
    assert_eq!(K_AUDIO, 0);
    assert_eq!(K_INPUT, 0);
    assert_eq!(K_OUTPUT, 1);
    assert_eq!(K_SAMPLE_32, 0);
    assert_eq!(K_REALTIME, 0);
    assert_eq!(K_SPEAKER_STEREO, 3);
    assert_eq!(K_NOTE_ON_EVENT, 0);
    assert_eq!(K_NOTE_OFF_EVENT, 1);
    assert_eq!(K_IS_LIVE, 1);
}

#[test]
fn test_make_note_on_event() {
    let event = make_note_on_event(128, 0, 60, 0.8f32.to_bits(), -1);
    assert_eq!(event.event_type, K_NOTE_ON_EVENT);
    assert_eq!(event.sample_offset, 128);
    let note = event_as_note_on(&event);
    assert_eq!(note.pitch, 60);
    assert!((f32::from_bits(note.velocity_bits) - 0.8).abs() < 0.001);
    assert_eq!(note.note_id, -1);
}

#[test]
fn test_make_note_off_event() {
    let event = make_note_off_event(256, 0, 60, 0.0f32.to_bits(), -1);
    assert_eq!(event.event_type, K_NOTE_OFF_EVENT);
    let note = event_as_note_off(&event);
    assert_eq!(note.pitch, 60);
}

#[test]
fn test_iid_lengths() {
    assert_eq!(FUNKNOWN_IID.len(), 16);
    assert_eq!(ICOMPONENT_IID.len(), 16);
    assert_eq!(IAUDIO_PROCESSOR_IID.len(), 16);
    assert_eq!(IEDIT_CONTROLLER_IID.len(), 16);
    assert_eq!(IHOST_APPLICATION_IID.len(), 16);
    assert_eq!(ICOMPONENT_HANDLER_IID.len(), 16);
    assert_eq!(IEVENT_LIST_IID.len(), 16);
    assert_eq!(IPARAMETER_CHANGES_IID.len(), 16);
    assert_eq!(IPARAM_VALUE_QUEUE_IID.len(), 16);
    assert_eq!(ICONNECTION_POINT_IID.len(), 16);
    assert_eq!(IPLUG_VIEW_IID.len(), 16);
    assert_eq!(IPLUG_FRAME_IID.len(), 16);
}

#[test]
fn test_non_empty() {
    assert_eq!(non_empty(String::new()), None);
    assert_eq!(non_empty("hello".into()), Some("hello".into()));
}

#[test]
fn identifiers_are_those_of_the_interfaces() {
    assert_eq!(platform_id(&FUNKNOWN_IID), <Steinberg::FUnknown as Interface>::IID);
    assert_eq!(platform_id(&ICOMPONENT_IID), <Vst::IComponent as Interface>::IID);
    assert_eq!(platform_id(&IAUDIO_PROCESSOR_IID), <Vst::IAudioProcessor as Interface>::IID);
    assert_eq!(platform_id(&IEDIT_CONTROLLER_IID), <Vst::IEditController as Interface>::IID);
    assert_eq!(platform_id(&IHOST_APPLICATION_IID), <Vst::IHostApplication as Interface>::IID);
    assert_eq!(platform_id(&ICOMPONENT_HANDLER_IID), <Vst::IComponentHandler as Interface>::IID);
    assert_eq!(platform_id(&IEVENT_LIST_IID), <Vst::IEventList as Interface>::IID);
    assert_eq!(platform_id(&IPARAMETER_CHANGES_IID), <Vst::IParameterChanges as Interface>::IID);
    assert_eq!(platform_id(&IPARAM_VALUE_QUEUE_IID), <Vst::IParamValueQueue as Interface>::IID);
    assert_eq!(platform_id(&ICONNECTION_POINT_IID), <Vst::IConnectionPoint as Interface>::IID);
    assert_eq!(platform_id(&IPLUG_VIEW_IID), <Steinberg::IPlugView as Interface>::IID);
    assert_eq!(platform_id(&IPLUG_FRAME_IID), <Steinberg::IPlugFrame as Interface>::IID);
    assert_eq!(platform_id(&IPLUGIN_FACTORY_IID), <Steinberg::IPluginFactory as Interface>::IID);
    assert_eq!(platform_id(&IPLUGIN_FACTORY2_IID), <Steinberg::IPluginFactory2 as Interface>::IID);
    assert_eq!(platform_id(&IPLUGIN_FACTORY3_IID), <Steinberg::IPluginFactory3 as Interface>::IID);
    assert_eq!(platform_id(&IBSTREAM_IID), <Steinberg::IBStream as Interface>::IID);
    assert_eq!(platform_id(&IPLUGIN_BASE_IID), <Steinberg::IPluginBase as Interface>::IID);
}

#[test]
fn identifiers_are_put_in_the_order_of_the_platform() {
    let written: [u8; 16] = [
        0x00, 0x01, 0x02, 0x83, 0x04, 0x05, 0x06, 0x07, 0x88, 0x09, 0x0a, 0x0b, 0x0c, 0x0d, 0x0e, 0xff,
    ];
    let expected = vst3::uid(0x00010283, 0x04050607, 0x88090a0b, 0x0c0d0eff);
    assert_eq!(platform_id(&written), expected.map(|byte| byte as u8));
    assert_eq!(platform_id(&platform_id(&written)), written);
}

#[test]
fn constants_are_those_of_the_interfaces() {
    assert_eq!(K_RESULT_OK, Steinberg::kResultOk as i32);
    assert_eq!(K_RESULT_FALSE, Steinberg::kResultFalse as i32);
    assert_eq!(k_invalid_argument(), Steinberg::kInvalidArgument as i32);
    assert_eq!(k_not_implemented(), Steinberg::kNotImplemented as i32);
    assert_eq!(K_AUDIO, Vst::MediaTypes_::kAudio as i32);
    assert_eq!(K_EVENT, Vst::MediaTypes_::kEvent as i32);
    assert_eq!(K_INPUT, Vst::BusDirections_::kInput as i32);
    assert_eq!(K_OUTPUT, Vst::BusDirections_::kOutput as i32);
    assert_eq!(K_SAMPLE_32, Vst::SymbolicSampleSizes_::kSample32 as i32);
    assert_eq!(K_REALTIME, Vst::ProcessModes_::kRealtime as i32);
    assert_eq!(K_SPEAKER_STEREO, Vst::SpeakerArr::kStereo);
    assert_eq!(K_SPEAKER_MONO, Vst::SpeakerArr::kMono);
    assert_eq!(K_NOTE_ON_EVENT, Vst::Event_::EventTypes_::kNoteOnEvent as u16);
    assert_eq!(K_NOTE_OFF_EVENT, Vst::Event_::EventTypes_::kNoteOffEvent as u16);
    assert_eq!(K_IS_LIVE, Vst::Event_::EventFlags_::kIsLive as u16);
    assert_eq!(K_CAN_AUTOMATE, Vst::ParameterInfo_::ParameterFlags_::kCanAutomate as i32);
    assert_eq!(K_IS_READ_ONLY, Vst::ParameterInfo_::ParameterFlags_::kIsReadOnly as i32);
    assert_eq!(K_IS_BYPASS, Vst::ParameterInfo_::ParameterFlags_::kIsBypass as i32);
    assert_eq!(&K_PLATFORM_TYPE_NSVIEW, b"NSView\0");
    assert_eq!(&K_PLATFORM_TYPE_HWND, b"HWND\0");
    assert_eq!(&K_PLATFORM_TYPE_X11, b"X11EmbedWindowID\0");
}

#[test]
fn a_string_of_bytes_ends_at_the_terminator_or_at_the_end() {
    assert_eq!(char8_to_string(&[]), "");
    assert_eq!(char8_to_string(&[0, 65]), "");
    assert_eq!(char8_to_string(&[65, 66]), "AB");
}

#[test]
fn a_string_of_bytes_is_read_as_utf8() {
    let accent: Vec<i8> = "é\0x".bytes().map(|b| b as i8).collect();
    assert_eq!(char8_to_string(&accent), "é");
    assert_eq!(char8_to_string(&[65, -1, 66]), "A\u{fffd}B");
}

#[test]
fn a_string_of_units_is_read_as_utf16() {
    assert_eq!(char16_to_string(&[]), "");
    assert_eq!(char16_to_string(&[0x48, 0xD83D, 0xDE00, 0x49, 0, 0x4A]), "H😀I");
    assert_eq!(char16_to_string(&[0xD83D, 0x41, 0xDE00]), "\u{fffd}A\u{fffd}");
}

#[test]
fn utf16_agrees_with_the_standard_library() {
    for text in ["", "plain", "Größe", "音楽", "a😀b𝄞c", "\u{d7ff}\u{e000}\u{ffff}\u{10ffff}"] {
        let units: Vec<u16> = text.encode_utf16().collect();
        assert_eq!(encode(text), units);
        assert_eq!(decode(&units, units.len()), text);
    }
    let broken = [0xDC00, 0xD800, 0xD800, 0xDC00, 0xDBFF];
    assert_eq!(decode(&broken, broken.len()), String::from_utf16_lossy(&broken));
}

#[test]
fn what_is_written_to_a_string128_is_read_back() {
    let mut s: String128 = [7; 128];
    write_string128(&mut s, "Ünïcode 🎹");
    assert_eq!(string128_to_string(&s), "Ünïcode 🎹");
    write_string128(&mut s, "");
    assert_eq!(string128_to_string(&s), "");
}

#[test]
fn a_string128_holds_127_units_and_a_terminator() {
    let long: String = "x".repeat(200);
    let mut s: String128 = [7; 128];
    write_string128(&mut s, &long);
    assert_eq!(string128_to_string(&s), "x".repeat(127));
    assert_eq!(s[126], 'x' as u16);
    assert_eq!(s[127], 0);
}

#[test]
fn identifiers_survive_the_change_of_sign() {
    let iid = uuid_to_big_endian("42043F99-B7DA-453C-A569-E79D9AAEC33D");
    let tuid = iid_as_tuid_ptr(&iid);
    assert_eq!(tuid[2], 0x3F);
    assert_eq!(tuid[3], 0x99u8 as i8);
    assert_eq!(tuid_to_bytes(&tuid), iid);
}

#[test]
fn note_events_carry_nothing_that_was_not_asked_for() {
    let event = make_note_on_event(-5, 3, 61, 0.25f32.to_bits(), 9);
    assert_eq!(event.bus_index, 0);
    assert_eq!(event.sample_offset, -5);
    assert_eq!(f64::from_bits(event.ppq_position_bits), 0.0);
    assert_eq!(event.flags, K_IS_LIVE);
    let on = event_as_note_on(&event);
    assert_eq!(on.channel, 3);
    assert_eq!(f32::from_bits(on.tuning_bits), 0.0);
    assert_eq!(on.length, 0);
    assert_eq!(on.note_id, 9);
    let event = make_note_off_event(7, 3, 61, 0.5f32.to_bits(), 9);
    let off = event_as_note_off(&event);
    assert_eq!(off.channel, 3);
    assert_eq!(f32::from_bits(off.velocity_bits), 0.5);
    assert_eq!(f32::from_bits(off.tuning_bits), 0.0);
}
