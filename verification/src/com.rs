//! Identifiers, constants and small data types of the VST3 interfaces.

use vstd::prelude::*;
use vstd::string::*;

use crate::utf16;

verus! {

// Interface identifiers in the order in which they are written, most significant byte first. The
// order in which a plugin expects them depends on the platform: see `platform_id`.

pub const FUNKNOWN_IID: [u8; 16] = [
    0x00, 0x00, 0x00, 0x00, 0x00, 0x00, 0x00, 0x00,
    0xC0, 0x00, 0x00, 0x00, 0x00, 0x00, 0x00, 0x46,
];

pub const ICOMPONENT_IID: [u8; 16] = [
    0xE8, 0x31, 0xFF, 0x31, 0xF2, 0xD5, 0x43, 0x01,
    0x92, 0x8E, 0xBB, 0xEE, 0x25, 0x69, 0x78, 0x02,
];

pub const IAUDIO_PROCESSOR_IID: [u8; 16] = [
    0x42, 0x04, 0x3F, 0x99, 0xB7, 0xDA, 0x45, 0x3C,
    0xA5, 0x69, 0xE7, 0x9D, 0x9A, 0xAE, 0xC3, 0x3D,
];

pub const IEDIT_CONTROLLER_IID: [u8; 16] = [
    0xDC, 0xD7, 0xBB, 0xE3, 0x77, 0x42, 0x44, 0x8D,
    0xA8, 0x74, 0xAA, 0xCC, 0x97, 0x9C, 0x75, 0x9E,
];

pub const IHOST_APPLICATION_IID: [u8; 16] = [
    0x58, 0xE5, 0x95, 0xCC, 0xDB, 0x2D, 0x49, 0x69,
    0x8B, 0x6A, 0xAF, 0x8C, 0x36, 0xA6, 0x64, 0xE5,
];

pub const ICOMPONENT_HANDLER_IID: [u8; 16] = [
    0x93, 0xA0, 0xBE, 0xA3, 0x0B, 0xD0, 0x45, 0xDB,
    0x8E, 0x89, 0x0B, 0x0C, 0xC1, 0xE4, 0x6A, 0xC6,
];

pub const IEVENT_LIST_IID: [u8; 16] = [
    0x3A, 0x2C, 0x42, 0x14, 0x34, 0x63, 0x49, 0xFE,
    0xB2, 0xC4, 0xF3, 0x97, 0xB9, 0x69, 0x5A, 0x44,
];

pub const IPARAMETER_CHANGES_IID: [u8; 16] = [
    0xA4, 0x77, 0x96, 0x63, 0x0B, 0xB6, 0x4A, 0x56,
    0xB4, 0x43, 0x84, 0xA8, 0x46, 0x6F, 0xEB, 0x9D,
];

pub const IPARAM_VALUE_QUEUE_IID: [u8; 16] = [
    0x01, 0x26, 0x3A, 0x18, 0xED, 0x07, 0x4F, 0x6F,
    0x98, 0xC9, 0xD3, 0x56, 0x46, 0x86, 0xF9, 0xBA,
];

pub const ICONNECTION_POINT_IID: [u8; 16] = [
    0x70, 0xA4, 0x15, 0x6F, 0x6E, 0x6E, 0x40, 0x26,
    0x98, 0x91, 0x48, 0xBF, 0xAA, 0x60, 0xD8, 0xD1,
];

pub const IPLUG_VIEW_IID: [u8; 16] = [
    0x5B, 0xC3, 0x25, 0x07, 0xD0, 0x60, 0x49, 0xEA,
    0xA6, 0x15, 0x1B, 0x52, 0x2B, 0x75, 0x5B, 0x29,
];

pub const IPLUG_FRAME_IID: [u8; 16] = [
    0x36, 0x7F, 0xAF, 0x01, 0xAF, 0xA9, 0x46, 0x93,
    0x8D, 0x4D, 0xA2, 0xA0, 0xED, 0x08, 0x82, 0xA3,
];

pub const IPLUGIN_FACTORY_IID: [u8; 16] = [
    0x7A, 0x4D, 0x81, 0x1C, 0x52, 0x11, 0x4A, 0x1F,
    0xAE, 0xD9, 0xD2, 0xEE, 0x0B, 0x43, 0xBF, 0x9F,
];

pub const IPLUGIN_FACTORY2_IID: [u8; 16] = [
    0x00, 0x07, 0xB6, 0x50, 0xF2, 0x4B, 0x4C, 0x0B,
    0xA4, 0x64, 0xED, 0xB9, 0xF0, 0x0B, 0x2A, 0xBB,
];

pub const IPLUGIN_FACTORY3_IID: [u8; 16] = [
    0x45, 0x55, 0xA2, 0xAB, 0xC1, 0x23, 0x4E, 0x57,
    0x9B, 0x12, 0x29, 0x10, 0x36, 0x87, 0x89, 0x31,
];

pub const IBSTREAM_IID: [u8; 16] = [
    0xC3, 0xBF, 0x6E, 0xA2, 0x30, 0x99, 0x47, 0x52,
    0x9B, 0x6B, 0xF9, 0x90, 0x1E, 0xE3, 0x3E, 0x9B,
];

pub const IPLUGIN_BASE_IID: [u8; 16] = [
    0x22, 0x88, 0x8D, 0xDB, 0x15, 0x6E, 0x45, 0xAE,
    0x83, 0x58, 0xB3, 0x48, 0x08, 0x19, 0x06, 0x25,
];

/// Result code: success.
pub const K_RESULT_OK: i32 = 0;

/// Result code: no error, but the operation was not performed.
pub const K_RESULT_FALSE: i32 = 1;

/// Media type: audio.
pub const K_AUDIO: i32 = 0;

/// Media type: event (MIDI).
pub const K_EVENT: i32 = 1;

/// Bus direction: input.
pub const K_INPUT: i32 = 0;

/// Bus direction: output.
pub const K_OUTPUT: i32 = 1;

/// Sample size: 32-bit float.
pub const K_SAMPLE_32: i32 = 0;

/// Process mode: real-time.
pub const K_REALTIME: i32 = 0;

/// Speaker arrangement: stereo (left and right).
pub const K_SPEAKER_STEREO: u64 = 3;

/// Speaker arrangement: mono.
pub const K_SPEAKER_MONO: u64 = 524288;

/// Event type: note on.
pub const K_NOTE_ON_EVENT: u16 = 0;

/// Event type: note off.
pub const K_NOTE_OFF_EVENT: u16 = 1;

/// Event flag: the event comes from real-time input.
pub const K_IS_LIVE: u16 = 1;

/// Parameter flag: can be automated.
pub const K_CAN_AUTOMATE: i32 = 1;

/// Parameter flag: read-only.
pub const K_IS_READ_ONLY: i32 = 2;

/// Parameter flag: is the bypass parameter.
pub const K_IS_BYPASS: i32 = 65536;

/// Platform type `NSView`, null-terminated.
pub const K_PLATFORM_TYPE_NSVIEW: [u8; 7] = [78, 83, 86, 105, 101, 119, 0];

/// Platform type `HWND`, null-terminated.
pub const K_PLATFORM_TYPE_HWND: [u8; 5] = [72, 87, 78, 68, 0];

/// Platform type `X11EmbedWindowID`, null-terminated.
pub const K_PLATFORM_TYPE_X11: [u8; 17] = [
    88, 49, 49, 69, 109, 98, 101, 100, 87, 105, 110, 100, 111, 119, 73, 68, 0,
];

/// A fixed buffer of UTF-16 code units, null-terminated.
pub type String128 = [u16; 128];

/// An interface or class identifier as the interfaces pass it.
pub type Tuid = [i8; 16];

/// The position of the first element that equals `zero`, or the length where there is none.
pub open spec fn terminated_len<T>(s: Seq<T>, zero: T) -> nat
    decreases s.len(),
{
    if s.len() == 0 || s[0] == zero {
        0
    } else {
        1 + terminated_len(s.skip(1), zero)
    }
}

/// The elements before the first one that equals `zero`.
pub open spec fn terminated<T>(s: Seq<T>, zero: T) -> Seq<T> {
    s.take(terminated_len(s, zero) as int)
}

proof fn lemma_terminated_len<T>(s: Seq<T>, zero: T, n: int)
    requires
        0 <= n <= s.len(),
        forall|i: int| 0 <= i < n ==> s[i] != zero,
        n == s.len() || s[n] == zero,
    ensures
        terminated_len(s, zero) == n,
    decreases s.len(),
{
    if n > 0 {
        lemma_terminated_len(s.skip(1), zero, n - 1);
    }
}

/// The byte with the same bits.
pub open spec fn byte_of(c: i8) -> u8 {
    if c < 0 {
        (c + 256) as u8
    } else {
        c as u8
    }
}

/// The signed character with the same bits.
pub open spec fn char8_of(b: u8) -> i8 {
    if b >= 128 {
        (b - 256) as i8
    } else {
        b as i8
    }
}

fn to_byte(c: i8) -> (b: u8)
    ensures
        b == byte_of(c),
{
    if c < 0 {
        (c as i16 + 256) as u8
    } else {
        c as u8
    }
}

fn to_char8(b: u8) -> (c: i8)
    ensures
        c == char8_of(b),
{
    if b >= 128 {
        (b as i16 - 256) as i8
    } else {
        b as i8
    }
}

/// What `String::from_utf8_lossy` makes of a sequence of bytes.
pub uninterp spec fn utf8_lossy(bytes: Seq<u8>) -> Seq<char>;

/// `String::from_utf8_lossy` reads bytes as UTF-8. Its result depends on the bytes alone, and is
/// the text that they encode where they are valid UTF-8.
#[verifier::external_body]
fn from_utf8_lossy(bytes: &[u8]) -> (s: String)
    ensures
        s@ == utf8_lossy(bytes@),
        vstd::utf8::valid_utf8(bytes@) ==> s@ == vstd::utf8::decode_utf8(bytes@),
{
    String::from_utf8_lossy(bytes).into_owned()
}

/// Converts a null-terminated buffer of signed characters to a string.
pub fn char8_to_string(buf: &[i8]) -> (s: String)
    ensures
        s@ == utf8_lossy(terminated(buf@, 0i8).map_values(|c: i8| byte_of(c))),
        ({
            let bytes = terminated(buf@, 0i8).map_values(|c: i8| byte_of(c));
            vstd::utf8::valid_utf8(bytes) ==> s@ == vstd::utf8::decode_utf8(bytes)
        }),
{
    let mut bytes: Vec<u8> = Vec::new();
    let mut i: usize = 0;
    while i < buf.len() && buf[i] != 0
        invariant
            i <= buf@.len(),
            bytes@ =~= buf@.take(i as int).map_values(|c: i8| byte_of(c)),
            forall|j: int| 0 <= j < i ==> buf@[j] != 0,
        decreases buf@.len() - i,
    {
        bytes.push(to_byte(buf[i]));
        i = i + 1;
    }
    proof {
        lemma_terminated_len(buf@, 0i8, i as int);
    }
    from_utf8_lossy(bytes.as_slice())
}

/// Converts a null-terminated buffer of UTF-16 code units to a string.
pub fn char16_to_string(buf: &[u16]) -> (s: String)
    ensures
        s@ == utf16::decoded(terminated(buf@, 0u16)),
{
    let mut end: usize = 0;
    while end < buf.len() && buf[end] != 0
        invariant
            end <= buf@.len(),
            forall|j: int| 0 <= j < end ==> buf@[j] != 0,
        decreases buf@.len() - end,
    {
        end = end + 1;
    }
    proof {
        lemma_terminated_len(buf@, 0u16, end as int);
    }
    utf16::decode(buf, end)
}

/// Converts a fixed string buffer to a string.
pub fn string128_to_string(s: &String128) -> (r: String)
    ensures
        r@ == utf16::decoded(terminated(s@, 0u16)),
{
    char16_to_string(s.as_slice())
}

/// What a fixed string buffer holds after a string was written to it: at most 127 code units of
/// the string, the terminating zero, and what was there before.
pub open spec fn written_string128(before: Seq<u16>, src: Seq<char>) -> Seq<u16> {
    let units = utf16::encoded(src);
    let n = if units.len() < 127 {
        units.len() as int
    } else {
        127
    };
    units.take(n) + seq![0u16] + before.skip(n + 1)
}

/// Writes a string into a fixed string buffer, as null-terminated UTF-16. What does not fit is
/// cut off.
pub fn write_string128(dst: &mut String128, src: &str)
    ensures
        final(dst)@ == written_string128(old(dst)@, src@),
{
    let units: Vec<u16> = utf16::encode(src);
    let mut i: usize = 0;
    while i < units.len() && i < 127
        invariant
            i <= units@.len(),
            i <= 127,
            units@ == utf16::encoded(src@),
            dst@.len() == 128,
            dst@ =~= units@.take(i as int) + old(dst)@.skip(i as int),
        decreases units@.len() - i,
    {
        dst[i] = units[i];
        i = i + 1;
    }
    dst[i] = 0;
    assert(dst@ =~= written_string128(old(dst)@, src@));
}

/// Reading a fixed string buffer gives back the string that was written to it, provided that the
/// string holds no null character and fits.
pub proof fn lemma_string128_round_trip(before: Seq<u16>, src: Seq<char>)
    requires
        before.len() == 128,
        !src.contains('\0'),
        utf16::encoded(src).len() <= 127,
    ensures
        utf16::decoded(terminated(written_string128(before, src), 0u16)) == src,
{
    let units = utf16::encoded(src);
    let after = written_string128(before, src);
    utf16::lemma_encoded_non_zero(src);
    utf16::lemma_decoded_encoded(src);
    lemma_terminated_len(after, 0u16, units.len() as int);
    assert(terminated(after, 0u16) =~= units);
}

/// The bytes of an identifier.
pub open spec fn tuid_bytes(tuid: Seq<i8>) -> Seq<u8> {
    tuid.map_values(|c: i8| byte_of(c))
}

/// An identifier with the given bytes.
pub open spec fn bytes_tuid(bytes: Seq<u8>) -> Seq<i8> {
    bytes.map_values(|b: u8| char8_of(b))
}

/// Converts an identifier to bytes, for comparison.
pub fn tuid_to_bytes(tuid: &Tuid) -> (bytes: [u8; 16])
    ensures
        bytes@ == tuid_bytes(tuid@),
{
    let mut bytes: [u8; 16] = [0; 16];
    let mut i: usize = 0;
    while i < 16
        invariant
            i <= 16,
            forall|j: int| 0 <= j < i ==> bytes@[j] == byte_of(tuid@[j]),
        decreases 16 - i,
    {
        bytes[i] = to_byte(tuid[i]);
        i = i + 1;
    }
    assert(bytes@ =~= tuid_bytes(tuid@));
    bytes
}

/// Converts the bytes of an identifier to the form that interface queries take.
pub fn iid_as_tuid_ptr(iid: &[u8; 16]) -> (tuid: Tuid)
    ensures
        tuid@ == bytes_tuid(iid@),
{
    let mut tuid: [i8; 16] = [0; 16];
    let mut i: usize = 0;
    while i < 16
        invariant
            i <= 16,
            forall|j: int| 0 <= j < i ==> tuid@[j] == char8_of(iid@[j]),
        decreases 16 - i,
    {
        tuid[i] = to_char8(iid[i]);
        i = i + 1;
    }
    assert(tuid@ =~= bytes_tuid(iid@));
    tuid
}

/// The two conversions of identifiers undo each other.
pub proof fn lemma_tuid_round_trip(tuid: Seq<i8>, bytes: Seq<u8>)
    ensures
        bytes_tuid(tuid_bytes(tuid)) == tuid,
        tuid_bytes(bytes_tuid(bytes)) == bytes,
{
    assert(bytes_tuid(tuid_bytes(tuid)) =~= tuid);
    assert(tuid_bytes(bytes_tuid(bytes)) =~= bytes);
}

/// The bytes of a 32-bit number, the most significant one first.
pub open spec fn be32(v: u32) -> Seq<u8> {
    seq![
        (v / 16777216) as u8,
        (v / 65536 % 256) as u8,
        (v / 256 % 256) as u8,
        (v % 256) as u8,
    ]
}

/// An identifier in the order of the platforms whose COM layer is Microsoft's: its first three
/// numbers have their least significant byte first.
pub open spec fn microsoft_order(id: Seq<u8>) -> Seq<u8> {
    seq![id[3], id[2], id[1], id[0], id[5], id[4], id[7], id[6]] + id.skip(8)
}

/// `vst3::uid` makes an identifier from four numbers, in the order that the platform uses: the one
/// in which identifiers are written, or Microsoft's. Which of the two it is depends on the platform
/// alone, and is not said here.
#[verifier::external_body]
fn uid(a: u32, b: u32, c: u32, d: u32) -> (id: [u8; 16])
    ensures
        id@ == be32(a) + be32(b) + be32(c) + be32(d) || id@ == microsoft_order(
            be32(a) + be32(b) + be32(c) + be32(d),
        ),
{
    vst3::uid(a, b, c, d).map(|byte| byte as u8)
}

fn word_at(id: &[u8; 16], at: usize) -> (v: u32)
    requires
        at <= 12,
    ensures
        be32(v) == id@.subrange(at as int, at + 4),
{
    let v: u32 = id[at] as u32 * 16777216 + id[at + 1] as u32 * 65536 + id[at + 2] as u32 * 256 + id[
    at + 3] as u32;
    assert(be32(v) =~= id@.subrange(at as int, at + 4));
    v
}

/// The identifier of an interface in the order in which plugins expect it on this platform.
pub fn platform_id(id: &[u8; 16]) -> (r: [u8; 16])
    ensures
        r@ == id@ || r@ == microsoft_order(id@),
{
    let a: u32 = word_at(id, 0);
    let b: u32 = word_at(id, 4);
    let c: u32 = word_at(id, 8);
    let d: u32 = word_at(id, 12);
    assert(be32(a) + be32(b) + be32(c) + be32(d) =~= id@);
    uid(a, b, c, d)
}

/// Putting an identifier in Microsoft's order twice gives it back, so no two identifiers become
/// the same on any platform.
pub proof fn lemma_microsoft_order_undone(id: Seq<u8>)
    requires
        id.len() == 16,
    ensures
        microsoft_order(id).len() == 16,
        microsoft_order(microsoft_order(id)) == id,
{
    assert(microsoft_order(microsoft_order(id)) =~= id);
}

/// `vst3::Steinberg::kInvalidArgument` is the result code for an invalid argument, which has one
/// value where the COM layer is Microsoft's and another elsewhere.
#[verifier::external_body]
fn invalid_argument_code() -> (code: i32)
    ensures
        code == 2 || code == -2147024809,
{
    vst3::Steinberg::kInvalidArgument
}

/// Result code of this platform: invalid argument.
pub fn k_invalid_argument() -> (code: i32)
    ensures
        code == 2 || code == -2147024809,
        code != K_RESULT_OK,
{
    invalid_argument_code()
}

/// `vst3::Steinberg::kNotImplemented` is the result code for what is not implemented, which has
/// one value where the COM layer is Microsoft's and another elsewhere.
#[verifier::external_body]
fn not_implemented_code() -> (code: i32)
    ensures
        code == 3 || code == -2147467263,
{
    vst3::Steinberg::kNotImplemented
}

/// Result code of this platform: not implemented.
pub fn k_not_implemented() -> (code: i32)
    ensures
        code == 3 || code == -2147467263,
        code != K_RESULT_OK,
{
    not_implemented_code()
}

/// A rectangle of an editor view.
#[derive(Clone, Copy, Debug, PartialEq, Eq, Structural)]
pub struct ViewRect {
    pub left: i32,
    pub top: i32,
    pub right: i32,
    pub bottom: i32,
}

/// The width of a rectangle.
pub fn view_rect_width(rect: &ViewRect) -> (width: i32)
    requires
        i32::MIN <= rect.right - rect.left <= i32::MAX,
    ensures
        width == rect.right - rect.left,
{
    rect.right - rect.left
}

/// The height of a rectangle.
pub fn view_rect_height(rect: &ViewRect) -> (height: i32)
    requires
        i32::MIN <= rect.bottom - rect.top <= i32::MAX,
    ensures
        height == rect.bottom - rect.top,
{
    rect.bottom - rect.top
}

/// A note that starts. The fields that end in `bits` hold the bit patterns of floating-point
/// numbers.
#[derive(Clone, Copy, Debug, PartialEq, Eq, Structural)]
pub struct NoteOnEvent {
    pub channel: i16,
    pub pitch: i16,
    pub tuning_bits: u32,
    pub velocity_bits: u32,
    pub length: i32,
    pub note_id: i32,
}

/// A note that ends.
#[derive(Clone, Copy, Debug, PartialEq, Eq, Structural)]
pub struct NoteOffEvent {
    pub channel: i16,
    pub pitch: i16,
    pub velocity_bits: u32,
    pub note_id: i32,
    pub tuning_bits: u32,
}

/// What an event carries.
#[derive(Clone, Copy, Debug, PartialEq, Eq, Structural)]
pub enum EventData {
    NoteOn(NoteOnEvent),
    NoteOff(NoteOffEvent),
}

/// An event for the plugin.
#[derive(Clone, Copy, Debug, PartialEq, Eq, Structural)]
pub struct Event {
    pub bus_index: i32,
    pub sample_offset: i32,
    pub ppq_position_bits: u64,
    pub flags: u16,
    pub event_type: u16,
    pub data: EventData,
}

impl Event {
    /// The type field says what the event carries.
    pub open spec fn wf(self) -> bool {
        match self.data {
            EventData::NoteOn(_) => self.event_type == K_NOTE_ON_EVENT,
            EventData::NoteOff(_) => self.event_type == K_NOTE_OFF_EVENT,
        }
    }
}

/// Creates a note-on event on the first bus, live, with neither tuning nor a known length.
pub fn make_note_on_event(
    sample_offset: i32,
    channel: i16,
    pitch: i16,
    velocity_bits: u32,
    note_id: i32,
) -> (event: Event)
    ensures
        event.wf(),
        event == (Event {
            bus_index: 0,
            sample_offset,
            ppq_position_bits: 0,
            flags: K_IS_LIVE,
            event_type: K_NOTE_ON_EVENT,
            data: EventData::NoteOn(
                NoteOnEvent { channel, pitch, tuning_bits: 0, velocity_bits, length: 0, note_id },
            ),
        }),
{
    Event {
        bus_index: 0,
        sample_offset,
        ppq_position_bits: 0,
        flags: K_IS_LIVE,
        event_type: K_NOTE_ON_EVENT,
        data: EventData::NoteOn(
            NoteOnEvent { channel, pitch, tuning_bits: 0, velocity_bits, length: 0, note_id },
        ),
    }
}

/// Creates a note-off event on the first bus, live, without tuning.
pub fn make_note_off_event(
    sample_offset: i32,
    channel: i16,
    pitch: i16,
    velocity_bits: u32,
    note_id: i32,
) -> (event: Event)
    ensures
        event.wf(),
        event == (Event {
            bus_index: 0,
            sample_offset,
            ppq_position_bits: 0,
            flags: K_IS_LIVE,
            event_type: K_NOTE_OFF_EVENT,
            data: EventData::NoteOff(
                NoteOffEvent { channel, pitch, velocity_bits, note_id, tuning_bits: 0 },
            ),
        }),
{
    Event {
        bus_index: 0,
        sample_offset,
        ppq_position_bits: 0,
        flags: K_IS_LIVE,
        event_type: K_NOTE_OFF_EVENT,
        data: EventData::NoteOff(
            NoteOffEvent { channel, pitch, velocity_bits, note_id, tuning_bits: 0 },
        ),
    }
}

/// The note that a note-on event carries.
pub fn event_as_note_on(event: &Event) -> (note: &NoteOnEvent)
    requires
        event.wf(),
        event.event_type == K_NOTE_ON_EVENT,
    ensures
        event.data == EventData::NoteOn(*note),
{
    match &event.data {
        EventData::NoteOn(note) => note,
        EventData::NoteOff(_) => vstd::pervasive::unreached(),
    }
}

/// The note that a note-off event carries.
pub fn event_as_note_off(event: &Event) -> (note: &NoteOffEvent)
    requires
        event.wf(),
        event.event_type == K_NOTE_OFF_EVENT,
    ensures
        event.data == EventData::NoteOff(*note),
{
    match &event.data {
        EventData::NoteOff(note) => note,
        EventData::NoteOn(_) => vstd::pervasive::unreached(),
    }
}

/// `None` for the empty string, the string itself otherwise.
pub fn non_empty(s: String) -> (r: Option<String>)
    ensures
        r == (if s@.len() == 0 {
            None
        } else {
            Some(s)
        }),
{
    if s.as_str().unicode_len() == 0 {
        None
    } else {
        Some(s)
    }
}

/// What is read of a buffer ends before the first zero: there is none in it, and what follows it is
/// a zero or the end of the buffer.
pub proof fn lemma_terminated<T>(s: Seq<T>, zero: T)
    ensures
        terminated_len(s, zero) <= s.len(),
        ({
            let read = terminated(s, zero);
            &&& read.len() <= s.len()
            &&& read == s.take(read.len() as int)
            &&& !read.contains(zero)
            &&& read.len() < s.len() ==> s[read.len() as int] == zero
        }),
    decreases s.len(),
{
    if s.len() > 0 && s[0] != zero {
        lemma_terminated(s.skip(1), zero);
        let rest = terminated(s.skip(1), zero);
        assert(terminated(s, zero) =~= seq![s[0]] + rest);
        assert forall|i: int| 0 <= i < terminated(s, zero).len() implies terminated(s, zero)[i]
            != zero by {
            if i > 0 {
                assert(rest.contains(rest[i - 1]));
            }
        }
        assert(rest.len() < s.skip(1).len() ==> s.skip(1)[rest.len() as int] == zero);
    }
}

/// A byte and a signed character with the same bits differ by a multiple of 256.
pub proof fn lemma_same_bits(c: i8, b: u8)
    ensures
        (byte_of(c) - c) % 256 == 0,
        (char8_of(b) - b) % 256 == 0,
        byte_of(c) == b <==> char8_of(b) == c,
{
}

/// What is written to a fixed buffer: as much of the string as there is room for in front of the
/// terminating zero, which is always there. What lies behind that stays as it was.
pub proof fn lemma_written_string128(before: Seq<u16>, src: Seq<char>)
    requires
        before.len() == 128,
    ensures
        ({
            let units = utf16::encoded(src);
            let after = written_string128(before, src);
            let n = if units.len() <= 127 {
                units.len() as int
            } else {
                127
            };
            &&& after.len() == 128
            &&& forall|i: int| 0 <= i < n ==> #[trigger] after[i] == units[i]
            &&& after[n] == 0
            &&& forall|i: int| n < i < 128 ==> #[trigger] after[i] == before[i]
        }),
{
}

/// In Microsoft's order the first number of an identifier has its four bytes turned round, the
/// second and the third have their two bytes turned round, and the rest stays as it is.
pub proof fn lemma_microsoft_order(id: Seq<u8>)
    requires
        id.len() == 16,
    ensures
        ({
            let other = microsoft_order(id);
            &&& other.len() == 16
            &&& forall|i: int| 0 <= i < 4 ==> #[trigger] other[i] == id[3 - i]
            &&& forall|i: int| 4 <= i < 6 ==> #[trigger] other[i] == id[9 - i]
            &&& forall|i: int| 6 <= i < 8 ==> #[trigger] other[i] == id[13 - i]
            &&& forall|i: int| 8 <= i < 16 ==> #[trigger] other[i] == id[i]
        }),
{
}

} // verus!
