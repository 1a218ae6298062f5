//! The event codec: a closed set of typed event variants, the fixed-layout
//! tagged record they travel in, and the conversions between the two.
//!
//! Every known event kind carries its own distinct wire tag, and decoding
//! recognises exactly that closed set: a record whose tag lies outside it
//! decodes to no variant at all, so future protocol revisions can add kinds
//! that old consumers safely ignore.

use vstd::prelude::*;

verus! {

use core::cmp::Ordering;

/// Wire tag of a note-on record.
pub const EVENT_TAG_NOTE_ON: u32 = 0;
/// Wire tag of a note-off record.
pub const EVENT_TAG_NOTE_OFF: u32 = 1;
/// Wire tag of a note-end record.
pub const EVENT_TAG_NOTE_END: u32 = 2;
/// Wire tag of a note-choke record.
pub const EVENT_TAG_NOTE_CHOKE: u32 = 3;
/// Wire tag of a note-expression record.
pub const EVENT_TAG_NOTE_EXPRESSION: u32 = 4;
/// Wire tag of a note-mask record.
pub const EVENT_TAG_NOTE_MASK: u32 = 5;
/// Wire tag of a parameter-value record.
pub const EVENT_TAG_PARAM_VALUE: u32 = 6;
/// Wire tag of a parameter-modulation record.
pub const EVENT_TAG_PARAM_MOD: u32 = 7;
/// Wire tag of a transport record.
pub const EVENT_TAG_TRANSPORT: u32 = 8;
/// Wire tag of a raw MIDI record.
pub const EVENT_TAG_MIDI: u32 = 9;
/// Wire tag of a MIDI system-exclusive record.
pub const EVENT_TAG_MIDI_SYSEX: u32 = 10;

/// True exactly on the tags of the closed set of known event kinds.
pub open spec fn known_tag(tag: u32) -> bool {
    tag <= EVENT_TAG_MIDI_SYSEX
}

/// Payload shared by the four per-note event kinds.
///
/// The velocity travels as a 64-bit value whose numeric interpretation is the
/// producer's business; the codec stores and returns its bit pattern verbatim.
#[derive(Copy, Clone, Debug, PartialEq, Eq, Structural)]
pub struct NoteEvent {
    pub port_index: i32,
    pub channel: i32,
    pub key: i32,
    pub note_id: i32,
    pub velocity_bits: u64,
}

/// Payload of a note-expression event: which expression, which note it
/// targets, and the expression value's bit pattern.
#[derive(Copy, Clone, Debug, PartialEq, Eq, Structural)]
pub struct NoteExpressionEvent {
    pub expression_kind: i32,
    pub port_index: i32,
    pub channel: i32,
    pub key: i32,
    pub note_id: i32,
    pub value_bits: u64,
}

/// Payload of a note-mask event: a bitmask over note classes.
#[derive(Copy, Clone, Debug, PartialEq, Eq, Structural)]
pub struct NoteMaskEvent {
    pub port_index: i32,
    pub note_mask: u32,
}

/// Payload of a parameter-value event: the parameter, the targeted note if
/// any, and the new value's bit pattern.
#[derive(Copy, Clone, Debug, PartialEq, Eq, Structural)]
pub struct ParamValueEvent {
    pub param_id: u32,
    pub note_id: i32,
    pub value_bits: u64,
}

/// Payload of a parameter-modulation event: the parameter, the targeted note
/// if any, and the modulation amount's bit pattern.
#[derive(Copy, Clone, Debug, PartialEq, Eq, Structural)]
pub struct ParamModEvent {
    pub param_id: u32,
    pub note_id: i32,
    pub amount_bits: u64,
}

/// Payload of a transport event: a snapshot of musical time and tempo.
#[derive(Copy, Clone, Debug, PartialEq, Eq, Structural)]
pub struct TransportEvent {
    pub flags: u32,
    pub song_pos_beats_bits: u64,
    pub tempo_bits: u64,
}

/// Payload of a raw MIDI event: the port and the three message bytes.
#[derive(Copy, Clone, Debug, PartialEq, Eq, Structural)]
pub struct MidiEvent {
    pub port_index: i32,
    pub data0: u8,
    pub data1: u8,
    pub data2: u8,
}

/// Payload of a MIDI system-exclusive event: the port and a borrowed byte
/// range owned by the current processing block's buffer.
///
/// The bytes are never copied implicitly; the borrow ties any decoded view of
/// them to the lifetime of that buffer.
#[derive(Copy, Clone, Debug)]
pub struct MidiSysexEvent<'a> {
    pub port_index: i32,
    pub buffer: &'a [u8],
}

/// The closed set of decoded event variants.
#[derive(Copy, Clone, Debug)]
pub enum EventType<'a> {
    NoteOn(NoteEvent),
    NoteOff(NoteEvent),
    NoteEnd(NoteEvent),
    NoteChoke(NoteEvent),
    NoteExpression(NoteExpressionEvent),
    NoteMask(NoteMaskEvent),
    ParamValue(ParamValueEvent),
    ParamMod(ParamModEvent),
    Transport(TransportEvent),
    Midi(MidiEvent),
    MidiSysex(MidiSysexEvent<'a>),
}

/// The record's payload region, modelled as one field per known shape.
///
/// On the wire this region is a union sized to the largest shape; here each
/// record states which shape it carries, and well-formedness ties that shape
/// to the record's tag.
#[derive(Copy, Clone, Debug)]
pub enum EventData<'a> {
    Note(NoteEvent),
    NoteExpression(NoteExpressionEvent),
    NoteMask(NoteMaskEvent),
    ParamValue(ParamValueEvent),
    ParamMod(ParamModEvent),
    Transport(TransportEvent),
    Midi(MidiEvent),
    MidiSysex(MidiSysexEvent<'a>),
}

/// One fixed-layout wire record: a tag selecting the payload interpretation,
/// the payload itself, and the sample offset within the current block.
#[derive(Copy, Clone, Debug)]
pub struct RawEvent<'a> {
    pub event_type: u32,
    pub data: EventData<'a>,
    pub time: u32,
}

/// The tag that encoding writes for each variant.
pub open spec fn tag_of(event: EventType) -> u32 {
    match event {
        EventType::NoteOn(_) => EVENT_TAG_NOTE_ON,
        EventType::NoteOff(_) => EVENT_TAG_NOTE_OFF,
        EventType::NoteEnd(_) => EVENT_TAG_NOTE_END,
        EventType::NoteChoke(_) => EVENT_TAG_NOTE_CHOKE,
        EventType::NoteExpression(_) => EVENT_TAG_NOTE_EXPRESSION,
        EventType::NoteMask(_) => EVENT_TAG_NOTE_MASK,
        EventType::ParamValue(_) => EVENT_TAG_PARAM_VALUE,
        EventType::ParamMod(_) => EVENT_TAG_PARAM_MOD,
        EventType::Transport(_) => EVENT_TAG_TRANSPORT,
        EventType::Midi(_) => EVENT_TAG_MIDI,
        EventType::MidiSysex(_) => EVENT_TAG_MIDI_SYSEX,
    }
}

/// The payload that encoding writes for each variant.
pub open spec fn data_of(event: EventType) -> EventData {
    match event {
        EventType::NoteOn(e) => EventData::Note(e),
        EventType::NoteOff(e) => EventData::Note(e),
        EventType::NoteEnd(e) => EventData::Note(e),
        EventType::NoteChoke(e) => EventData::Note(e),
        EventType::NoteExpression(e) => EventData::NoteExpression(e),
        EventType::NoteMask(e) => EventData::NoteMask(e),
        EventType::ParamValue(e) => EventData::ParamValue(e),
        EventType::ParamMod(e) => EventData::ParamMod(e),
        EventType::Transport(e) => EventData::Transport(e),
        EventType::Midi(e) => EventData::Midi(e),
        EventType::MidiSysex(e) => EventData::MidiSysex(e),
    }
}

/// What decoding yields for a given tag and payload: the matching variant for
/// a known tag whose payload carries that tag's shape, and nothing otherwise.
pub open spec fn decode_of(tag: u32, data: EventData) -> Option<EventType> {
    if tag == EVENT_TAG_NOTE_ON {
        match data {
            EventData::Note(e) => Some(EventType::NoteOn(e)),
            _ => None,
        }
    } else if tag == EVENT_TAG_NOTE_OFF {
        match data {
            EventData::Note(e) => Some(EventType::NoteOff(e)),
            _ => None,
        }
    } else if tag == EVENT_TAG_NOTE_END {
        match data {
            EventData::Note(e) => Some(EventType::NoteEnd(e)),
            _ => None,
        }
    } else if tag == EVENT_TAG_NOTE_CHOKE {
        match data {
            EventData::Note(e) => Some(EventType::NoteChoke(e)),
            _ => None,
        }
    } else if tag == EVENT_TAG_NOTE_EXPRESSION {
        match data {
            EventData::NoteExpression(e) => Some(EventType::NoteExpression(e)),
            _ => None,
        }
    } else if tag == EVENT_TAG_NOTE_MASK {
        match data {
            EventData::NoteMask(e) => Some(EventType::NoteMask(e)),
            _ => None,
        }
    } else if tag == EVENT_TAG_PARAM_VALUE {
        match data {
            EventData::ParamValue(e) => Some(EventType::ParamValue(e)),
            _ => None,
        }
    } else if tag == EVENT_TAG_PARAM_MOD {
        match data {
            EventData::ParamMod(e) => Some(EventType::ParamMod(e)),
            _ => None,
        }
    } else if tag == EVENT_TAG_TRANSPORT {
        match data {
            EventData::Transport(e) => Some(EventType::Transport(e)),
            _ => None,
        }
    } else if tag == EVENT_TAG_MIDI {
        match data {
            EventData::Midi(e) => Some(EventType::Midi(e)),
            _ => None,
        }
    } else if tag == EVENT_TAG_MIDI_SYSEX {
        match data {
            EventData::MidiSysex(e) => Some(EventType::MidiSysex(e)),
            _ => None,
        }
    } else {
        None
    }
}

/// What decoding yields for a whole record.
pub open spec fn decode_record(raw: RawEvent) -> Option<EventType> {
    decode_of(raw.event_type, raw.data)
}

/// A record is well formed when a known tag is accompanied by the payload
/// shape that tag selects; records with unknown tags are unconstrained.
pub open spec fn record_wf(raw: RawEvent) -> bool {
    known_tag(raw.event_type) ==> decode_record(raw) is Some
}

impl<'a> EventType<'a> {
    /// Decodes one tag/payload pair into its variant, or into nothing when
    /// the tag lies outside the known set or the payload shape does not match.
    pub fn from_raw(tag: u32, data: EventData<'a>) -> (r: Option<EventType<'a>>)
        ensures
            r == decode_of(tag, data),
    {
        if tag == EVENT_TAG_NOTE_ON {
            match data {
                EventData::Note(e) => Some(EventType::NoteOn(e)),
                _ => None,
            }
        } else if tag == EVENT_TAG_NOTE_OFF {
            match data {
                EventData::Note(e) => Some(EventType::NoteOff(e)),
                _ => None,
            }
        } else if tag == EVENT_TAG_NOTE_END {
            match data {
                EventData::Note(e) => Some(EventType::NoteEnd(e)),
                _ => None,
            }
        } else if tag == EVENT_TAG_NOTE_CHOKE {
            match data {
                EventData::Note(e) => Some(EventType::NoteChoke(e)),
                _ => None,
            }
        } else if tag == EVENT_TAG_NOTE_EXPRESSION {
            match data {
                EventData::NoteExpression(e) => Some(EventType::NoteExpression(e)),
                _ => None,
            }
        } else if tag == EVENT_TAG_NOTE_MASK {
            match data {
                EventData::NoteMask(e) => Some(EventType::NoteMask(e)),
                _ => None,
            }
        } else if tag == EVENT_TAG_PARAM_VALUE {
            match data {
                EventData::ParamValue(e) => Some(EventType::ParamValue(e)),
                _ => None,
            }
        } else if tag == EVENT_TAG_PARAM_MOD {
            match data {
                EventData::ParamMod(e) => Some(EventType::ParamMod(e)),
                _ => None,
            }
        } else if tag == EVENT_TAG_TRANSPORT {
            match data {
                EventData::Transport(e) => Some(EventType::Transport(e)),
                _ => None,
            }
        } else if tag == EVENT_TAG_MIDI {
            match data {
                EventData::Midi(e) => Some(EventType::Midi(e)),
                _ => None,
            }
        } else if tag == EVENT_TAG_MIDI_SYSEX {
            match data {
                EventData::MidiSysex(e) => Some(EventType::MidiSysex(e)),
                _ => None,
            }
        } else {
            None
        }
    }

    /// Encodes this variant into the tag and payload of its wire record.
    pub fn into_raw(self) -> (r: (u32, EventData<'a>))
        ensures
            r.0 == tag_of(self),
            r.1 == data_of(self),
    {
        match self {
            EventType::NoteOn(e) => (EVENT_TAG_NOTE_ON, EventData::Note(e)),
            EventType::NoteOff(e) => (EVENT_TAG_NOTE_OFF, EventData::Note(e)),
            EventType::NoteEnd(e) => (EVENT_TAG_NOTE_END, EventData::Note(e)),
            EventType::NoteChoke(e) => (EVENT_TAG_NOTE_CHOKE, EventData::Note(e)),
            EventType::NoteExpression(e) => (EVENT_TAG_NOTE_EXPRESSION, EventData::NoteExpression(e)),
            EventType::NoteMask(e) => (EVENT_TAG_NOTE_MASK, EventData::NoteMask(e)),
            EventType::ParamValue(e) => (EVENT_TAG_PARAM_VALUE, EventData::ParamValue(e)),
            EventType::ParamMod(e) => (EVENT_TAG_PARAM_MOD, EventData::ParamMod(e)),
            EventType::Transport(e) => (EVENT_TAG_TRANSPORT, EventData::Transport(e)),
            EventType::Midi(e) => (EVENT_TAG_MIDI, EventData::Midi(e)),
            EventType::MidiSysex(e) => (EVENT_TAG_MIDI_SYSEX, EventData::MidiSysex(e)),
        }
    }
}

/// A typed view of one wire record.
///
/// The record is held by value: converting from and to the raw form is an
/// explicit, bounded copy of one small record, never a reinterpretation of
/// memory, so no layout or aliasing obligation is left to the caller.
#[derive(Copy, Clone, Debug)]
pub struct Event<'a> {
    pub raw: RawEvent<'a>,
}

impl<'a> Event<'a> {
    /// Encodes a variant and a timestamp into a fresh, well-formed record.
    pub fn new(time: u32, event: EventType<'a>) -> (r: Event<'a>)
        ensures
            r.raw.time == time,
            r.raw.event_type == tag_of(event),
            r.raw.data == data_of(event),
            record_wf(r.raw),
            decode_record(r.raw) == Some(event),
    {
        let (event_type, data) = event.into_raw();
        Event { raw: RawEvent { event_type, data, time } }
    }

    /// The record's sample offset within the current processing block.
    pub fn time(&self) -> (r: u32)
        ensures
            r == self.raw.time,
    {
        self.raw.time
    }

    /// Decodes the record's variant, or nothing for a tag outside the known
    /// set — the forward-compatibility policy, not an error.
    pub fn event(&self) -> (r: Option<EventType<'a>>)
        ensures
            r == decode_record(self.raw),
    {
        EventType::from_raw(self.raw.event_type, self.raw.data)
    }

    /// Takes a typed view of an existing raw record, copying it.
    pub fn from_raw(raw: &RawEvent<'a>) -> (r: Event<'a>)
        ensures
            r.raw == *raw,
    {
        Event { raw: *raw }
    }

    /// Hands the underlying raw record back, copying it.
    pub fn as_raw(&self) -> (r: RawEvent<'a>)
        ensures
            r == self.raw,
    {
        self.raw
    }

    /// Borrows the underlying raw record for in-place mutation; the view and
    /// the record stay one and the same value throughout the borrow.
    pub fn as_raw_mut(&mut self) -> (r: &mut RawEvent<'a>)
        ensures
            *r == old(self).raw,
            final(self).raw == *final(r),
    {
        &mut self.raw
    }
}

/// Round trip: encoding any variant at any timestamp and decoding the record
/// recovers exactly that variant, and the stored timestamp verbatim.
pub proof fn lemma_decode_encode(time: u32, event: EventType)
    ensures
        decode_of(tag_of(event), data_of(event)) == Some(event),
        record_wf(RawEvent { event_type: tag_of(event), data: data_of(event), time }),
{
}

/// Exactness: whenever a record decodes to a variant, encoding that variant
/// writes the record's own tag and payload back — decoding loses nothing.
pub proof fn lemma_encode_decode(raw: RawEvent)
    requires
        decode_record(raw) is Some,
    ensures
        tag_of(decode_record(raw).unwrap()) == raw.event_type,
        data_of(decode_record(raw).unwrap()) == raw.data,
{
}

/// Forward compatibility: a record whose tag lies outside the known set
/// decodes to no variant, whatever its payload and timestamp hold.
pub proof fn lemma_unknown_tag_decodes_to_none(raw: RawEvent)
    requires
        !known_tag(raw.event_type),
    ensures
        decode_record(raw) is None,
{
}

/// Two system-exclusive payloads are equal when they target the same port and
/// carry byte-for-byte equal contents, wherever those bytes live.
pub open spec fn sysex_eq(a: MidiSysexEvent, b: MidiSysexEvent) -> bool {
    a.port_index == b.port_index && a.buffer@ == b.buffer@
}

/// Value equality of decoded variants: same variant, fields equal by value; a
/// system-exclusive payload compares by its byte contents, never by reference.
pub open spec fn variant_eq(a: EventType, b: EventType) -> bool {
    match (a, b) {
        (EventType::NoteOn(x), EventType::NoteOn(y)) => x == y,
        (EventType::NoteOff(x), EventType::NoteOff(y)) => x == y,
        (EventType::NoteEnd(x), EventType::NoteEnd(y)) => x == y,
        (EventType::NoteChoke(x), EventType::NoteChoke(y)) => x == y,
        (EventType::NoteExpression(x), EventType::NoteExpression(y)) => x == y,
        (EventType::NoteMask(x), EventType::NoteMask(y)) => x == y,
        (EventType::ParamValue(x), EventType::ParamValue(y)) => x == y,
        (EventType::ParamMod(x), EventType::ParamMod(y)) => x == y,
        (EventType::Transport(x), EventType::Transport(y)) => x == y,
        (EventType::Midi(x), EventType::Midi(y)) => x == y,
        (EventType::MidiSysex(x), EventType::MidiSysex(y)) => sysex_eq(x, y),
        _ => false,
    }
}

/// Value equality of decode results: both absent, or both the same variant.
pub open spec fn opt_variant_eq(a: Option<EventType>, b: Option<EventType>) -> bool {
    match (a, b) {
        (Some(x), Some(y)) => variant_eq(x, y),
        (None, None) => true,
        _ => false,
    }
}

/// Event equality: equal timestamp and equal decoded variant value. Raw
/// payload bytes never take part, so two records encoded differently are
/// still equal events when they decode alike.
pub open spec fn event_eq(a: Event, b: Event) -> bool {
    a.raw.time == b.raw.time && opt_variant_eq(decode_record(a.raw), decode_record(b.raw))
}

/// The order the codec puts on events: by timestamp alone. Payloads take no
/// part, so events with equal timestamps compare as equal in order without
/// having to be equal as events.
pub open spec fn time_order(a: Event, b: Event) -> Option<Ordering> {
    if a.raw.time < b.raw.time {
        Some(Ordering::Less)
    } else if a.raw.time == b.raw.time {
        Some(Ordering::Equal)
    } else {
        Some(Ordering::Greater)
    }
}

/// Byte-for-byte comparison of two borrowed byte ranges.
fn bytes_eq(a: &[u8], b: &[u8]) -> (r: bool)
    ensures
        r == (a@ == b@),
{
    if a.len() != b.len() {
        return false;
    }
    let mut i: usize = 0;
    while i < a.len()
        invariant
            i <= a@.len(),
            a@.len() == b@.len(),
            forall|j: int| 0 <= j < i ==> a@[j] == b@[j],
        decreases a@.len() - i,
    {
        if a[i] != b[i] {
            return false;
        }
        i = i + 1;
    }
    proof {
        assert(a@ =~= b@);
    }
    true
}

impl<'a> EventType<'a> {
    /// Compares two decoded variants by value, as `variant_eq` states.
    pub fn value_eq(&self, other: &EventType<'a>) -> (r: bool)
        ensures
            r == variant_eq(*self, *other),
    {
        match (self, other) {
            (EventType::NoteOn(x), EventType::NoteOn(y)) => *x == *y,
            (EventType::NoteOff(x), EventType::NoteOff(y)) => *x == *y,
            (EventType::NoteEnd(x), EventType::NoteEnd(y)) => *x == *y,
            (EventType::NoteChoke(x), EventType::NoteChoke(y)) => *x == *y,
            (EventType::NoteExpression(x), EventType::NoteExpression(y)) => *x == *y,
            (EventType::NoteMask(x), EventType::NoteMask(y)) => *x == *y,
            (EventType::ParamValue(x), EventType::ParamValue(y)) => *x == *y,
            (EventType::ParamMod(x), EventType::ParamMod(y)) => *x == *y,
            (EventType::Transport(x), EventType::Transport(y)) => *x == *y,
            (EventType::Midi(x), EventType::Midi(y)) => *x == *y,
            (EventType::MidiSysex(x), EventType::MidiSysex(y)) => {
                x.port_index == y.port_index && bytes_eq(x.buffer, y.buffer)
            }
            _ => false,
        }
    }
}

impl<'a> PartialEq for Event<'a> {
    fn eq(&self, other: &Self) -> (r: bool) {
        if self.raw.time != other.raw.time {
            return false;
        }
        let ea = self.event();
        let eb = other.event();
        match (ea, eb) {
            (Some(x), Some(y)) => x.value_eq(&y),
            (None, None) => true,
            _ => false,
        }
    }
}

impl<'a> vstd::std_specs::cmp::PartialEqSpecImpl for Event<'a> {
    open spec fn obeys_eq_spec() -> bool {
        true
    }

    open spec fn eq_spec(&self, other: &Event<'a>) -> bool {
        event_eq(*self, *other)
    }
}

impl<'a> PartialOrd for Event<'a> {
    fn partial_cmp(&self, other: &Self) -> (r: Option<Ordering>) {
        if self.raw.time < other.raw.time {
            Some(Ordering::Less)
        } else if self.raw.time == other.raw.time {
            Some(Ordering::Equal)
        } else {
            Some(Ordering::Greater)
        }
    }
}

impl<'a> vstd::std_specs::cmp::PartialOrdSpecImpl for Event<'a> {
    open spec fn obeys_partial_cmp_spec() -> bool {
        true
    }

    open spec fn partial_cmp_spec(&self, other: &Event<'a>) -> Option<Ordering> {
        time_order(*self, *other)
    }
}

/// Equality semantics: a matching timestamp and matching decoded variant make
/// two events equal; nothing about their raw payloads is required to agree.
pub proof fn lemma_eq_by_decoded_value(a: Event, b: Event)
    requires
        a.raw.time == b.raw.time,
        opt_variant_eq(decode_record(a.raw), decode_record(b.raw)),
    ensures
        event_eq(a, b),
{
}

/// The time order is total: any two events are ordered.
pub proof fn lemma_time_order_total(a: Event, b: Event)
    ensures
        time_order(a, b) is Some,
{
}

/// The time order looks at timestamps alone: events with equal timestamps
/// compare as equal in order even when their decoded variants differ.
pub proof fn lemma_time_order_ignores_variant(a: Event, b: Event)
    requires
        a.raw.time == b.raw.time,
    ensures
        time_order(a, b) == Some(Ordering::Equal),
{
}

} // verus!
