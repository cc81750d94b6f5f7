//! Hardware input: parsing MIDI messages, naming MIDI ports, checking the
//! hardware settings, and the learn state machine that turns the next
//! incoming MIDI or OSC event into a binding.
use vstd::prelude::*;
use vstd::string::StringExecFns;
use crate::domain::{
    new_id, is_uuid_v4_text, BindingTarget, SessionDocument, HardwareBinding, HardwareRuntimeDiagnostic,
    HardwareRuntimeDiagnosticCode, HardwareRuntimeSettings, HardwareSource, ValueTransform,
};
use crate::session_store::SessionStore;
use crate::text::{chars_of, decimal_string, lemma_parse_decimal, parse_usize_from, spec_decimal, spec_parse_usize};

verus! {

// ---------------------------------------------------------------------------
// MIDI messages
// ---------------------------------------------------------------------------

/// A MIDI event that can be learned or routed.
#[derive(Clone, Copy, Debug, PartialEq, Eq, Structural)]
#[allow(inconsistent_fields)]
pub enum MidiLearnEvent {
    MidiCc { channel: u8, controller: u8, value: u8 },
    MidiNote { channel: u8, note: u8, velocity: u8 },
    MidiPitchBend { channel: u8, value: u16 },
}

/// The event a raw MIDI message stands for: control change (`0xBn`),
/// note on (`0x9n`) and pitch bend (`0xEn`, 14 bits, low byte first), each
/// with two data bytes; anything else, or a shorter message, is none.
pub open spec fn midi_event_of(m: Seq<u8>) -> Option<MidiLearnEvent> {
    if m.len() == 0 {
        None
    } else {
        let command = m[0] & 0xF0u8;
        let channel = m[0] & 0x0Fu8;
        if m.len() < 3 {
            None
        } else if command == 0xB0u8 {
            Some(MidiLearnEvent::MidiCc { channel, controller: m[1], value: m[2] })
        } else if command == 0x90u8 {
            Some(MidiLearnEvent::MidiNote { channel, note: m[1], velocity: m[2] })
        } else if command == 0xE0u8 {
            Some(
                MidiLearnEvent::MidiPitchBend {
                    channel,
                    value: ((m[2] as u16) << 7u16) | (m[1] as u16),
                },
            )
        } else {
            None
        }
    }
}

/// Parses a raw MIDI message.
pub fn parse_midi_message(message: &[u8]) -> (r: Option<MidiLearnEvent>)
    ensures
        r == midi_event_of(message@),
{
    if message.len() == 0 {
        return None;
    }
    let status = message[0];
    let command = status & 0xF0;
    let channel = status & 0x0F;
    if command == 0xB0 {
        if message.len() >= 3 {
            Some(MidiLearnEvent::MidiCc { channel, controller: message[1], value: message[2] })
        } else {
            None
        }
    } else if command == 0x90 {
        if message.len() >= 3 {
            Some(MidiLearnEvent::MidiNote { channel, note: message[1], velocity: message[2] })
        } else {
            None
        }
    } else if command == 0xE0 {
        if message.len() >= 3 {
            let lsb = message[1] as u16;
            let msb = message[2] as u16;
            assert(msb << 7u16 <= 0x7f80u16) by (bit_vector)
                requires
                    msb <= 255u16,
            ;
            Some(MidiLearnEvent::MidiPitchBend { channel, value: (msb << 7) | lsb })
        } else {
            None
        }
    } else {
        None
    }
}

/// A three-byte (or longer) MIDI message is read by its status byte: the
/// high four bits give the kind (`0x9` note on, `0xB` control change,
/// `0xE` pitch bend, nothing else), the low four bits the channel, and
/// the next two bytes the data. A pitch bend's two 7-bit data bytes make
/// one 14-bit value, low byte first. A shorter message is nothing.
pub proof fn lemma_midi_message_fields(status: u8, d1: u8, d2: u8, rest: Seq<u8>)
    ensures
        status / 16 == 9 ==> midi_event_of(seq![status, d1, d2] + rest) == Some(
            MidiLearnEvent::MidiNote { channel: (status % 16) as u8, note: d1, velocity: d2 },
        ),
        status / 16 == 11 ==> midi_event_of(seq![status, d1, d2] + rest) == Some(
            MidiLearnEvent::MidiCc { channel: (status % 16) as u8, controller: d1, value: d2 },
        ),
        status / 16 == 14 && d1 < 128 && d2 < 128 ==> midi_event_of(seq![status, d1, d2] + rest) == Some(
            MidiLearnEvent::MidiPitchBend { channel: (status % 16) as u8, value: (d2 * 128 + d1) as u16 },
        ),
        status / 16 != 9 && status / 16 != 11 && status / 16 != 14 ==> midi_event_of(seq![status, d1, d2] + rest)
            is None,
        midi_event_of(seq![status]) is None,
        midi_event_of(seq![status, d1]) is None,
        midi_event_of(Seq::<u8>::empty()) is None,
{
    let m = seq![status, d1, d2] + rest;
    assert(m[0] == status && m[1] == d1 && m[2] == d2 && m.len() >= 3);
    assert((status & 0x0Fu8) == status % 16) by (bit_vector);
    assert((status & 0xF0u8) == 0x90u8 <==> status / 16 == 9) by (bit_vector);
    assert((status & 0xF0u8) == 0xB0u8 <==> status / 16 == 11) by (bit_vector);
    assert((status & 0xF0u8) == 0xE0u8 <==> status / 16 == 14) by (bit_vector);
    if d1 < 128 && d2 < 128 {
        assert(((d2 as u16) << 7u16) | (d1 as u16) == (d2 as u16) * 128 + (d1 as u16)) by (bit_vector)
            requires
                d1 < 128u8,
                d2 < 128u8,
        ;
    }
}

/// The hardware source a MIDI event comes from.
pub open spec fn midi_source(e: MidiLearnEvent) -> HardwareSource {
    match e {
        MidiLearnEvent::MidiCc { channel, controller, .. } => HardwareSource::MidiCc { channel, controller },
        MidiLearnEvent::MidiNote { channel, note, .. } => HardwareSource::MidiNote { channel, note },
        MidiLearnEvent::MidiPitchBend { channel, .. } => HardwareSource::MidiPitchBend { channel },
    }
}

/// The hardware source a MIDI event comes from.
pub fn midi_event_to_source(e: &MidiLearnEvent) -> (r: HardwareSource)
    ensures
        r == midi_source(*e),
{
    match e {
        MidiLearnEvent::MidiCc { channel, controller, .. } => HardwareSource::MidiCc {
            channel: *channel,
            controller: *controller,
        },
        MidiLearnEvent::MidiNote { channel, note, .. } => HardwareSource::MidiNote {
            channel: *channel,
            note: *note,
        },
        MidiLearnEvent::MidiPitchBend { channel, .. } => HardwareSource::MidiPitchBend {
            channel: *channel,
        },
    }
}

/// `f64` bit pattern of 0.0.
pub const F64_ZERO: u64 = 0x0000_0000_0000_0000u64;

/// `f64` bit pattern of 1.0.
pub const F64_ONE: u64 = 0x3ff0_0000_0000_0000u64;

/// `f64` bit pattern of 127.0.
pub const F64_127: u64 = 0x405f_c000_0000_0000u64;

/// A learned MIDI binding maps 0..127 onto 0..1.
pub fn default_midi_transform() -> (t: ValueTransform)
    ensures
        t == (ValueTransform {
            input_min: F64_ZERO,
            input_max: F64_127,
            output_min: F64_ZERO,
            output_max: F64_ONE,
        }),
{
    ValueTransform { input_min: F64_ZERO, input_max: F64_127, output_min: F64_ZERO, output_max: F64_ONE }
}

/// A learned OSC binding maps 0..1 onto 0..1.
pub fn default_osc_transform() -> (t: ValueTransform)
    ensures
        t == (ValueTransform {
            input_min: F64_ZERO,
            input_max: F64_ONE,
            output_min: F64_ZERO,
            output_max: F64_ONE,
        }),
{
    ValueTransform { input_min: F64_ZERO, input_max: F64_ONE, output_min: F64_ZERO, output_max: F64_ONE }
}

// ---------------------------------------------------------------------------
// MIDI port ids
// ---------------------------------------------------------------------------

/// The prefix of every MIDI input port id.
pub open spec fn midi_port_prefix() -> Seq<char> {
    "midi-input-"@
}

/// The id of the MIDI input port at `index`.
pub open spec fn spec_midi_port_id(index: usize) -> Seq<char> {
    midi_port_prefix() + spec_decimal(index as nat)
}

/// The id of the MIDI input port at `index` (`midi-input-<index>`).
pub fn midi_port_id(index: usize) -> (r: String)
    ensures
        r@ == spec_midi_port_id(index),
{
    let mut s = "midi-input-".to_owned();
    let d = decimal_string(index);
    s.append(d.as_str());
    s
}

/// The port index a MIDI input port id names: the prefix, then a number as
/// `str::parse::<usize>` reads it.
pub open spec fn spec_parse_midi_port_id(id: Seq<char>) -> Option<usize> {
    let p = midi_port_prefix();
    if id.len() >= p.len() && id.take(p.len() as int) == p {
        spec_parse_usize(id.skip(p.len() as int))
    } else {
        None
    }
}

/// The port index a MIDI input port id names, if it is one.
pub fn parse_midi_port_id(id: &str) -> (r: Option<usize>)
    ensures
        r == spec_parse_midi_port_id(id@),
{
    let prefix = chars_of("midi-input-");
    let cs = chars_of(id);
    if cs.len() < prefix.len() {
        return None;
    }
    let mut i: usize = 0;
    while i < prefix.len()
        invariant
            prefix@ == midi_port_prefix(),
            cs@ == id@,
            prefix@.len() <= cs@.len(),
            i <= prefix@.len(),
            forall|j: int| 0 <= j < i ==> cs@[j] == prefix@[j],
        decreases prefix.len() - i,
    {
        if cs[i] != prefix[i] {
            assert(id@.take(prefix@.len() as int)[i as int] != midi_port_prefix()[i as int]);
            return None;
        }
        i = i + 1;
    }
    assert(id@.take(prefix@.len() as int) =~= midi_port_prefix());
    parse_usize_from(&cs, prefix.len())
}

/// Reading back the id of port `index` gives `index`.
pub proof fn lemma_midi_port_id_roundtrip(index: usize)
    ensures
        spec_parse_midi_port_id(spec_midi_port_id(index)) == Some(index),
{
    let id = spec_midi_port_id(index);
    let p = midi_port_prefix();
    assert(id.take(p.len() as int) =~= p);
    assert(id.skip(p.len() as int) =~= spec_decimal(index as nat));
    lemma_parse_decimal(index);
}

// ---------------------------------------------------------------------------
// Settings and diagnostics
// ---------------------------------------------------------------------------

/// Rust's `char::is_whitespace`: the Unicode `White_Space` characters.
pub open spec fn is_white_space(c: char) -> bool {
    ('\u{9}' <= c && c <= '\u{d}') || c == ' ' || c == '\u{85}' || c == '\u{a0}' || c == '\u{1680}'
        || ('\u{2000}' <= c && c <= '\u{200a}') || c == '\u{2028}' || c == '\u{2029}' || c == '\u{202f}'
        || c == '\u{205f}' || c == '\u{3000}'
}

fn char_is_white_space(c: char) -> (r: bool)
    ensures
        r == is_white_space(c),
{
    ('\u{9}' <= c && c <= '\u{d}') || c == ' ' || c == '\u{85}' || c == '\u{a0}' || c == '\u{1680}'
        || ('\u{2000}' <= c && c <= '\u{200a}') || c == '\u{2028}' || c == '\u{2029}' || c == '\u{202f}'
        || c == '\u{205f}' || c == '\u{3000}'
}

/// The string is empty once trimmed: it holds only white space.
pub open spec fn is_blank(s: Seq<char>) -> bool {
    forall|i: int| 0 <= i < s.len() ==> is_white_space(#[trigger] s[i])
}

pub fn blank(s: &str) -> (r: bool)
    ensures
        r == is_blank(s@),
{
    let cs = chars_of(s);
    let mut i: usize = 0;
    while i < cs.len()
        invariant
            cs@ == s@,
            i <= cs@.len(),
            forall|j: int| 0 <= j < i ==> is_white_space(#[trigger] s@[j]),
        decreases cs.len() - i,
    {
        if !char_is_white_space(cs[i]) {
            return false;
        }
        i = i + 1;
    }
    true
}

/// The settings error, if any: a blank bind host, then a zero port.
pub open spec fn osc_settings_error(settings: HardwareRuntimeSettings) -> Option<Seq<char>> {
    if is_blank(settings.osc.bind_host@) {
        Some("OSC bind host cannot be empty"@)
    } else if settings.osc.listen_port == 0 {
        Some("OSC listen port must be between 1 and 65535"@)
    } else {
        None
    }
}

/// Checks the OSC part of the hardware settings.
pub fn validate_osc_settings(settings: &HardwareRuntimeSettings) -> (r: Result<(), String>)
    ensures
        match osc_settings_error(*settings) {
            Some(msg) => r matches Err(e) && e@ == msg,
            None => r is Ok,
        },
{
    if blank(settings.osc.bind_host.as_str()) {
        return Err("OSC bind host cannot be empty".to_owned());
    }
    if settings.osc.listen_port == 0 {
        return Err("OSC listen port must be between 1 and 65535".to_owned());
    }
    Ok(())
}

/// The diagnostic for a selected MIDI input that is not in the port list.
pub fn invalid_midi_selection_diagnostic(selected_input_id: &str) -> (d: HardwareRuntimeDiagnostic)
    ensures
        d.code == HardwareRuntimeDiagnosticCode::InvalidMidiPortSelection,
        d.message@ == "Selected MIDI input is not available."@,
        d.recoverable,
        d.detail matches Some(t) && t@ == "The selected input id '"@ + selected_input_id@
            + "' was not found in the current MIDI port list."@,
{
    let mut detail = "The selected input id '".to_owned();
    detail.append(selected_input_id);
    detail.append("' was not found in the current MIDI port list.");
    HardwareRuntimeDiagnostic {
        code: HardwareRuntimeDiagnosticCode::InvalidMidiPortSelection,
        message: "Selected MIDI input is not available.".to_owned(),
        recoverable: true,
        detail: Some(detail),
    }
}

/// `needle` occurs in `hay` at position `i`.
pub open spec fn occurs_at(hay: Seq<char>, needle: Seq<char>, i: int) -> bool {
    0 <= i && i + needle.len() <= hay.len() && hay.subrange(i, i + needle.len()) == needle
}

/// `needle` occurs in `hay` (`str::contains`).
pub open spec fn occurs_in(hay: Seq<char>, needle: Seq<char>) -> bool {
    exists|i: int| occurs_at(hay, needle, i)
}

/// Whether `needle` occurs in `hay`.
pub fn str_contains(hay: &str, needle: &str) -> (r: bool)
    ensures
        r == occurs_in(hay@, needle@),
{
    let h = chars_of(hay);
    let n = chars_of(needle);
    if n.len() > h.len() {
        proof {
            assert forall|i: int| !occurs_at(hay@, needle@, i) by {}
        }
        return false;
    }
    let mut i: usize = 0;
    while i <= h.len() - n.len()
        invariant
            h@ == hay@,
            n@ == needle@,
            n@.len() <= h@.len(),
            i <= h@.len() - n@.len() + 1,
            h@.len() == h.len(),
            n@.len() == n.len(),
            forall|k: int| 0 <= k < i ==> !occurs_at(hay@, needle@, k),
        decreases h.len() - i,
    {
        let mut j: usize = 0;
        let mut same = true;
        while j < n.len()
            invariant
                h@ == hay@,
                n@ == needle@,
                i + n@.len() <= h@.len(),
                h@.len() == h.len(),
                n@.len() == n.len(),
                j <= n@.len(),
                same == (forall|m: int| 0 <= m < j ==> h@[i + m] == n@[m]),
            decreases n.len() - j,
        {
            if h[i + j] != n[j] {
                same = false;
            }
            j = j + 1;
        }
        if same {
            assert(hay@.subrange(i as int, i + needle@.len()) =~= needle@);
            assert(occurs_at(hay@, needle@, i as int));
            return true;
        }
        proof {
            let m = choose|m: int| 0 <= m < n@.len() && h@[i + m] != n@[m];
            assert(hay@.subrange(i as int, i + needle@.len())[m] != needle@[m]);
        }
        i = i + 1;
    }
    proof {
        assert forall|k: int| !occurs_at(hay@, needle@, k) by {
            if 0 <= k && k + needle@.len() <= hay@.len() {
                assert(k < i);
            }
        }
    }
    false
}

/// The bind error text says the port is taken.
pub open spec fn says_port_in_use(err: Seq<char>) -> bool {
    occurs_in(err, "Address already in use"@) || occurs_in(err, "addr in use"@) || occurs_in(
        err,
        "os error 48"@,
    ) || occurs_in(err, "os error 98"@)
}

/// The diagnostic for an OSC listener that could not bind: a taken port is
/// told apart from other failures by the error text.
pub fn osc_bind_diagnostic(bind_host: &str, listen_port: u16, err: &str) -> (d: HardwareRuntimeDiagnostic)
    ensures
        d.code == (if says_port_in_use(err@) {
            HardwareRuntimeDiagnosticCode::OscPortInUse
        } else {
            HardwareRuntimeDiagnosticCode::OscBindFailed
        }),
        d.message@ == (if says_port_in_use(err@) {
            "OSC listen port is already in use."@
        } else {
            "Could not start OSC listener."@
        }),
        d.recoverable,
        d.detail matches Some(t) && t@ == "Tried to bind OSC listener on "@ + bind_host@ + ":"@
            + spec_decimal(listen_port as nat) + ". "@ + err@,
{
    let port_in_use = str_contains(err, "Address already in use") || str_contains(err, "addr in use")
        || str_contains(err, "os error 48") || str_contains(err, "os error 98");
    let mut detail = "Tried to bind OSC listener on ".to_owned();
    detail.append(bind_host);
    detail.append(":");
    let port = decimal_string(listen_port as usize);
    detail.append(port.as_str());
    detail.append(". ");
    detail.append(err);
    HardwareRuntimeDiagnostic {
        code: if port_in_use {
            HardwareRuntimeDiagnosticCode::OscPortInUse
        } else {
            HardwareRuntimeDiagnosticCode::OscBindFailed
        },
        message: if port_in_use {
            "OSC listen port is already in use.".to_owned()
        } else {
            "Could not start OSC listener.".to_owned()
        },
        recoverable: true,
        detail: Some(detail),
    }
}

// ---------------------------------------------------------------------------
// Learn state machine
// ---------------------------------------------------------------------------

/// Where MIDI/OSC learn stands.
#[derive(Debug, PartialEq)]
pub enum HardwareLearnState {
    Idle,
    Learning { target: BindingTarget },
    Captured { source: HardwareSource, target: BindingTarget },
}

impl Clone for HardwareLearnState {
    fn clone(&self) -> (r: Self)
        ensures
            r == *self,
    {
        match self {
            HardwareLearnState::Idle => HardwareLearnState::Idle,
            HardwareLearnState::Learning { target } => HardwareLearnState::Learning {
                target: target.clone(),
            },
            HardwareLearnState::Captured { source, target } => HardwareLearnState::Captured {
                source: source.clone(),
                target: target.clone(),
            },
        }
    }
}

/// What the learn state machine did with an incoming event.
#[derive(Debug, PartialEq)]
pub enum LearnOutcome {
    /// Learning: the event became this binding, now stored in the session.
    Bound(HardwareBinding),
    /// Idle: the event should drive the bindings that listen to its source.
    RouteLive,
    /// A binding was just captured: the event is dropped.
    Ignored,
}

/// Starts learning a binding for `target`.
pub fn start_learn(store: &mut SessionStore, target: BindingTarget)
    ensures
        final(store).learn() == (HardwareLearnState::Learning { target }),
        final(store).session() == old(store).session(),
        final(store).settings() == old(store).settings(),
        final(store).status() == old(store).status(),
{
    *store.learn_mut() = HardwareLearnState::Learning { target };
}

/// Stops learning.
pub fn stop_learn(store: &mut SessionStore)
    ensures
        final(store).learn() == HardwareLearnState::Idle,
        final(store).session() == old(store).session(),
        final(store).settings() == old(store).settings(),
        final(store).status() == old(store).status(),
{
    *store.learn_mut() = HardwareLearnState::Idle;
}

/// Feeds an incoming hardware event (its source, and the transform a new
/// binding would use) to the learn state machine. While learning, the event
/// becomes a binding of the learn target, stored in the session, and learn
/// moves to captured; when idle the event is to be routed live; once a
/// binding is captured events are dropped.
pub fn learn_event(store: &mut SessionStore, source: HardwareSource, transform: ValueTransform) -> (r:
    LearnOutcome)
    ensures
        match old(store).learn() {
            HardwareLearnState::Learning { target } => match r {
                LearnOutcome::Bound(b) => {
                    &&& is_uuid_v4_text(b.id@)
                    &&& b.source == source
                    &&& b.target == target
                    &&& b.transform == transform
                    &&& final(store).session() == (SessionDocument {
                        hardware_bindings: final(store).session().hardware_bindings,
                        ..old(store).session()
                    })
                    &&& final(store).session().hardware_bindings@ == old(
                        store,
                    ).session().hardware_bindings@.push(b)
                    &&& final(store).learn() == (HardwareLearnState::Captured { source, target })
                },
                _ => false,
            },
            HardwareLearnState::Idle => r == LearnOutcome::RouteLive && final(store).session() == old(
                store,
            ).session() && final(store).learn() == old(store).learn(),
            HardwareLearnState::Captured { .. } => r == LearnOutcome::Ignored && final(store).session()
                == old(store).session() && final(store).learn() == old(store).learn(),
        },
        final(store).settings() == old(store).settings(),
        final(store).status() == old(store).status(),
{
    let target = match store.learn_mut() {
        HardwareLearnState::Learning { target } => target.clone(),
        HardwareLearnState::Idle => {
            return LearnOutcome::RouteLive;
        },
        HardwareLearnState::Captured { .. } => {
            return LearnOutcome::Ignored;
        },
    };
    let binding = HardwareBinding {
        id: new_id(),
        source: source.clone(),
        target: target.clone(),
        transform,
    };
    store.current_mut().hardware_bindings.push(binding.clone());
    *store.learn_mut() = HardwareLearnState::Captured { source, target };
    LearnOutcome::Bound(binding)
}

} // verus!
