//! The hardware listener state kept by the session store: what enumerating
//! MIDI ports, validating a MIDI selection, changing the hardware settings
//! and starting or stopping the listeners record. Enumerating ports and
//! opening listeners is the caller's I/O; these functions take its results.
use vstd::prelude::*;
use crate::domain::{
    HardwareListenerLifecycle, HardwareRuntimeDiagnostic, HardwareRuntimeDiagnosticCode,
    HardwareRuntimeSettings, HardwareRuntimeStatus, MidiInputPort, MidiRuntimeStatus,
    OscRuntimeStatus,
};
use crate::hardware::{
    invalid_midi_selection_diagnostic, lemma_midi_port_id_roundtrip, midi_port_id, osc_bind_diagnostic,
    osc_settings_error, parse_midi_port_id, spec_midi_port_id, spec_parse_midi_port_id, validate_osc_settings,
};
use crate::session_store::SessionStore;

verus! {

/// `d` has this code, message and detail (texts compared by content).
pub open spec fn diag_is(
    d: HardwareRuntimeDiagnostic,
    code: HardwareRuntimeDiagnosticCode,
    message: Seq<char>,
    detail: Option<Seq<char>>,
) -> bool {
    &&& d.code == code
    &&& d.message@ == message
    &&& d.recoverable
    &&& match detail {
        Some(t) => d.detail matches Some(x) && x@ == t,
        None => d.detail is None,
    }
}

fn diagnostic(code: HardwareRuntimeDiagnosticCode, message: &str, detail: Option<String>) -> (d: HardwareRuntimeDiagnostic)
    ensures
        d.code == code,
        d.message@ == message@,
        d.recoverable,
        d.detail == detail,
{
    HardwareRuntimeDiagnostic { code, message: message.to_owned(), recoverable: true, detail }
}

/// The ports listed for the device names: port `i` has id
/// `midi-input-<i>`, the device's name, and is selected when its id is the
/// selection.
pub open spec fn is_port_list(ports: Seq<MidiInputPort>, names: Seq<String>, selected: Option<String>) -> bool {
    &&& ports.len() == names.len()
    &&& forall|i: int|
        0 <= i < ports.len() ==> {
            &&& (#[trigger] ports[i]).id@ == spec_midi_port_id(i as usize)
            &&& ports[i].display_name@ == names[i]@
            &&& ports[i].is_selected == (selected matches Some(s) && s@ == spec_midi_port_id(i as usize))
        }
}

/// The selection names one of the first `n` ports.
pub open spec fn selection_listed(n: int, selected: Option<String>) -> bool {
    match selected {
        Some(s) => exists|i: int| 0 <= i < n && #[trigger] spec_midi_port_id(i as usize) == s@,
        None => false,
    }
}

/// The MIDI status after listing `names` (the lifecycle is `before`'s
/// unless the list is empty, the selection is missing from it, or a
/// previous listing had failed).
pub open spec fn listed_midi_status(before: MidiRuntimeStatus, names: Seq<String>, selected: Option<String>, after: MidiRuntimeStatus) -> bool {
    let n = names.len();
    let missing = selected is Some && !selection_listed(n as int, selected);
    &&& after.selected_input_id == selected
    &&& after.available_input_count == Some(n as u32)
    &&& after.lifecycle == if n == 0 {
        HardwareListenerLifecycle::Unavailable
    } else if missing {
        HardwareListenerLifecycle::Error
    } else if before.lifecycle == HardwareListenerLifecycle::Unavailable || before.lifecycle
        == HardwareListenerLifecycle::Error {
        HardwareListenerLifecycle::Stopped
    } else {
        before.lifecycle
    }
    &&& (if n > 0 && missing {
        after.last_error matches Some(e) && e@ == "Selected MIDI input is no longer available."@
    } else {
        after.last_error is None
    })
    &&& (if selection_listed(n as int, selected) {
        exists|i: int|
            0 <= i < n && #[trigger] spec_midi_port_id(i as usize) == selected->Some_0@ && (
            after.selected_display_name matches Some(d) && d@ == names[i]@)
    } else {
        after.selected_display_name is None
    })
}

/// The diagnostics after listing `n` ports.
pub open spec fn listing_diagnostics(d: Seq<HardwareRuntimeDiagnostic>, n: nat, selected: Option<String>) -> bool {
    if n == 0 {
        d.len() == 1 && diag_is(
            d[0],
            HardwareRuntimeDiagnosticCode::NoMidiPorts,
            "No MIDI input ports are available."@,
            Some("Connect or enable a MIDI device, then refresh hardware inputs."@),
        )
    } else if selected is Some && !selection_listed(n as int, selected) {
        d.len() == 1 && diag_is(
            d[0],
            HardwareRuntimeDiagnosticCode::InvalidMidiPortSelection,
            "Selected MIDI input is not available."@,
            Some(
                "The selected input id '"@ + selected->Some_0@ + "' was not found in the current MIDI port list."@,
            ),
        )
    } else {
        d.len() == 0
    }
}

/// A failed enumeration: error status and one diagnostic.
pub open spec fn enumeration_failed(before: HardwareRuntimeStatus, after: HardwareRuntimeStatus, err: Seq<char>, message: Seq<char>) -> bool {
    &&& after.osc == before.osc
    &&& after.learn == before.learn
    &&& after.midi == (MidiRuntimeStatus { lifecycle: HardwareListenerLifecycle::Error, last_error: after.midi.last_error, ..before.midi })
    &&& after.midi.last_error matches Some(e) && e@ == err
    &&& after.diagnostics@.len() == 1
    &&& diag_is(after.diagnostics@[0], HardwareRuntimeDiagnosticCode::MidiEnumerationFailed, message, Some(err))
}

fn list_ports(names: &Vec<String>, selected: &Option<String>) -> (r: (Vec<MidiInputPort>, Option<usize>))
    ensures
        is_port_list(r.0@, names@, *selected),
        match r.1 {
            Some(i) => i < names@.len() && selection_listed(names@.len() as int, *selected)
                && spec_midi_port_id(i) == selected->Some_0@,
            None => !selection_listed(names@.len() as int, *selected),
        },
{
    let mut ports: Vec<MidiInputPort> = Vec::new();
    let mut found: Option<usize> = None;
    let mut i: usize = 0;
    while i < names.len()
        invariant
            i <= names@.len(),
            ports@.len() == i,
            forall|q: int|
                0 <= q < i ==> {
                    &&& (#[trigger] ports@[q]).id@ == spec_midi_port_id(q as usize)
                    &&& ports@[q].display_name@ == names@[q]@
                    &&& ports@[q].is_selected == (*selected matches Some(s) && s@ == spec_midi_port_id(q as usize))
                },
            match found {
                Some(k) => k < i && selected is Some && spec_midi_port_id(k) == selected->Some_0@,
                None => forall|q: int| 0 <= q < i ==> !(*selected matches Some(s) && #[trigger] spec_midi_port_id(q as usize) == s@),
            },
        decreases names.len() - i,
    {
        let id = midi_port_id(i);
        let is_selected = match selected {
            Some(s) => *s == id,
            None => false,
        };
        if is_selected && found.is_none() {
            found = Some(i);
        }
        ports.push(MidiInputPort { id, display_name: names[i].clone(), is_selected });
        i = i + 1;
    }
    proof {
        if let Some(k) = found {
            assert(spec_midi_port_id((k as int) as usize) == selected->Some_0@);
        }
        if found is None && selection_listed(names@.len() as int, *selected) {
            let q = choose|q: int| 0 <= q < names@.len() && #[trigger] spec_midi_port_id(q as usize) == selected->Some_0@;
        }
    }
    (ports, found)
}

impl SessionStore {
    /// Records a listing of the MIDI input ports, given the device names the
    /// enumeration returned or its error, and returns the ports.
    pub fn list_midi_input_ports(&mut self, devices: Result<Vec<String>, String>) -> (r: Result<Vec<MidiInputPort>, String>)
        ensures
            final(self).session() == old(self).session(),
            final(self).settings() == old(self).settings(),
            final(self).learn() == old(self).learn(),
            match devices {
                Ok(names) => r matches Ok(ports) && {
                    let sel = old(self).settings().midi.selected_input_id;
                    &&& is_port_list(ports@, names@, sel)
                    &&& final(self).status().osc == old(self).status().osc
                    &&& final(self).status().learn == old(self).status().learn
                    &&& listed_midi_status(old(self).status().midi, names@, sel, final(self).status().midi)
                    &&& listing_diagnostics(final(self).status().diagnostics@, names@.len(), sel)
                },
                Err(err) => r == Err::<Vec<MidiInputPort>, String>(err) && enumeration_failed(
                    old(self).status(),
                    final(self).status(),
                    err@,
                    "Could not enumerate MIDI input ports."@,
                ),
            },
    {
        let selected = self.hardware_runtime_settings().midi.selected_input_id;
        let (settings, status) = self.hardware_mut();
        match devices {
            Ok(names) => {
                let (ports, found) = list_ports(&names, &selected);
                let n = ports.len();
                status.midi.available_input_count = Some(#[verifier::truncate] (n as u32));
                status.midi.selected_input_id = match &selected {
                    Some(s) => Some(s.clone()),
                    None => None,
                };
                status.midi.selected_display_name = match found {
                    Some(i) => Some(names[i].clone()),
                    None => None,
                };
                status.midi.last_error = None;
                status.diagnostics = Vec::new();
                if n == 0 {
                    status.midi.lifecycle = HardwareListenerLifecycle::Unavailable;
                    status.diagnostics.push(
                        diagnostic(
                            HardwareRuntimeDiagnosticCode::NoMidiPorts,
                            "No MIDI input ports are available.",
                            Some("Connect or enable a MIDI device, then refresh hardware inputs.".to_owned()),
                        ),
                    );
                } else if selected.is_some() && found.is_none() {
                    status.midi.lifecycle = HardwareListenerLifecycle::Error;
                    status.midi.last_error = Some("Selected MIDI input is no longer available.".to_owned());
                    let sel = match &selected {
                        Some(s) => s.as_str(),
                        None => "",
                    };
                    status.diagnostics.push(invalid_midi_selection_diagnostic(sel));
                } else if status.midi.lifecycle == HardwareListenerLifecycle::Unavailable || status.midi.lifecycle
                    == HardwareListenerLifecycle::Error {
                    status.midi.lifecycle = HardwareListenerLifecycle::Stopped;
                }
                proof {
                    if let Some(k) = found {
                        assert(spec_midi_port_id((k as int) as usize) == selected->Some_0@);
                    }
                }
                assert(listed_midi_status(old(self).status().midi, names@, selected, status.midi));
                assert(listing_diagnostics(status.diagnostics@, names@.len(), selected));
                Ok(ports)
            },
            Err(err) => {
                status.midi.lifecycle = HardwareListenerLifecycle::Error;
                status.midi.last_error = Some(err.clone());
                status.diagnostics = Vec::new();
                status.diagnostics.push(
                    diagnostic(
                        HardwareRuntimeDiagnosticCode::MidiEnumerationFailed,
                        "Could not enumerate MIDI input ports.",
                        Some(err.clone()),
                    ),
                );
                Err(err)
            },
        }
    }
}


/// Two selections name the same input (or both none).
pub open spec fn same_selection(a: Option<String>, b: Option<String>) -> bool {
    match (a, b) {
        (Some(x), Some(y)) => x@ == y@,
        (None, None) => true,
        _ => false,
    }
}

/// Which listeners a settings change asks to restart.
#[derive(Clone, Copy, Debug, PartialEq, Eq, Structural)]
pub struct ListenerRestarts {
    pub midi: bool,
    pub osc: bool,
}

/// Whether checking `settings` reads the list of MIDI input ports: only a
/// selection that is a port id is looked up in it.
pub open spec fn reads_port_list(settings: HardwareRuntimeSettings) -> bool {
    settings.midi.selected_input_id matches Some(id) && spec_parse_midi_port_id(id@) is Some
}

/// Whether applying `settings` needs the list of MIDI input ports, so that
/// a caller enumerates the ports only then.
pub fn needs_midi_port_list(settings: &HardwareRuntimeSettings) -> (r: bool)
    ensures
        r == reads_port_list(*settings),
{
    match &settings.midi.selected_input_id {
        Some(id) => parse_midi_port_id(id.as_str()).is_some(),
        None => false,
    }
}

/// Why a MIDI selection is refused, checked in this order: not a port id,
/// the enumeration failed, no ports, no port at that index.
pub open spec fn selection_error(selected: Option<String>, devices: Option<Result<Vec<String>, String>>) -> Option<(Seq<char>, HardwareRuntimeDiagnosticCode, Seq<char>, Seq<char>)> {
    match selected {
        None => None,
        Some(id) => match spec_parse_midi_port_id(id@) {
            None => Some((
                "Selected MIDI input is not available."@,
                HardwareRuntimeDiagnosticCode::InvalidMidiPortSelection,
                "Selected MIDI input is not available."@,
                "The selected input id '"@ + id@ + "' was not found in the current MIDI port list."@,
            )),
            Some(index) => match devices {
                None => None,
                Some(Err(err)) => Some((err@, HardwareRuntimeDiagnosticCode::MidiEnumerationFailed, "Could not validate the selected MIDI input."@, err@)),
                Some(Ok(names)) => if names@.len() == 0 {
                    Some((
                        "No MIDI input ports are available."@,
                        HardwareRuntimeDiagnosticCode::NoMidiPorts,
                        "No MIDI input ports are available."@,
                        "Connect or enable a MIDI device before selecting a MIDI input."@,
                    ))
                } else if index >= names@.len() {
                    Some((
                        "Selected MIDI input is not available."@,
                        HardwareRuntimeDiagnosticCode::InvalidMidiPortSelection,
                        "Selected MIDI input is not available."@,
                        "The selected input id '"@ + id@ + "' was not found in the current MIDI port list."@,
                    ))
                } else {
                    None
                },
            },
        },
    }
}

/// The status after refusing a selection: the diagnostics are exactly the
/// refusal's.
pub open spec fn refused(before: HardwareRuntimeStatus, after: HardwareRuntimeStatus, e: (Seq<char>, HardwareRuntimeDiagnosticCode, Seq<char>, Seq<char>)) -> bool {
    &&& after.midi == before.midi
    &&& after.osc == before.osc
    &&& after.learn == before.learn
    &&& after.diagnostics@.len() == 1
    &&& diag_is(after.diagnostics@[0], e.1, e.2, Some(e.3))
}

impl SessionStore {
    fn set_single_diagnostic(&mut self, d: HardwareRuntimeDiagnostic)
        ensures
            final(self).session() == old(self).session(),
            final(self).settings() == old(self).settings(),
            final(self).learn() == old(self).learn(),
            final(self).status() == (HardwareRuntimeStatus { diagnostics: final(self).status().diagnostics, ..old(self).status() }),
            final(self).status().diagnostics@ == seq![d],
    {
        let (_settings, status) = self.hardware_mut();
        status.diagnostics = Vec::new();
        status.diagnostics.push(d);
    }

    /// Checks the MIDI selection of `settings` against the ports the
    /// enumeration found (or its error); a refusal leaves one diagnostic.
    pub fn validate_selected_midi_input(&mut self, settings: &HardwareRuntimeSettings, devices: Option<Result<Vec<String>, String>>) -> (r:
        Result<(), String>)
        requires
            reads_port_list(*settings) ==> devices is Some,
        ensures
            final(self).session() == old(self).session(),
            final(self).settings() == old(self).settings(),
            final(self).learn() == old(self).learn(),
            match selection_error(settings.midi.selected_input_id, devices) {
                None => r is Ok && final(self).status() == old(self).status(),
                Some(e) => r matches Err(m) && m@ == e.0 && refused(old(self).status(), final(self).status(), e),
            },
    {
        let id = match &settings.midi.selected_input_id {
            None => {
                return Ok(());
            },
            Some(id) => id,
        };
        let index = match parse_midi_port_id(id.as_str()) {
            None => {
                let d = invalid_midi_selection_diagnostic(id.as_str());
                let m = d.message.clone();
                self.set_single_diagnostic(d);
                return Err(m);
            },
            Some(i) => i,
        };
        let names = match devices {
            None => {
                return Ok(());
            },
            Some(Err(err)) => {
                self.set_single_diagnostic(diagnostic(
                    HardwareRuntimeDiagnosticCode::MidiEnumerationFailed,
                    "Could not validate the selected MIDI input.",
                    Some(err.clone()),
                ));
                return Err(err);
            },
            Some(Ok(n)) => n,
        };
        if names.len() == 0 {
            let d = diagnostic(
                HardwareRuntimeDiagnosticCode::NoMidiPorts,
                "No MIDI input ports are available.",
                Some("Connect or enable a MIDI device before selecting a MIDI input.".to_owned()),
            );
            let m = d.message.clone();
            self.set_single_diagnostic(d);
            return Err(m);
        }
        if index >= names.len() {
            let d = invalid_midi_selection_diagnostic(id.as_str());
            let m = d.message.clone();
            self.set_single_diagnostic(d);
            return Err(m);
        }
        Ok(())
    }

    /// Applies new hardware settings once the OSC settings and the MIDI
    /// selection are valid; returns which listeners must be restarted: MIDI
    /// when the selection changed while listening, OSC when its settings
    /// changed while listening.
    pub fn update_hardware_runtime_settings(&mut self, settings: HardwareRuntimeSettings, devices: Option<Result<Vec<String>, String>>) -> (r:
        Result<ListenerRestarts, String>)
        requires
            osc_settings_error(settings) is None && reads_port_list(settings) ==> devices is Some,
        ensures
            final(self).session() == old(self).session(),
            final(self).learn() == old(self).learn(),
            osc_settings_error(settings) matches Some(m) ==> r matches Err(e) && e@ == m && *final(self) == *old(self),
            osc_settings_error(settings) is None ==> match selection_error(settings.midi.selected_input_id, devices) {
                Some(e) => r matches Err(m) && m@ == e.0 && final(self).settings() == old(self).settings() && refused(
                    old(self).status(),
                    final(self).status(),
                    e,
                ),
                None => r matches Ok(plan) && {
                    let osc_changed = !(old(self).settings().osc.bind_host@ == settings.osc.bind_host@
                        && old(self).settings().osc.listen_port == settings.osc.listen_port
                        && old(self).settings().osc.auto_start == settings.osc.auto_start);
                    let osc_restart = osc_changed && old(self).status().osc.lifecycle == HardwareListenerLifecycle::Listening;
                    &&& plan.midi == (!same_selection(old(self).settings().midi.selected_input_id, settings.midi.selected_input_id)
                        && old(self).status().midi.lifecycle == HardwareListenerLifecycle::Listening)
                    &&& plan.osc == osc_restart
                    &&& final(self).settings() == settings
                    &&& final(self).status().midi == (MidiRuntimeStatus {
                        selected_input_id: settings.midi.selected_input_id,
                        ..old(self).status().midi
                    })
                    &&& final(self).status().osc == (OscRuntimeStatus {
                        lifecycle: if osc_restart {
                            HardwareListenerLifecycle::Restarting
                        } else {
                            old(self).status().osc.lifecycle
                        },
                        bind_host: settings.osc.bind_host,
                        listen_port: settings.osc.listen_port,
                        last_error: None,
                    })
                    &&& final(self).status().learn == old(self).status().learn
                    &&& final(self).status().diagnostics@.len() == 0
                },
            },
    {
        match validate_osc_settings(&settings) {
            Ok(()) => {},
            Err(e) => {
                return Err(e);
            },
        }
        self.validate_selected_midi_input(&settings, devices)?;
        let (s, status) = self.hardware_mut();
        let selection_changed = !match (&s.midi.selected_input_id, &settings.midi.selected_input_id) {
            (Some(a), Some(b)) => *a == *b,
            (None, None) => true,
            _ => false,
        };
        let midi_was_listening = status.midi.lifecycle == HardwareListenerLifecycle::Listening;
        let osc_changed = !(s.osc.bind_host == settings.osc.bind_host && s.osc.listen_port == settings.osc.listen_port
            && s.osc.auto_start == settings.osc.auto_start);
        let osc_restart = osc_changed && status.osc.lifecycle == HardwareListenerLifecycle::Listening;
        status.midi.selected_input_id = match &settings.midi.selected_input_id {
            Some(x) => Some(x.clone()),
            None => None,
        };
        status.osc = OscRuntimeStatus {
            lifecycle: if osc_restart {
                HardwareListenerLifecycle::Restarting
            } else {
                status.osc.lifecycle
            },
            bind_host: settings.osc.bind_host.clone(),
            listen_port: settings.osc.listen_port,
            last_error: None,
        };
        status.diagnostics = Vec::new();
        *s = settings;
        Ok(ListenerRestarts { midi: selection_changed && midi_was_listening, osc: osc_restart })
    }

    /// Records that a listener was restarted (`midi` for the MIDI listener,
    /// otherwise the OSC listener).
    pub fn record_listener_restarted(&mut self, midi: bool)
        ensures
            final(self).session() == old(self).session(),
            final(self).settings() == old(self).settings(),
            final(self).learn() == old(self).learn(),
            final(self).status() == (HardwareRuntimeStatus { diagnostics: final(self).status().diagnostics, ..old(self).status() }),
            final(self).status().diagnostics@.len() == old(self).status().diagnostics@.len() + 1,
            final(self).status().diagnostics@.drop_last() == old(self).status().diagnostics@,
            diag_is(
                final(self).status().diagnostics@.last(),
                HardwareRuntimeDiagnosticCode::ListenerRestarted,
                if midi {
                    "MIDI listener restarted for the selected input."@
                } else {
                    "OSC listener restarted for the updated bind settings."@
                },
                None,
            ),
    {
        let (_s, status) = self.hardware_mut();
        let msg = if midi {
            "MIDI listener restarted for the selected input."
        } else {
            "OSC listener restarted for the updated bind settings."
        };
        status.diagnostics.push(diagnostic(HardwareRuntimeDiagnosticCode::ListenerRestarted, msg, None));
        assert(status.diagnostics@.drop_last() =~= old(self).status().diagnostics@);
    }
}


/// Why starting the MIDI listener stops before opening a port, checked
/// after listing: no ports, a selection that is not a port id, a selection
/// past the last port.
pub open spec fn midi_start_refusal(names: Seq<String>, selected: Option<String>) -> Option<Seq<char>> {
    if names.len() == 0 {
        Some(
            "No MIDI input ports are available. Connect or enable a MIDI device, then refresh hardware inputs."@,
        )
    } else {
        match selected {
            Some(id) => match spec_parse_midi_port_id(id@) {
                None => Some("Selected MIDI input is not available."@),
                Some(i) => if i >= names.len() {
                    Some("Selected MIDI input is not available."@)
                } else {
                    None
                },
            },
            None => None,
        }
    }
}

impl SessionStore {
    /// Clears the hardware diagnostics.
    pub fn clear_hardware_diagnostics(&mut self)
        ensures
            final(self).session() == old(self).session(),
            final(self).settings() == old(self).settings(),
            final(self).learn() == old(self).learn(),
            final(self).status() == (HardwareRuntimeStatus { diagnostics: final(self).status().diagnostics, ..old(self).status() }),
            final(self).status().diagnostics@.len() == 0,
    {
        let (_s, status) = self.hardware_mut();
        status.diagnostics = Vec::new();
    }

    /// First half of starting the MIDI listener: marks it starting, records
    /// the port listing (device names or the enumeration error) and picks
    /// the port to open (`None`: the first). A selection past the last port
    /// is recorded as an error.
    pub fn begin_midi_listener(&mut self, devices: Result<Vec<String>, String>) -> (r: Result<(Option<usize>, Vec<MidiInputPort>), String>)
        ensures
            final(self).session() == old(self).session(),
            final(self).settings() == old(self).settings(),
            final(self).learn() == old(self).learn(),
            match devices {
                Err(err) => r == Err::<(Option<usize>, Vec<MidiInputPort>), String>(err) && final(self).status().midi.lifecycle
                    == HardwareListenerLifecycle::Error,
                Ok(names) => {
                    let sel = old(self).settings().midi.selected_input_id;
                    match midi_start_refusal(names@, sel) {
                        Some(m) => r matches Err(e) && e@ == m,
                        None => r matches Ok((index, ports)) && is_port_list(ports@, names@, sel) && index == match sel {
                            Some(id) => spec_parse_midi_port_id(id@),
                            None => None,
                        },
                    }
                },
            },
    {
        {
            let (_s, status) = self.hardware_mut();
            status.midi.lifecycle = HardwareListenerLifecycle::Starting;
        }
        let is_err = devices.is_err();
        let ports = match self.list_midi_input_ports(devices) {
            Ok(p) => p,
            Err(e) => {
                return Err(e);
            },
        };
        if ports.len() == 0 {
            return Err("No MIDI input ports are available. Connect or enable a MIDI device, then refresh hardware inputs.".to_owned());
        }
        let selected = self.hardware_runtime_settings().midi.selected_input_id;
        let index = match &selected {
            None => None,
            Some(id) => match parse_midi_port_id(id.as_str()) {
                None => {
                    return Err(invalid_midi_selection_diagnostic(id.as_str()).message);
                },
                Some(i) => Some(i),
            },
        };
        if let Some(i) = index {
            if i >= ports.len() {
                let sel = match &selected {
                    Some(x) => x.as_str(),
                    None => "",
                };
                let d = invalid_midi_selection_diagnostic(sel);
                let m = d.message.clone();
                self.set_single_diagnostic(d);
                let (_s, status) = self.hardware_mut();
                status.midi.lifecycle = HardwareListenerLifecycle::Error;
                status.midi.last_error = Some(m.clone());
                return Err(m);
            }
        }
        Ok((index, ports))
    }

    /// Second half: records the result of opening the port.
    pub fn finish_midi_listener(&mut self, index: Option<usize>, ports: &Vec<MidiInputPort>, opened: Result<(), String>) -> (r:
        Result<(), String>)
        ensures
            final(self).session() == old(self).session(),
            final(self).settings() == old(self).settings(),
            final(self).learn() == old(self).learn(),
            final(self).status().osc == old(self).status().osc,
            match opened {
                Ok(()) => r is Ok && final(self).status().diagnostics@ == old(self).status().diagnostics@ && {
                    let m = final(self).status().midi;
                    let shown: Option<int> = match index {
                        Some(i) => if i < ports@.len() {
                            Some(i as int)
                        } else if ports@.len() > 0 {
                            Some(0int)
                        } else {
                            None
                        },
                        None => if ports@.len() > 0 {
                            Some(0int)
                        } else {
                            None
                        },
                    };
                    &&& m.lifecycle == HardwareListenerLifecycle::Listening
                    &&& m.last_error is None
                    &&& m.available_input_count == Some(ports@.len() as u32)
                    &&& m.selected_input_id == old(self).settings().midi.selected_input_id
                    &&& match shown {
                        Some(k) => m.selected_display_name matches Some(d) && d@ == ports@[k].display_name@,
                        None => m.selected_display_name is None,
                    }
                },
                Err(err) => r == Err::<(), String>(err) && enumeration_failed(
                    old(self).status(),
                    final(self).status(),
                    err@,
                    "Could not start MIDI input listening."@,
                ),
            },
    {
        let selected = self.hardware_runtime_settings().midi.selected_input_id;
        match opened {
            Ok(()) => {
                let k: Option<usize> = match index {
                    Some(i) => if i < ports.len() {
                        Some(i)
                    } else if ports.len() > 0 {
                        Some(0)
                    } else {
                        None
                    },
                    None => if ports.len() > 0 {
                        Some(0)
                    } else {
                        None
                    },
                };
                let (_s, status) = self.hardware_mut();
                status.midi.lifecycle = HardwareListenerLifecycle::Listening;
                status.midi.last_error = None;
                status.midi.available_input_count = Some(#[verifier::truncate] (ports.len() as u32));
                status.midi.selected_input_id = selected;
                status.midi.selected_display_name = match k {
                    Some(k) => Some(ports[k].display_name.clone()),
                    None => None,
                };
                Ok(())
            },
            Err(err) => {
                let (_s, status) = self.hardware_mut();
                status.midi.lifecycle = HardwareListenerLifecycle::Error;
                status.midi.last_error = Some(err.clone());
                status.diagnostics = Vec::new();
                status.diagnostics.push(diagnostic(
                    HardwareRuntimeDiagnosticCode::MidiEnumerationFailed,
                    "Could not start MIDI input listening.",
                    Some(err.clone()),
                ));
                Err(err)
            },
        }
    }

    /// Marks the MIDI listener as restarting.
    pub fn mark_midi_restarting(&mut self)
        ensures
            final(self).session() == old(self).session(),
            final(self).settings() == old(self).settings(),
            final(self).learn() == old(self).learn(),
            final(self).status() == (HardwareRuntimeStatus {
                midi: MidiRuntimeStatus { lifecycle: HardwareListenerLifecycle::Restarting, ..old(self).status().midi },
                ..old(self).status()
            }),
    {
        let (_s, status) = self.hardware_mut();
        status.midi.lifecycle = HardwareListenerLifecycle::Restarting;
    }

    /// First half of starting the OSC listener: starting, on the configured
    /// host and port. Returns them.
    pub fn begin_osc_listener(&mut self) -> (r: (String, u16))
        ensures
            final(self).session() == old(self).session(),
            final(self).settings() == old(self).settings(),
            final(self).learn() == old(self).learn(),
            r.0 == old(self).settings().osc.bind_host,
            r.1 == old(self).settings().osc.listen_port,
            final(self).status() == (HardwareRuntimeStatus {
                osc: OscRuntimeStatus {
                    lifecycle: HardwareListenerLifecycle::Starting,
                    bind_host: old(self).settings().osc.bind_host,
                    listen_port: old(self).settings().osc.listen_port,
                    ..old(self).status().osc
                },
                ..old(self).status()
            }),
    {
        let (s, status) = self.hardware_mut();
        let host = s.osc.bind_host.clone();
        let port = s.osc.listen_port;
        status.osc.lifecycle = HardwareListenerLifecycle::Starting;
        status.osc.bind_host = host.clone();
        status.osc.listen_port = port;
        (host, port)
    }

    /// Second half: records the result of binding the OSC socket.
    pub fn finish_osc_listener(&mut self, bound: Result<(), String>) -> (r: Result<(), String>)
        ensures
            final(self).session() == old(self).session(),
            final(self).settings() == old(self).settings(),
            final(self).learn() == old(self).learn(),
            final(self).status().midi == old(self).status().midi,
            match bound {
                Ok(()) => r is Ok && final(self).status() == (HardwareRuntimeStatus {
                    osc: OscRuntimeStatus {
                        lifecycle: HardwareListenerLifecycle::Listening,
                        last_error: None,
                        ..old(self).status().osc
                    },
                    ..old(self).status()
                }),
                Err(err) => r == Err::<(), String>(err) && final(self).status().osc == (OscRuntimeStatus {
                    lifecycle: HardwareListenerLifecycle::Error,
                    last_error: Some(err),
                    ..old(self).status().osc
                }) && final(self).status().diagnostics@.drop_last() == old(self).status().diagnostics@
                    && final(self).status().diagnostics@.len() == old(self).status().diagnostics@.len() + 1,
            },
    {
        match bound {
            Ok(()) => {
                let (_s, status) = self.hardware_mut();
                status.osc.lifecycle = HardwareListenerLifecycle::Listening;
                status.osc.last_error = None;
                Ok(())
            },
            Err(err) => {
                let (s, status) = self.hardware_mut();
                status.osc.lifecycle = HardwareListenerLifecycle::Error;
                status.osc.last_error = Some(err.clone());
                let d = osc_bind_diagnostic(s.osc.bind_host.as_str(), s.osc.listen_port, err.as_str());
                status.diagnostics.push(d);
                assert(status.diagnostics@.drop_last() =~= old(self).status().diagnostics@);
                Err(err)
            },
        }
    }

    /// Marks the OSC listener as stopped.
    pub fn mark_osc_stopped(&mut self)
        ensures
            final(self).session() == old(self).session(),
            final(self).settings() == old(self).settings(),
            final(self).learn() == old(self).learn(),
            final(self).status() == (HardwareRuntimeStatus {
                osc: OscRuntimeStatus {
                    lifecycle: HardwareListenerLifecycle::Stopped,
                    last_error: None,
                    ..old(self).status().osc
                },
                ..old(self).status()
            }),
    {
        let (_s, status) = self.hardware_mut();
        status.osc.lifecycle = HardwareListenerLifecycle::Stopped;
        status.osc.last_error = None;
    }

    /// Marks the OSC listener as restarting.
    pub fn mark_osc_restarting(&mut self)
        ensures
            final(self).session() == old(self).session(),
            final(self).settings() == old(self).settings(),
            final(self).learn() == old(self).learn(),
            final(self).status() == (HardwareRuntimeStatus {
                osc: OscRuntimeStatus { lifecycle: HardwareListenerLifecycle::Restarting, ..old(self).status().osc },
                ..old(self).status()
            }),
    {
        let (_s, status) = self.hardware_mut();
        status.osc.lifecycle = HardwareListenerLifecycle::Restarting;
    }

    /// After both listeners were stopped: both stopped without error, and a
    /// single diagnostic saying so. Returns the reported status.
    pub fn mark_listeners_stopped(&mut self) -> (r: HardwareRuntimeStatus)
        ensures
            final(self).session() == old(self).session(),
            final(self).settings() == old(self).settings(),
            final(self).learn() == old(self).learn(),
            final(self).status().midi == (MidiRuntimeStatus {
                lifecycle: HardwareListenerLifecycle::Stopped,
                last_error: None,
                ..old(self).status().midi
            }),
            final(self).status().osc == (OscRuntimeStatus {
                lifecycle: HardwareListenerLifecycle::Stopped,
                last_error: None,
                ..old(self).status().osc
            }),
            final(self).status().learn == old(self).status().learn,
            final(self).status().diagnostics@.len() == 1,
            diag_is(
                final(self).status().diagnostics@[0],
                HardwareRuntimeDiagnosticCode::ListenerStopped,
                "Hardware listeners are stopped."@,
                None,
            ),
            r.diagnostics@ == final(self).status().diagnostics@,
            r.learn == crate::session_store::learn_status(final(self).learn()),
    {
        {
            let (_s, status) = self.hardware_mut();
            status.midi.lifecycle = HardwareListenerLifecycle::Stopped;
            status.osc.lifecycle = HardwareListenerLifecycle::Stopped;
            status.midi.last_error = None;
            status.osc.last_error = None;
        }
        self.set_single_diagnostic(diagnostic(
            HardwareRuntimeDiagnosticCode::ListenerStopped,
            "Hardware listeners are stopped.",
            None,
        ));
        self.hardware_runtime_status()
    }
}

/// How many hardware events one drain handles: 16 unless asked, at least 1
/// and at most 128.
pub fn drain_event_limit(max_events: Option<u32>) -> (r: u32)
    ensures
        r == match max_events {
            Some(m) => if m < 1 {
                1
            } else if m > 128 {
                128
            } else {
                m
            },
            None => 16,
        },
{
    match max_events {
        Some(m) => if m < 1 {
            1
        } else if m > 128 {
            128
        } else {
            m
        },
        None => 16,
    }
}

} // verus!
