//! The node catalog: the single table that gives each node type its
//! SynthDef, ports, parameters and visual shape. Each continuous parameter
//! has a sibling CV-input port; selectors and toggles do not.
use vstd::prelude::*;
use crate::domain::{PortDirection, SignalType};
use crate::synthdefs::ScResourcePlanError;

verus! {

/// Semantic node category, used for launch order and visual grouping.
#[derive(Clone, Copy, Debug, PartialEq, Eq, Structural)]
pub enum NodeCategory {
    Source,
    Modulator,
    Effect,
    Utility,
    Sequencer,
    Mixer,
    Output,
}

impl NodeCategory {
    /// The launch rank: sources, modulators, effects, utilities, sequencers,
    /// mixers, outputs.
    pub open spec fn spec_rank(self) -> u8 {
        match self {
            NodeCategory::Source => 0,
            NodeCategory::Modulator => 1,
            NodeCategory::Effect => 2,
            NodeCategory::Utility => 3,
            NodeCategory::Sequencer => 4,
            NodeCategory::Mixer => 5,
            NodeCategory::Output => 6,
        }
    }

    /// Stable rank for a deterministic launch order.
    pub fn rank(self) -> (r: u8)
        ensures
            r == self.spec_rank(),
    {
        match self {
            NodeCategory::Source => 0,
            NodeCategory::Modulator => 1,
            NodeCategory::Effect => 2,
            NodeCategory::Utility => 3,
            NodeCategory::Sequencer => 4,
            NodeCategory::Mixer => 5,
            NodeCategory::Output => 6,
        }
    }
}

/// A port declared by a catalog entry.
#[derive(Clone, Copy, Debug, PartialEq, Eq)]
pub struct CatalogPortSpec {
    pub id: &'static str,
    pub name: &'static str,
    pub direction: PortDirection,
    pub signal_type: SignalType,
}

/// A parameter declared by a catalog entry; `default_value`, `min_value`
/// and `max_value` are `f64` bit patterns.
#[derive(Debug, PartialEq)]
pub struct CatalogParamSpec {
    pub id: &'static str,
    /// SuperCollider synth argument name.
    pub sc_arg: &'static str,
    /// Other names accepted for the parameter.
    pub aliases: Vec<&'static str>,
    pub default_value: u64,
    pub min_value: u64,
    pub max_value: u64,
    pub unit: &'static str,
    /// Continuous parameters expose a CV-input port.
    pub exposes_cv_port: bool,
    /// The sibling CV-input port, when the parameter exposes one.
    pub cv_port_id: Option<&'static str>,
}

/// One entry of the node catalog.
#[derive(Debug, PartialEq)]
pub struct NodeCatalogEntry {
    pub id: &'static str,
    pub display_name: &'static str,
    pub category: NodeCategory,
    /// SuperCollider SynthDef name (empty for app-driven nodes).
    pub synthdef_name: &'static str,
    pub synthdef_resource: &'static str,
    pub ports: Vec<CatalogPortSpec>,
    pub parameters: Vec<CatalogParamSpec>,
    pub visual_shape: &'static str,
}

/// A catalog port as plain values.
#[verifier::ext_equal]
pub struct PortView {
    pub id: Seq<char>,
    pub name: Seq<char>,
    pub direction: PortDirection,
    pub signal_type: SignalType,
}

/// A catalog parameter as plain values.
#[verifier::ext_equal]
pub struct ParamView {
    pub id: Seq<char>,
    pub sc_arg: Seq<char>,
    pub aliases: Seq<Seq<char>>,
    pub default_value: u64,
    pub min_value: u64,
    pub max_value: u64,
    pub unit: Seq<char>,
    pub exposes_cv_port: bool,
    pub cv_port_id: Option<Seq<char>>,
}

/// A catalog entry as plain values.
pub struct EntryView {
    pub id: Seq<char>,
    pub display_name: Seq<char>,
    pub category: NodeCategory,
    pub synthdef_name: Seq<char>,
    pub synthdef_resource: Seq<char>,
    pub ports: Seq<PortView>,
    pub parameters: Seq<ParamView>,
    pub visual_shape: Seq<char>,
}

impl View for CatalogPortSpec {
    type V = PortView;

    open spec fn view(&self) -> PortView {
        PortView {
            id: self.id@,
            name: self.name@,
            direction: self.direction,
            signal_type: self.signal_type,
        }
    }
}

impl View for CatalogParamSpec {
    type V = ParamView;

    open spec fn view(&self) -> ParamView {
        ParamView {
            id: self.id@,
            sc_arg: self.sc_arg@,
            aliases: self.aliases@.map_values(|a: &str| a@),
            default_value: self.default_value,
            min_value: self.min_value,
            max_value: self.max_value,
            unit: self.unit@,
            exposes_cv_port: self.exposes_cv_port,
            cv_port_id: match self.cv_port_id {
                Some(c) => Some(c@),
                None => None,
            },
        }
    }
}

impl View for NodeCatalogEntry {
    type V = EntryView;

    open spec fn view(&self) -> EntryView {
        EntryView {
            id: self.id@,
            display_name: self.display_name@,
            category: self.category,
            synthdef_name: self.synthdef_name@,
            synthdef_resource: self.synthdef_resource@,
            ports: self.ports@.map_values(|p: CatalogPortSpec| p@),
            parameters: self.parameters@.map_values(|p: CatalogParamSpec| p@),
            visual_shape: self.visual_shape@,
        }
    }
}

/// The catalog as plain values, entry by entry.
pub open spec fn catalog_view() -> Seq<EntryView> {
    seq![
        EntryView {
            id: "oscillator"@,
            display_name: "Oscillator"@,
            category: NodeCategory::Source,
            synthdef_name: "scrysynth_v2_oscillator"@,
            synthdef_resource: "resources/synthdefs/v2/scrysynth_v2_oscillator.scsyndef"@,
            ports: seq![
                PortView { id: "main_out"@, name: "Main Out"@, direction: PortDirection::Output, signal_type: SignalType::Audio },
                PortView { id: "frequency_cv"@, name: "Frequency FM"@, direction: PortDirection::Input, signal_type: SignalType::Audio },
                PortView { id: "level_cv"@, name: "Level CV"@, direction: PortDirection::Input, signal_type: SignalType::Control },
            ],
            parameters: seq![
                ParamView {
                    id: "frequency"@,
                    sc_arg: "frequency"@,
                    aliases: seq!["freq"@],
                    default_value: 0x406b800000000000u64, // 220.0
                    min_value: 0x4034000000000000u64, // 20.0
                    max_value: 0x40d3880000000000u64, // 20000.0
                    unit: "hz"@,
                    exposes_cv_port: true,
                    cv_port_id: Some("frequency_cv"@),
                },
                ParamView {
                    id: "wave_shape"@,
                    sc_arg: "wave_shape"@,
                    aliases: seq!["waveShape"@, "waveform"@],
                    default_value: 0x0000000000000000u64, // 0.0
                    min_value: 0x0000000000000000u64, // 0.0
                    max_value: 0x4008000000000000u64, // 3.0
                    unit: "selector"@,
                    exposes_cv_port: false,
                    cv_port_id: None,
                },
                ParamView {
                    id: "level"@,
                    sc_arg: "level"@,
                    aliases: seq!["gain"@, "amplitude"@],
                    default_value: 0x3ff0000000000000u64, // 1.0
                    min_value: 0x0000000000000000u64, // 0.0
                    max_value: 0x3ff0000000000000u64, // 1.0
                    unit: "linear"@,
                    exposes_cv_port: true,
                    cv_port_id: Some("level_cv"@),
                },
            ],
            visual_shape: "sphere"@,
        },
        EntryView {
            id: "noise"@,
            display_name: "Noise"@,
            category: NodeCategory::Source,
            synthdef_name: "scrysynth_v2_noise"@,
            synthdef_resource: "resources/synthdefs/v2/scrysynth_v2_noise.scsyndef"@,
            ports: seq![
                PortView { id: "main_out"@, name: "Main Out"@, direction: PortDirection::Output, signal_type: SignalType::Audio },
                PortView { id: "level_cv"@, name: "Level CV"@, direction: PortDirection::Input, signal_type: SignalType::Control },
            ],
            parameters: seq![
                ParamView {
                    id: "noise_color"@,
                    sc_arg: "noise_color"@,
                    aliases: seq!["noiseColor"@, "color"@],
                    default_value: 0x0000000000000000u64, // 0.0
                    min_value: 0x0000000000000000u64, // 0.0
                    max_value: 0x3ff0000000000000u64, // 1.0
                    unit: "selector"@,
                    exposes_cv_port: false,
                    cv_port_id: None,
                },
                ParamView {
                    id: "level"@,
                    sc_arg: "level"@,
                    aliases: seq!["gain"@, "amplitude"@],
                    default_value: 0x3ff0000000000000u64, // 1.0
                    min_value: 0x0000000000000000u64, // 0.0
                    max_value: 0x3ff0000000000000u64, // 1.0
                    unit: "linear"@,
                    exposes_cv_port: true,
                    cv_port_id: Some("level_cv"@),
                },
            ],
            visual_shape: "sphere"@,
        },
        EntryView {
            id: "envelope"@,
            display_name: "Envelope"@,
            category: NodeCategory::Modulator,
            synthdef_name: "scrysynth_v2_envelope"@,
            synthdef_resource: "resources/synthdefs/v2/scrysynth_v2_envelope.scsyndef"@,
            ports: seq![
                PortView { id: "env_out"@, name: "Envelope Out"@, direction: PortDirection::Output, signal_type: SignalType::Control },
                PortView { id: "gate"@, name: "Gate"@, direction: PortDirection::Input, signal_type: SignalType::Control },
            ],
            parameters: seq![
                ParamView {
                    id: "attack"@,
                    sc_arg: "attack"@,
                    aliases: seq!["att"@],
                    default_value: 0x3f847ae147ae147bu64, // 0.01
                    min_value: 0x0000000000000000u64, // 0.0
                    max_value: 0x4024000000000000u64, // 10.0
                    unit: "s"@,
                    exposes_cv_port: false,
                    cv_port_id: None,
                },
                ParamView {
                    id: "decay"@,
                    sc_arg: "decay"@,
                    aliases: seq!["dec"@],
                    default_value: 0x3fc999999999999au64, // 0.2
                    min_value: 0x0000000000000000u64, // 0.0
                    max_value: 0x4024000000000000u64, // 10.0
                    unit: "s"@,
                    exposes_cv_port: false,
                    cv_port_id: None,
                },
                ParamView {
                    id: "sustain"@,
                    sc_arg: "sustain"@,
                    aliases: seq!["sus"@],
                    default_value: 0x3fe999999999999au64, // 0.8
                    min_value: 0x0000000000000000u64, // 0.0
                    max_value: 0x3ff0000000000000u64, // 1.0
                    unit: "ratio"@,
                    exposes_cv_port: false,
                    cv_port_id: None,
                },
                ParamView {
                    id: "release"@,
                    sc_arg: "release"@,
                    aliases: seq!["rel"@],
                    default_value: 0x3fd3333333333333u64, // 0.3
                    min_value: 0x0000000000000000u64, // 0.0
                    max_value: 0x4024000000000000u64, // 10.0
                    unit: "s"@,
                    exposes_cv_port: false,
                    cv_port_id: None,
                },
            ],
            visual_shape: "ring"@,
        },
        EntryView {
            id: "lfo"@,
            display_name: "LFO"@,
            category: NodeCategory::Modulator,
            synthdef_name: "scrysynth_v2_lfo"@,
            synthdef_resource: "resources/synthdefs/v2/scrysynth_v2_lfo.scsyndef"@,
            ports: seq![
                PortView { id: "lfo_out"@, name: "LFO Out"@, direction: PortDirection::Output, signal_type: SignalType::Control },
                PortView { id: "frequency_cv"@, name: "Frequency CV"@, direction: PortDirection::Input, signal_type: SignalType::Control },
            ],
            parameters: seq![
                ParamView {
                    id: "frequency"@,
                    sc_arg: "frequency"@,
                    aliases: seq!["freq"@, "rate"@],
                    default_value: 0x3fe0000000000000u64, // 0.5
                    min_value: 0x3f50624dd2f1a9fcu64, // 0.001
                    max_value: 0x4059000000000000u64, // 100.0
                    unit: "hz"@,
                    exposes_cv_port: true,
                    cv_port_id: Some("frequency_cv"@),
                },
                ParamView {
                    id: "wave_shape"@,
                    sc_arg: "wave_shape"@,
                    aliases: seq!["waveShape"@, "waveform"@],
                    default_value: 0x0000000000000000u64, // 0.0
                    min_value: 0x0000000000000000u64, // 0.0
                    max_value: 0x4008000000000000u64, // 3.0
                    unit: "selector"@,
                    exposes_cv_port: false,
                    cv_port_id: None,
                },
                ParamView {
                    id: "level"@,
                    sc_arg: "level"@,
                    aliases: seq!["gain"@, "amplitude"@],
                    default_value: 0x3ff0000000000000u64, // 1.0
                    min_value: 0x0000000000000000u64, // 0.0
                    max_value: 0x3ff0000000000000u64, // 1.0
                    unit: "linear"@,
                    exposes_cv_port: false,
                    cv_port_id: None,
                },
            ],
            visual_shape: "ring"@,
        },
        EntryView {
            id: "vca"@,
            display_name: "VCA"@,
            category: NodeCategory::Utility,
            synthdef_name: "scrysynth_v2_vca"@,
            synthdef_resource: "resources/synthdefs/v2/scrysynth_v2_vca.scsyndef"@,
            ports: seq![
                PortView { id: "audio_in"@, name: "Audio In"@, direction: PortDirection::Input, signal_type: SignalType::Audio },
                PortView { id: "audio_out"@, name: "Audio Out"@, direction: PortDirection::Output, signal_type: SignalType::Audio },
                PortView { id: "level_cv"@, name: "Level CV"@, direction: PortDirection::Input, signal_type: SignalType::Control },
            ],
            parameters: seq![
                ParamView {
                    id: "level"@,
                    sc_arg: "level"@,
                    aliases: seq!["gain"@, "amplitude"@],
                    default_value: 0x3ff0000000000000u64, // 1.0
                    min_value: 0x0000000000000000u64, // 0.0
                    max_value: 0x3ff0000000000000u64, // 1.0
                    unit: "linear"@,
                    exposes_cv_port: true,
                    cv_port_id: Some("level_cv"@),
                },
            ],
            visual_shape: "box"@,
        },
        EntryView {
            id: "quantizer"@,
            display_name: "Quantizer"@,
            category: NodeCategory::Utility,
            synthdef_name: "scrysynth_v2_quantizer"@,
            synthdef_resource: "resources/synthdefs/v2/scrysynth_v2_quantizer.scsyndef"@,
            ports: seq![
                PortView { id: "cv_in"@, name: "CV In"@, direction: PortDirection::Input, signal_type: SignalType::Control },
                PortView { id: "cv_out"@, name: "CV Out"@, direction: PortDirection::Output, signal_type: SignalType::Control },
            ],
            parameters: seq![
                ParamView {
                    id: "steps"@,
                    sc_arg: "steps"@,
                    aliases: seq!["divisions"@],
                    default_value: 0x4028000000000000u64, // 12.0
                    min_value: 0x3ff0000000000000u64, // 1.0
                    max_value: 0x4048000000000000u64, // 48.0
                    unit: "count"@,
                    exposes_cv_port: false,
                    cv_port_id: None,
                },
            ],
            visual_shape: "box"@,
        },
        EntryView {
            id: "mixer"@,
            display_name: "Mixer"@,
            category: NodeCategory::Mixer,
            synthdef_name: "scrysynth_v2_mixer"@,
            synthdef_resource: "resources/synthdefs/v2/scrysynth_v2_mixer.scsyndef"@,
            ports: seq![
                PortView { id: "audio_out"@, name: "Audio Out"@, direction: PortDirection::Output, signal_type: SignalType::Audio },
                PortView { id: "level_cv"@, name: "Level CV"@, direction: PortDirection::Input, signal_type: SignalType::Control },
            ],
            parameters: seq![
                ParamView {
                    id: "level"@,
                    sc_arg: "level"@,
                    aliases: seq!["gain"@, "amplitude"@],
                    default_value: 0x3ff0000000000000u64, // 1.0
                    min_value: 0x0000000000000000u64, // 0.0
                    max_value: 0x3ff0000000000000u64, // 1.0
                    unit: "linear"@,
                    exposes_cv_port: true,
                    cv_port_id: Some("level_cv"@),
                },
                ParamView {
                    id: "mix"@,
                    sc_arg: "mix"@,
                    aliases: seq![],
                    default_value: 0x3ff0000000000000u64, // 1.0
                    min_value: 0x0000000000000000u64, // 0.0
                    max_value: 0x3ff0000000000000u64, // 1.0
                    unit: "ratio"@,
                    exposes_cv_port: false,
                    cv_port_id: None,
                },
            ],
            visual_shape: "ring"@,
        },
        EntryView {
            id: "filter"@,
            display_name: "Filter"@,
            category: NodeCategory::Effect,
            synthdef_name: "scrysynth_v2_filter"@,
            synthdef_resource: "resources/synthdefs/v2/scrysynth_v2_filter.scsyndef"@,
            ports: seq![
                PortView { id: "audio_in"@, name: "Audio In"@, direction: PortDirection::Input, signal_type: SignalType::Audio },
                PortView { id: "audio_out"@, name: "Audio Out"@, direction: PortDirection::Output, signal_type: SignalType::Audio },
                PortView { id: "cutoff_cv"@, name: "Cutoff CV"@, direction: PortDirection::Input, signal_type: SignalType::Control },
                PortView { id: "resonance_cv"@, name: "Resonance CV"@, direction: PortDirection::Input, signal_type: SignalType::Control },
            ],
            parameters: seq![
                ParamView {
                    id: "cutoff"@,
                    sc_arg: "cutoff_hz"@,
                    aliases: seq!["cutoff"@, "cutoff_hz"@, "cutoffHz"@],
                    default_value: 0x4092c00000000000u64, // 1200.0
                    min_value: 0x4034000000000000u64, // 20.0
                    max_value: 0x40d3880000000000u64, // 20000.0
                    unit: "hz"@,
                    exposes_cv_port: true,
                    cv_port_id: Some("cutoff_cv"@),
                },
                ParamView {
                    id: "resonance"@,
                    sc_arg: "resonance"@,
                    aliases: seq!["rq"@],
                    default_value: 0x3fe0000000000000u64, // 0.5
                    min_value: 0x3fa999999999999au64, // 0.05
                    max_value: 0x3ff0000000000000u64, // 1.0
                    unit: "ratio"@,
                    exposes_cv_port: true,
                    cv_port_id: Some("resonance_cv"@),
                },
                ParamView {
                    id: "filter_mode"@,
                    sc_arg: "filter_mode"@,
                    aliases: seq!["mode"@],
                    default_value: 0x0000000000000000u64, // 0.0
                    min_value: 0x0000000000000000u64, // 0.0
                    max_value: 0x4008000000000000u64, // 3.0
                    unit: "selector"@,
                    exposes_cv_port: false,
                    cv_port_id: None,
                },
                ParamView {
                    id: "mix"@,
                    sc_arg: "mix"@,
                    aliases: seq!["wet"@, "wet_dry"@],
                    default_value: 0x3ff0000000000000u64, // 1.0
                    min_value: 0x0000000000000000u64, // 0.0
                    max_value: 0x3ff0000000000000u64, // 1.0
                    unit: "ratio"@,
                    exposes_cv_port: false,
                    cv_port_id: None,
                },
                ParamView {
                    id: "bypassed"@,
                    sc_arg: "bypassed"@,
                    aliases: seq!["bypass"@],
                    default_value: 0x0000000000000000u64, // 0.0
                    min_value: 0x0000000000000000u64, // 0.0
                    max_value: 0x3ff0000000000000u64, // 1.0
                    unit: "toggle"@,
                    exposes_cv_port: false,
                    cv_port_id: None,
                },
            ],
            visual_shape: "box"@,
        },
        EntryView {
            id: "delay"@,
            display_name: "Delay"@,
            category: NodeCategory::Effect,
            synthdef_name: "scrysynth_v2_delay"@,
            synthdef_resource: "resources/synthdefs/v2/scrysynth_v2_delay.scsyndef"@,
            ports: seq![
                PortView { id: "audio_in"@, name: "Audio In"@, direction: PortDirection::Input, signal_type: SignalType::Audio },
                PortView { id: "audio_out"@, name: "Audio Out"@, direction: PortDirection::Output, signal_type: SignalType::Audio },
                PortView { id: "delay_time_cv"@, name: "Delay Time CV"@, direction: PortDirection::Input, signal_type: SignalType::Control },
                PortView { id: "feedback_cv"@, name: "Feedback CV"@, direction: PortDirection::Input, signal_type: SignalType::Control },
            ],
            parameters: seq![
                ParamView {
                    id: "delay_time"@,
                    sc_arg: "delay_time_s"@,
                    aliases: seq!["delay_time"@, "delayTime"@, "delay_time_s"@],
                    default_value: 0x3fd0000000000000u64, // 0.25
                    min_value: 0x0000000000000000u64, // 0.0
                    max_value: 0x4000000000000000u64, // 2.0
                    unit: "s"@,
                    exposes_cv_port: true,
                    cv_port_id: Some("delay_time_cv"@),
                },
                ParamView {
                    id: "feedback"@,
                    sc_arg: "feedback"@,
                    aliases: seq![],
                    default_value: 0x3fd0000000000000u64, // 0.25
                    min_value: 0x0000000000000000u64, // 0.0
                    max_value: 0x3fee666666666666u64, // 0.95
                    unit: "ratio"@,
                    exposes_cv_port: true,
                    cv_port_id: Some("feedback_cv"@),
                },
                ParamView {
                    id: "mix"@,
                    sc_arg: "mix"@,
                    aliases: seq!["wet"@, "wet_dry"@],
                    default_value: 0x3ff0000000000000u64, // 1.0
                    min_value: 0x0000000000000000u64, // 0.0
                    max_value: 0x3ff0000000000000u64, // 1.0
                    unit: "ratio"@,
                    exposes_cv_port: false,
                    cv_port_id: None,
                },
                ParamView {
                    id: "bypassed"@,
                    sc_arg: "bypassed"@,
                    aliases: seq!["bypass"@],
                    default_value: 0x0000000000000000u64, // 0.0
                    min_value: 0x0000000000000000u64, // 0.0
                    max_value: 0x3ff0000000000000u64, // 1.0
                    unit: "toggle"@,
                    exposes_cv_port: false,
                    cv_port_id: None,
                },
            ],
            visual_shape: "box"@,
        },
        EntryView {
            id: "reverb"@,
            display_name: "Reverb"@,
            category: NodeCategory::Effect,
            synthdef_name: "scrysynth_v2_reverb"@,
            synthdef_resource: "resources/synthdefs/v2/scrysynth_v2_reverb.scsyndef"@,
            ports: seq![
                PortView { id: "audio_in"@, name: "Audio In"@, direction: PortDirection::Input, signal_type: SignalType::Audio },
                PortView { id: "audio_out"@, name: "Audio Out"@, direction: PortDirection::Output, signal_type: SignalType::Audio },
                PortView { id: "room_cv"@, name: "Room CV"@, direction: PortDirection::Input, signal_type: SignalType::Control },
                PortView { id: "mix_cv"@, name: "Mix CV"@, direction: PortDirection::Input, signal_type: SignalType::Control },
            ],
            parameters: seq![
                ParamView {
                    id: "room"@,
                    sc_arg: "room"@,
                    aliases: seq!["room_size"@],
                    default_value: 0x3fe0000000000000u64, // 0.5
                    min_value: 0x0000000000000000u64, // 0.0
                    max_value: 0x3ff0000000000000u64, // 1.0
                    unit: "ratio"@,
                    exposes_cv_port: true,
                    cv_port_id: Some("room_cv"@),
                },
                ParamView {
                    id: "damp"@,
                    sc_arg: "damp"@,
                    aliases: seq!["damping"@],
                    default_value: 0x3fe0000000000000u64, // 0.5
                    min_value: 0x0000000000000000u64, // 0.0
                    max_value: 0x3ff0000000000000u64, // 1.0
                    unit: "ratio"@,
                    exposes_cv_port: false,
                    cv_port_id: None,
                },
                ParamView {
                    id: "mix"@,
                    sc_arg: "mix"@,
                    aliases: seq!["wet"@, "wet_dry"@],
                    default_value: 0x3ff0000000000000u64, // 1.0
                    min_value: 0x0000000000000000u64, // 0.0
                    max_value: 0x3ff0000000000000u64, // 1.0
                    unit: "ratio"@,
                    exposes_cv_port: true,
                    cv_port_id: Some("mix_cv"@),
                },
                ParamView {
                    id: "bypassed"@,
                    sc_arg: "bypassed"@,
                    aliases: seq!["bypass"@],
                    default_value: 0x0000000000000000u64, // 0.0
                    min_value: 0x0000000000000000u64, // 0.0
                    max_value: 0x3ff0000000000000u64, // 1.0
                    unit: "toggle"@,
                    exposes_cv_port: false,
                    cv_port_id: None,
                },
            ],
            visual_shape: "box"@,
        },
        EntryView {
            id: "distortion"@,
            display_name: "Distortion"@,
            category: NodeCategory::Effect,
            synthdef_name: "scrysynth_v2_distortion"@,
            synthdef_resource: "resources/synthdefs/v2/scrysynth_v2_distortion.scsyndef"@,
            ports: seq![
                PortView { id: "audio_in"@, name: "Audio In"@, direction: PortDirection::Input, signal_type: SignalType::Audio },
                PortView { id: "audio_out"@, name: "Audio Out"@, direction: PortDirection::Output, signal_type: SignalType::Audio },
                PortView { id: "drive_cv"@, name: "Drive CV"@, direction: PortDirection::Input, signal_type: SignalType::Control },
                PortView { id: "mix_cv"@, name: "Mix CV"@, direction: PortDirection::Input, signal_type: SignalType::Control },
            ],
            parameters: seq![
                ParamView {
                    id: "drive"@,
                    sc_arg: "drive"@,
                    aliases: seq!["gain"@],
                    default_value: 0x3fe0000000000000u64, // 0.5
                    min_value: 0x0000000000000000u64, // 0.0
                    max_value: 0x3ff0000000000000u64, // 1.0
                    unit: "ratio"@,
                    exposes_cv_port: true,
                    cv_port_id: Some("drive_cv"@),
                },
                ParamView {
                    id: "mix"@,
                    sc_arg: "mix"@,
                    aliases: seq!["wet"@, "wet_dry"@],
                    default_value: 0x3ff0000000000000u64, // 1.0
                    min_value: 0x0000000000000000u64, // 0.0
                    max_value: 0x3ff0000000000000u64, // 1.0
                    unit: "ratio"@,
                    exposes_cv_port: true,
                    cv_port_id: Some("mix_cv"@),
                },
                ParamView {
                    id: "bypassed"@,
                    sc_arg: "bypassed"@,
                    aliases: seq!["bypass"@],
                    default_value: 0x0000000000000000u64, // 0.0
                    min_value: 0x0000000000000000u64, // 0.0
                    max_value: 0x3ff0000000000000u64, // 1.0
                    unit: "toggle"@,
                    exposes_cv_port: false,
                    cv_port_id: None,
                },
            ],
            visual_shape: "box"@,
        },
        EntryView {
            id: "chorus"@,
            display_name: "Chorus"@,
            category: NodeCategory::Effect,
            synthdef_name: "scrysynth_v2_chorus"@,
            synthdef_resource: "resources/synthdefs/v2/scrysynth_v2_chorus.scsyndef"@,
            ports: seq![
                PortView { id: "audio_in"@, name: "Audio In"@, direction: PortDirection::Input, signal_type: SignalType::Audio },
                PortView { id: "audio_out"@, name: "Audio Out"@, direction: PortDirection::Output, signal_type: SignalType::Audio },
                PortView { id: "depth_cv"@, name: "Depth CV"@, direction: PortDirection::Input, signal_type: SignalType::Control },
                PortView { id: "rate_cv"@, name: "Rate CV"@, direction: PortDirection::Input, signal_type: SignalType::Control },
            ],
            parameters: seq![
                ParamView {
                    id: "depth"@,
                    sc_arg: "depth"@,
                    aliases: seq![],
                    default_value: 0x3fd3333333333333u64, // 0.3
                    min_value: 0x0000000000000000u64, // 0.0
                    max_value: 0x3ff0000000000000u64, // 1.0
                    unit: "ratio"@,
                    exposes_cv_port: true,
                    cv_port_id: Some("depth_cv"@),
                },
                ParamView {
                    id: "rate"@,
                    sc_arg: "rate"@,
                    aliases: seq!["frequency"@, "freq"@],
                    default_value: 0x3fe0000000000000u64, // 0.5
                    min_value: 0x0000000000000000u64, // 0.0
                    max_value: 0x4024000000000000u64, // 10.0
                    unit: "hz"@,
                    exposes_cv_port: true,
                    cv_port_id: Some("rate_cv"@),
                },
                ParamView {
                    id: "mix"@,
                    sc_arg: "mix"@,
                    aliases: seq!["wet"@, "wet_dry"@],
                    default_value: 0x3ff0000000000000u64, // 1.0
                    min_value: 0x0000000000000000u64, // 0.0
                    max_value: 0x3ff0000000000000u64, // 1.0
                    unit: "ratio"@,
                    exposes_cv_port: false,
                    cv_port_id: None,
                },
                ParamView {
                    id: "bypassed"@,
                    sc_arg: "bypassed"@,
                    aliases: seq!["bypass"@],
                    default_value: 0x0000000000000000u64, // 0.0
                    min_value: 0x0000000000000000u64, // 0.0
                    max_value: 0x3ff0000000000000u64, // 1.0
                    unit: "toggle"@,
                    exposes_cv_port: false,
                    cv_port_id: None,
                },
            ],
            visual_shape: "box"@,
        },
        EntryView {
            id: "flanger"@,
            display_name: "Flanger"@,
            category: NodeCategory::Effect,
            synthdef_name: "scrysynth_v2_flanger"@,
            synthdef_resource: "resources/synthdefs/v2/scrysynth_v2_flanger.scsyndef"@,
            ports: seq![
                PortView { id: "audio_in"@, name: "Audio In"@, direction: PortDirection::Input, signal_type: SignalType::Audio },
                PortView { id: "audio_out"@, name: "Audio Out"@, direction: PortDirection::Output, signal_type: SignalType::Audio },
                PortView { id: "depth_cv"@, name: "Depth CV"@, direction: PortDirection::Input, signal_type: SignalType::Control },
                PortView { id: "rate_cv"@, name: "Rate CV"@, direction: PortDirection::Input, signal_type: SignalType::Control },
                PortView { id: "feedback_cv"@, name: "Feedback CV"@, direction: PortDirection::Input, signal_type: SignalType::Control },
            ],
            parameters: seq![
                ParamView {
                    id: "depth"@,
                    sc_arg: "depth"@,
                    aliases: seq![],
                    default_value: 0x3fd3333333333333u64, // 0.3
                    min_value: 0x0000000000000000u64, // 0.0
                    max_value: 0x3ff0000000000000u64, // 1.0
                    unit: "ratio"@,
                    exposes_cv_port: true,
                    cv_port_id: Some("depth_cv"@),
                },
                ParamView {
                    id: "rate"@,
                    sc_arg: "rate"@,
                    aliases: seq!["frequency"@, "freq"@],
                    default_value: 0x3fe0000000000000u64, // 0.5
                    min_value: 0x0000000000000000u64, // 0.0
                    max_value: 0x4024000000000000u64, // 10.0
                    unit: "hz"@,
                    exposes_cv_port: true,
                    cv_port_id: Some("rate_cv"@),
                },
                ParamView {
                    id: "feedback"@,
                    sc_arg: "feedback"@,
                    aliases: seq![],
                    default_value: 0x3fd3333333333333u64, // 0.3
                    min_value: 0x0000000000000000u64, // 0.0
                    max_value: 0x3fee666666666666u64, // 0.95
                    unit: "ratio"@,
                    exposes_cv_port: true,
                    cv_port_id: Some("feedback_cv"@),
                },
                ParamView {
                    id: "mix"@,
                    sc_arg: "mix"@,
                    aliases: seq!["wet"@, "wet_dry"@],
                    default_value: 0x3ff0000000000000u64, // 1.0
                    min_value: 0x0000000000000000u64, // 0.0
                    max_value: 0x3ff0000000000000u64, // 1.0
                    unit: "ratio"@,
                    exposes_cv_port: false,
                    cv_port_id: None,
                },
                ParamView {
                    id: "bypassed"@,
                    sc_arg: "bypassed"@,
                    aliases: seq!["bypass"@],
                    default_value: 0x0000000000000000u64, // 0.0
                    min_value: 0x0000000000000000u64, // 0.0
                    max_value: 0x3ff0000000000000u64, // 1.0
                    unit: "toggle"@,
                    exposes_cv_port: false,
                    cv_port_id: None,
                },
            ],
            visual_shape: "box"@,
        },
        EntryView {
            id: "step_sequencer"@,
            display_name: "Step Sequencer"@,
            category: NodeCategory::Sequencer,
            synthdef_name: ""@,
            synthdef_resource: ""@,
            ports: seq![
                PortView { id: "gate_out"@, name: "Gate Out"@, direction: PortDirection::Output, signal_type: SignalType::Control },
                PortView { id: "cv_out"@, name: "CV Out"@, direction: PortDirection::Output, signal_type: SignalType::Control },
            ],
            parameters: seq![
            ],
            visual_shape: "ring"@,
        },
        EntryView {
            id: "output"@,
            display_name: "Output"@,
            category: NodeCategory::Output,
            synthdef_name: "scrysynth_v2_output"@,
            synthdef_resource: "resources/synthdefs/v2/scrysynth_v2_output.scsyndef"@,
            ports: seq![
                PortView { id: "audio_in"@, name: "Audio In"@, direction: PortDirection::Input, signal_type: SignalType::Audio },
                PortView { id: "level_cv"@, name: "Level CV"@, direction: PortDirection::Input, signal_type: SignalType::Control },
            ],
            parameters: seq![
                ParamView {
                    id: "level"@,
                    sc_arg: "level"@,
                    aliases: seq!["gain"@, "amplitude"@],
                    default_value: 0x3ff0000000000000u64, // 1.0
                    min_value: 0x0000000000000000u64, // 0.0
                    max_value: 0x3ff0000000000000u64, // 1.0
                    unit: "linear"@,
                    exposes_cv_port: true,
                    cv_port_id: Some("level_cv"@),
                },
            ],
            visual_shape: "plane"@,
        },
    ]
}

fn entry_oscillator() -> (r: NodeCatalogEntry)
    ensures
        r@ == catalog_view()[0],
{
    let mut ports: Vec<CatalogPortSpec> = Vec::new();
    ports.push(CatalogPortSpec { id: "main_out", name: "Main Out", direction: PortDirection::Output, signal_type: SignalType::Audio });
    ports.push(CatalogPortSpec { id: "frequency_cv", name: "Frequency FM", direction: PortDirection::Input, signal_type: SignalType::Audio });
    ports.push(CatalogPortSpec { id: "level_cv", name: "Level CV", direction: PortDirection::Input, signal_type: SignalType::Control });
    let mut parameters: Vec<CatalogParamSpec> = Vec::new();
    {
        let mut aliases: Vec<&'static str> = Vec::new();
        aliases.push("freq");
        parameters.push(CatalogParamSpec {
            id: "frequency",
            sc_arg: "frequency",
            aliases,
            default_value: 0x406b800000000000u64,
            min_value: 0x4034000000000000u64,
            max_value: 0x40d3880000000000u64,
            unit: "hz",
            exposes_cv_port: true,
            cv_port_id: Some("frequency_cv"),
        });
        assert(parameters@[0]@.aliases =~= seq!["freq"@]);
    }
    {
        let mut aliases: Vec<&'static str> = Vec::new();
        aliases.push("waveShape");
        aliases.push("waveform");
        parameters.push(CatalogParamSpec {
            id: "wave_shape",
            sc_arg: "wave_shape",
            aliases,
            default_value: 0x0000000000000000u64,
            min_value: 0x0000000000000000u64,
            max_value: 0x4008000000000000u64,
            unit: "selector",
            exposes_cv_port: false,
            cv_port_id: None,
        });
        assert(parameters@[1]@.aliases =~= seq!["waveShape"@, "waveform"@]);
    }
    {
        let mut aliases: Vec<&'static str> = Vec::new();
        aliases.push("gain");
        aliases.push("amplitude");
        parameters.push(CatalogParamSpec {
            id: "level",
            sc_arg: "level",
            aliases,
            default_value: 0x3ff0000000000000u64,
            min_value: 0x0000000000000000u64,
            max_value: 0x3ff0000000000000u64,
            unit: "linear",
            exposes_cv_port: true,
            cv_port_id: Some("level_cv"),
        });
        assert(parameters@[2]@.aliases =~= seq!["gain"@, "amplitude"@]);
    }
    let r = NodeCatalogEntry {
        id: "oscillator",
        display_name: "Oscillator",
        category: NodeCategory::Source,
        synthdef_name: "scrysynth_v2_oscillator",
        synthdef_resource: "resources/synthdefs/v2/scrysynth_v2_oscillator.scsyndef",
        ports,
        parameters,
        visual_shape: "sphere",
    };
    assert(r@.ports =~= catalog_view()[0].ports);
    assert(r@.parameters =~~= catalog_view()[0].parameters);
    r
}

fn entry_noise() -> (r: NodeCatalogEntry)
    ensures
        r@ == catalog_view()[1],
{
    let mut ports: Vec<CatalogPortSpec> = Vec::new();
    ports.push(CatalogPortSpec { id: "main_out", name: "Main Out", direction: PortDirection::Output, signal_type: SignalType::Audio });
    ports.push(CatalogPortSpec { id: "level_cv", name: "Level CV", direction: PortDirection::Input, signal_type: SignalType::Control });
    let mut parameters: Vec<CatalogParamSpec> = Vec::new();
    {
        let mut aliases: Vec<&'static str> = Vec::new();
        aliases.push("noiseColor");
        aliases.push("color");
        parameters.push(CatalogParamSpec {
            id: "noise_color",
            sc_arg: "noise_color",
            aliases,
            default_value: 0x0000000000000000u64,
            min_value: 0x0000000000000000u64,
            max_value: 0x3ff0000000000000u64,
            unit: "selector",
            exposes_cv_port: false,
            cv_port_id: None,
        });
        assert(parameters@[0]@.aliases =~= seq!["noiseColor"@, "color"@]);
    }
    {
        let mut aliases: Vec<&'static str> = Vec::new();
        aliases.push("gain");
        aliases.push("amplitude");
        parameters.push(CatalogParamSpec {
            id: "level",
            sc_arg: "level",
            aliases,
            default_value: 0x3ff0000000000000u64,
            min_value: 0x0000000000000000u64,
            max_value: 0x3ff0000000000000u64,
            unit: "linear",
            exposes_cv_port: true,
            cv_port_id: Some("level_cv"),
        });
        assert(parameters@[1]@.aliases =~= seq!["gain"@, "amplitude"@]);
    }
    let r = NodeCatalogEntry {
        id: "noise",
        display_name: "Noise",
        category: NodeCategory::Source,
        synthdef_name: "scrysynth_v2_noise",
        synthdef_resource: "resources/synthdefs/v2/scrysynth_v2_noise.scsyndef",
        ports,
        parameters,
        visual_shape: "sphere",
    };
    assert(r@.ports =~= catalog_view()[1].ports);
    assert(r@.parameters =~~= catalog_view()[1].parameters);
    r
}

fn entry_envelope() -> (r: NodeCatalogEntry)
    ensures
        r@ == catalog_view()[2],
{
    let mut ports: Vec<CatalogPortSpec> = Vec::new();
    ports.push(CatalogPortSpec { id: "env_out", name: "Envelope Out", direction: PortDirection::Output, signal_type: SignalType::Control });
    ports.push(CatalogPortSpec { id: "gate", name: "Gate", direction: PortDirection::Input, signal_type: SignalType::Control });
    let mut parameters: Vec<CatalogParamSpec> = Vec::new();
    {
        let mut aliases: Vec<&'static str> = Vec::new();
        aliases.push("att");
        parameters.push(CatalogParamSpec {
            id: "attack",
            sc_arg: "attack",
            aliases,
            default_value: 0x3f847ae147ae147bu64,
            min_value: 0x0000000000000000u64,
            max_value: 0x4024000000000000u64,
            unit: "s",
            exposes_cv_port: false,
            cv_port_id: None,
        });
        assert(parameters@[0]@.aliases =~= seq!["att"@]);
    }
    {
        let mut aliases: Vec<&'static str> = Vec::new();
        aliases.push("dec");
        parameters.push(CatalogParamSpec {
            id: "decay",
            sc_arg: "decay",
            aliases,
            default_value: 0x3fc999999999999au64,
            min_value: 0x0000000000000000u64,
            max_value: 0x4024000000000000u64,
            unit: "s",
            exposes_cv_port: false,
            cv_port_id: None,
        });
        assert(parameters@[1]@.aliases =~= seq!["dec"@]);
    }
    {
        let mut aliases: Vec<&'static str> = Vec::new();
        aliases.push("sus");
        parameters.push(CatalogParamSpec {
            id: "sustain",
            sc_arg: "sustain",
            aliases,
            default_value: 0x3fe999999999999au64,
            min_value: 0x0000000000000000u64,
            max_value: 0x3ff0000000000000u64,
            unit: "ratio",
            exposes_cv_port: false,
            cv_port_id: None,
        });
        assert(parameters@[2]@.aliases =~= seq!["sus"@]);
    }
    {
        let mut aliases: Vec<&'static str> = Vec::new();
        aliases.push("rel");
        parameters.push(CatalogParamSpec {
            id: "release",
            sc_arg: "release",
            aliases,
            default_value: 0x3fd3333333333333u64,
            min_value: 0x0000000000000000u64,
            max_value: 0x4024000000000000u64,
            unit: "s",
            exposes_cv_port: false,
            cv_port_id: None,
        });
        assert(parameters@[3]@.aliases =~= seq!["rel"@]);
    }
    let r = NodeCatalogEntry {
        id: "envelope",
        display_name: "Envelope",
        category: NodeCategory::Modulator,
        synthdef_name: "scrysynth_v2_envelope",
        synthdef_resource: "resources/synthdefs/v2/scrysynth_v2_envelope.scsyndef",
        ports,
        parameters,
        visual_shape: "ring",
    };
    assert(r@.ports =~= catalog_view()[2].ports);
    assert(r@.parameters =~~= catalog_view()[2].parameters);
    r
}

fn entry_lfo() -> (r: NodeCatalogEntry)
    ensures
        r@ == catalog_view()[3],
{
    let mut ports: Vec<CatalogPortSpec> = Vec::new();
    ports.push(CatalogPortSpec { id: "lfo_out", name: "LFO Out", direction: PortDirection::Output, signal_type: SignalType::Control });
    ports.push(CatalogPortSpec { id: "frequency_cv", name: "Frequency CV", direction: PortDirection::Input, signal_type: SignalType::Control });
    let mut parameters: Vec<CatalogParamSpec> = Vec::new();
    {
        let mut aliases: Vec<&'static str> = Vec::new();
        aliases.push("freq");
        aliases.push("rate");
        parameters.push(CatalogParamSpec {
            id: "frequency",
            sc_arg: "frequency",
            aliases,
            default_value: 0x3fe0000000000000u64,
            min_value: 0x3f50624dd2f1a9fcu64,
            max_value: 0x4059000000000000u64,
            unit: "hz",
            exposes_cv_port: true,
            cv_port_id: Some("frequency_cv"),
        });
        assert(parameters@[0]@.aliases =~= seq!["freq"@, "rate"@]);
    }
    {
        let mut aliases: Vec<&'static str> = Vec::new();
        aliases.push("waveShape");
        aliases.push("waveform");
        parameters.push(CatalogParamSpec {
            id: "wave_shape",
            sc_arg: "wave_shape",
            aliases,
            default_value: 0x0000000000000000u64,
            min_value: 0x0000000000000000u64,
            max_value: 0x4008000000000000u64,
            unit: "selector",
            exposes_cv_port: false,
            cv_port_id: None,
        });
        assert(parameters@[1]@.aliases =~= seq!["waveShape"@, "waveform"@]);
    }
    {
        let mut aliases: Vec<&'static str> = Vec::new();
        aliases.push("gain");
        aliases.push("amplitude");
        parameters.push(CatalogParamSpec {
            id: "level",
            sc_arg: "level",
            aliases,
            default_value: 0x3ff0000000000000u64,
            min_value: 0x0000000000000000u64,
            max_value: 0x3ff0000000000000u64,
            unit: "linear",
            exposes_cv_port: false,
            cv_port_id: None,
        });
        assert(parameters@[2]@.aliases =~= seq!["gain"@, "amplitude"@]);
    }
    let r = NodeCatalogEntry {
        id: "lfo",
        display_name: "LFO",
        category: NodeCategory::Modulator,
        synthdef_name: "scrysynth_v2_lfo",
        synthdef_resource: "resources/synthdefs/v2/scrysynth_v2_lfo.scsyndef",
        ports,
        parameters,
        visual_shape: "ring",
    };
    assert(r@.ports =~= catalog_view()[3].ports);
    assert(r@.parameters =~~= catalog_view()[3].parameters);
    r
}

fn entry_vca() -> (r: NodeCatalogEntry)
    ensures
        r@ == catalog_view()[4],
{
    let mut ports: Vec<CatalogPortSpec> = Vec::new();
    ports.push(CatalogPortSpec { id: "audio_in", name: "Audio In", direction: PortDirection::Input, signal_type: SignalType::Audio });
    ports.push(CatalogPortSpec { id: "audio_out", name: "Audio Out", direction: PortDirection::Output, signal_type: SignalType::Audio });
    ports.push(CatalogPortSpec { id: "level_cv", name: "Level CV", direction: PortDirection::Input, signal_type: SignalType::Control });
    let mut parameters: Vec<CatalogParamSpec> = Vec::new();
    {
        let mut aliases: Vec<&'static str> = Vec::new();
        aliases.push("gain");
        aliases.push("amplitude");
        parameters.push(CatalogParamSpec {
            id: "level",
            sc_arg: "level",
            aliases,
            default_value: 0x3ff0000000000000u64,
            min_value: 0x0000000000000000u64,
            max_value: 0x3ff0000000000000u64,
            unit: "linear",
            exposes_cv_port: true,
            cv_port_id: Some("level_cv"),
        });
        assert(parameters@[0]@.aliases =~= seq!["gain"@, "amplitude"@]);
    }
    let r = NodeCatalogEntry {
        id: "vca",
        display_name: "VCA",
        category: NodeCategory::Utility,
        synthdef_name: "scrysynth_v2_vca",
        synthdef_resource: "resources/synthdefs/v2/scrysynth_v2_vca.scsyndef",
        ports,
        parameters,
        visual_shape: "box",
    };
    assert(r@.ports =~= catalog_view()[4].ports);
    assert(r@.parameters =~~= catalog_view()[4].parameters);
    r
}

fn entry_quantizer() -> (r: NodeCatalogEntry)
    ensures
        r@ == catalog_view()[5],
{
    let mut ports: Vec<CatalogPortSpec> = Vec::new();
    ports.push(CatalogPortSpec { id: "cv_in", name: "CV In", direction: PortDirection::Input, signal_type: SignalType::Control });
    ports.push(CatalogPortSpec { id: "cv_out", name: "CV Out", direction: PortDirection::Output, signal_type: SignalType::Control });
    let mut parameters: Vec<CatalogParamSpec> = Vec::new();
    {
        let mut aliases: Vec<&'static str> = Vec::new();
        aliases.push("divisions");
        parameters.push(CatalogParamSpec {
            id: "steps",
            sc_arg: "steps",
            aliases,
            default_value: 0x4028000000000000u64,
            min_value: 0x3ff0000000000000u64,
            max_value: 0x4048000000000000u64,
            unit: "count",
            exposes_cv_port: false,
            cv_port_id: None,
        });
        assert(parameters@[0]@.aliases =~= seq!["divisions"@]);
    }
    let r = NodeCatalogEntry {
        id: "quantizer",
        display_name: "Quantizer",
        category: NodeCategory::Utility,
        synthdef_name: "scrysynth_v2_quantizer",
        synthdef_resource: "resources/synthdefs/v2/scrysynth_v2_quantizer.scsyndef",
        ports,
        parameters,
        visual_shape: "box",
    };
    assert(r@.ports =~= catalog_view()[5].ports);
    assert(r@.parameters =~~= catalog_view()[5].parameters);
    r
}

fn entry_mixer() -> (r: NodeCatalogEntry)
    ensures
        r@ == catalog_view()[6],
{
    let mut ports: Vec<CatalogPortSpec> = Vec::new();
    ports.push(CatalogPortSpec { id: "audio_out", name: "Audio Out", direction: PortDirection::Output, signal_type: SignalType::Audio });
    ports.push(CatalogPortSpec { id: "level_cv", name: "Level CV", direction: PortDirection::Input, signal_type: SignalType::Control });
    let mut parameters: Vec<CatalogParamSpec> = Vec::new();
    {
        let mut aliases: Vec<&'static str> = Vec::new();
        aliases.push("gain");
        aliases.push("amplitude");
        parameters.push(CatalogParamSpec {
            id: "level",
            sc_arg: "level",
            aliases,
            default_value: 0x3ff0000000000000u64,
            min_value: 0x0000000000000000u64,
            max_value: 0x3ff0000000000000u64,
            unit: "linear",
            exposes_cv_port: true,
            cv_port_id: Some("level_cv"),
        });
        assert(parameters@[0]@.aliases =~= seq!["gain"@, "amplitude"@]);
    }
    {
        let mut aliases: Vec<&'static str> = Vec::new();
        parameters.push(CatalogParamSpec {
            id: "mix",
            sc_arg: "mix",
            aliases,
            default_value: 0x3ff0000000000000u64,
            min_value: 0x0000000000000000u64,
            max_value: 0x3ff0000000000000u64,
            unit: "ratio",
            exposes_cv_port: false,
            cv_port_id: None,
        });
        assert(parameters@[1]@.aliases =~= seq![]);
    }
    let r = NodeCatalogEntry {
        id: "mixer",
        display_name: "Mixer",
        category: NodeCategory::Mixer,
        synthdef_name: "scrysynth_v2_mixer",
        synthdef_resource: "resources/synthdefs/v2/scrysynth_v2_mixer.scsyndef",
        ports,
        parameters,
        visual_shape: "ring",
    };
    assert(r@.ports =~= catalog_view()[6].ports);
    assert(r@.parameters =~~= catalog_view()[6].parameters);
    r
}

fn entry_filter() -> (r: NodeCatalogEntry)
    ensures
        r@ == catalog_view()[7],
{
    let mut ports: Vec<CatalogPortSpec> = Vec::new();
    ports.push(CatalogPortSpec { id: "audio_in", name: "Audio In", direction: PortDirection::Input, signal_type: SignalType::Audio });
    ports.push(CatalogPortSpec { id: "audio_out", name: "Audio Out", direction: PortDirection::Output, signal_type: SignalType::Audio });
    ports.push(CatalogPortSpec { id: "cutoff_cv", name: "Cutoff CV", direction: PortDirection::Input, signal_type: SignalType::Control });
    ports.push(CatalogPortSpec { id: "resonance_cv", name: "Resonance CV", direction: PortDirection::Input, signal_type: SignalType::Control });
    let mut parameters: Vec<CatalogParamSpec> = Vec::new();
    {
        let mut aliases: Vec<&'static str> = Vec::new();
        aliases.push("cutoff");
        aliases.push("cutoff_hz");
        aliases.push("cutoffHz");
        parameters.push(CatalogParamSpec {
            id: "cutoff",
            sc_arg: "cutoff_hz",
            aliases,
            default_value: 0x4092c00000000000u64,
            min_value: 0x4034000000000000u64,
            max_value: 0x40d3880000000000u64,
            unit: "hz",
            exposes_cv_port: true,
            cv_port_id: Some("cutoff_cv"),
        });
        assert(parameters@[0]@.aliases =~= seq!["cutoff"@, "cutoff_hz"@, "cutoffHz"@]);
    }
    {
        let mut aliases: Vec<&'static str> = Vec::new();
        aliases.push("rq");
        parameters.push(CatalogParamSpec {
            id: "resonance",
            sc_arg: "resonance",
            aliases,
            default_value: 0x3fe0000000000000u64,
            min_value: 0x3fa999999999999au64,
            max_value: 0x3ff0000000000000u64,
            unit: "ratio",
            exposes_cv_port: true,
            cv_port_id: Some("resonance_cv"),
        });
        assert(parameters@[1]@.aliases =~= seq!["rq"@]);
    }
    {
        let mut aliases: Vec<&'static str> = Vec::new();
        aliases.push("mode");
        parameters.push(CatalogParamSpec {
            id: "filter_mode",
            sc_arg: "filter_mode",
            aliases,
            default_value: 0x0000000000000000u64,
            min_value: 0x0000000000000000u64,
            max_value: 0x4008000000000000u64,
            unit: "selector",
            exposes_cv_port: false,
            cv_port_id: None,
        });
        assert(parameters@[2]@.aliases =~= seq!["mode"@]);
    }
    {
        let mut aliases: Vec<&'static str> = Vec::new();
        aliases.push("wet");
        aliases.push("wet_dry");
        parameters.push(CatalogParamSpec {
            id: "mix",
            sc_arg: "mix",
            aliases,
            default_value: 0x3ff0000000000000u64,
            min_value: 0x0000000000000000u64,
            max_value: 0x3ff0000000000000u64,
            unit: "ratio",
            exposes_cv_port: false,
            cv_port_id: None,
        });
        assert(parameters@[3]@.aliases =~= seq!["wet"@, "wet_dry"@]);
    }
    {
        let mut aliases: Vec<&'static str> = Vec::new();
        aliases.push("bypass");
        parameters.push(CatalogParamSpec {
            id: "bypassed",
            sc_arg: "bypassed",
            aliases,
            default_value: 0x0000000000000000u64,
            min_value: 0x0000000000000000u64,
            max_value: 0x3ff0000000000000u64,
            unit: "toggle",
            exposes_cv_port: false,
            cv_port_id: None,
        });
        assert(parameters@[4]@.aliases =~= seq!["bypass"@]);
    }
    let r = NodeCatalogEntry {
        id: "filter",
        display_name: "Filter",
        category: NodeCategory::Effect,
        synthdef_name: "scrysynth_v2_filter",
        synthdef_resource: "resources/synthdefs/v2/scrysynth_v2_filter.scsyndef",
        ports,
        parameters,
        visual_shape: "box",
    };
    assert(r@.ports =~= catalog_view()[7].ports);
    assert(r@.parameters =~~= catalog_view()[7].parameters);
    r
}

fn entry_delay() -> (r: NodeCatalogEntry)
    ensures
        r@ == catalog_view()[8],
{
    let mut ports: Vec<CatalogPortSpec> = Vec::new();
    ports.push(CatalogPortSpec { id: "audio_in", name: "Audio In", direction: PortDirection::Input, signal_type: SignalType::Audio });
    ports.push(CatalogPortSpec { id: "audio_out", name: "Audio Out", direction: PortDirection::Output, signal_type: SignalType::Audio });
    ports.push(CatalogPortSpec { id: "delay_time_cv", name: "Delay Time CV", direction: PortDirection::Input, signal_type: SignalType::Control });
    ports.push(CatalogPortSpec { id: "feedback_cv", name: "Feedback CV", direction: PortDirection::Input, signal_type: SignalType::Control });
    let mut parameters: Vec<CatalogParamSpec> = Vec::new();
    {
        let mut aliases: Vec<&'static str> = Vec::new();
        aliases.push("delay_time");
        aliases.push("delayTime");
        aliases.push("delay_time_s");
        parameters.push(CatalogParamSpec {
            id: "delay_time",
            sc_arg: "delay_time_s",
            aliases,
            default_value: 0x3fd0000000000000u64,
            min_value: 0x0000000000000000u64,
            max_value: 0x4000000000000000u64,
            unit: "s",
            exposes_cv_port: true,
            cv_port_id: Some("delay_time_cv"),
        });
        assert(parameters@[0]@.aliases =~= seq!["delay_time"@, "delayTime"@, "delay_time_s"@]);
    }
    {
        let mut aliases: Vec<&'static str> = Vec::new();
        parameters.push(CatalogParamSpec {
            id: "feedback",
            sc_arg: "feedback",
            aliases,
            default_value: 0x3fd0000000000000u64,
            min_value: 0x0000000000000000u64,
            max_value: 0x3fee666666666666u64,
            unit: "ratio",
            exposes_cv_port: true,
            cv_port_id: Some("feedback_cv"),
        });
        assert(parameters@[1]@.aliases =~= seq![]);
    }
    {
        let mut aliases: Vec<&'static str> = Vec::new();
        aliases.push("wet");
        aliases.push("wet_dry");
        parameters.push(CatalogParamSpec {
            id: "mix",
            sc_arg: "mix",
            aliases,
            default_value: 0x3ff0000000000000u64,
            min_value: 0x0000000000000000u64,
            max_value: 0x3ff0000000000000u64,
            unit: "ratio",
            exposes_cv_port: false,
            cv_port_id: None,
        });
        assert(parameters@[2]@.aliases =~= seq!["wet"@, "wet_dry"@]);
    }
    {
        let mut aliases: Vec<&'static str> = Vec::new();
        aliases.push("bypass");
        parameters.push(CatalogParamSpec {
            id: "bypassed",
            sc_arg: "bypassed",
            aliases,
            default_value: 0x0000000000000000u64,
            min_value: 0x0000000000000000u64,
            max_value: 0x3ff0000000000000u64,
            unit: "toggle",
            exposes_cv_port: false,
            cv_port_id: None,
        });
        assert(parameters@[3]@.aliases =~= seq!["bypass"@]);
    }
    let r = NodeCatalogEntry {
        id: "delay",
        display_name: "Delay",
        category: NodeCategory::Effect,
        synthdef_name: "scrysynth_v2_delay",
        synthdef_resource: "resources/synthdefs/v2/scrysynth_v2_delay.scsyndef",
        ports,
        parameters,
        visual_shape: "box",
    };
    assert(r@.ports =~= catalog_view()[8].ports);
    assert(r@.parameters =~~= catalog_view()[8].parameters);
    r
}

fn entry_reverb() -> (r: NodeCatalogEntry)
    ensures
        r@ == catalog_view()[9],
{
    let mut ports: Vec<CatalogPortSpec> = Vec::new();
    ports.push(CatalogPortSpec { id: "audio_in", name: "Audio In", direction: PortDirection::Input, signal_type: SignalType::Audio });
    ports.push(CatalogPortSpec { id: "audio_out", name: "Audio Out", direction: PortDirection::Output, signal_type: SignalType::Audio });
    ports.push(CatalogPortSpec { id: "room_cv", name: "Room CV", direction: PortDirection::Input, signal_type: SignalType::Control });
    ports.push(CatalogPortSpec { id: "mix_cv", name: "Mix CV", direction: PortDirection::Input, signal_type: SignalType::Control });
    let mut parameters: Vec<CatalogParamSpec> = Vec::new();
    {
        let mut aliases: Vec<&'static str> = Vec::new();
        aliases.push("room_size");
        parameters.push(CatalogParamSpec {
            id: "room",
            sc_arg: "room",
            aliases,
            default_value: 0x3fe0000000000000u64,
            min_value: 0x0000000000000000u64,
            max_value: 0x3ff0000000000000u64,
            unit: "ratio",
            exposes_cv_port: true,
            cv_port_id: Some("room_cv"),
        });
        assert(parameters@[0]@.aliases =~= seq!["room_size"@]);
    }
    {
        let mut aliases: Vec<&'static str> = Vec::new();
        aliases.push("damping");
        parameters.push(CatalogParamSpec {
            id: "damp",
            sc_arg: "damp",
            aliases,
            default_value: 0x3fe0000000000000u64,
            min_value: 0x0000000000000000u64,
            max_value: 0x3ff0000000000000u64,
            unit: "ratio",
            exposes_cv_port: false,
            cv_port_id: None,
        });
        assert(parameters@[1]@.aliases =~= seq!["damping"@]);
    }
    {
        let mut aliases: Vec<&'static str> = Vec::new();
        aliases.push("wet");
        aliases.push("wet_dry");
        parameters.push(CatalogParamSpec {
            id: "mix",
            sc_arg: "mix",
            aliases,
            default_value: 0x3ff0000000000000u64,
            min_value: 0x0000000000000000u64,
            max_value: 0x3ff0000000000000u64,
            unit: "ratio",
            exposes_cv_port: true,
            cv_port_id: Some("mix_cv"),
        });
        assert(parameters@[2]@.aliases =~= seq!["wet"@, "wet_dry"@]);
    }
    {
        let mut aliases: Vec<&'static str> = Vec::new();
        aliases.push("bypass");
        parameters.push(CatalogParamSpec {
            id: "bypassed",
            sc_arg: "bypassed",
            aliases,
            default_value: 0x0000000000000000u64,
            min_value: 0x0000000000000000u64,
            max_value: 0x3ff0000000000000u64,
            unit: "toggle",
            exposes_cv_port: false,
            cv_port_id: None,
        });
        assert(parameters@[3]@.aliases =~= seq!["bypass"@]);
    }
    let r = NodeCatalogEntry {
        id: "reverb",
        display_name: "Reverb",
        category: NodeCategory::Effect,
        synthdef_name: "scrysynth_v2_reverb",
        synthdef_resource: "resources/synthdefs/v2/scrysynth_v2_reverb.scsyndef",
        ports,
        parameters,
        visual_shape: "box",
    };
    assert(r@.ports =~= catalog_view()[9].ports);
    assert(r@.parameters =~~= catalog_view()[9].parameters);
    r
}

fn entry_distortion() -> (r: NodeCatalogEntry)
    ensures
        r@ == catalog_view()[10],
{
    let mut ports: Vec<CatalogPortSpec> = Vec::new();
    ports.push(CatalogPortSpec { id: "audio_in", name: "Audio In", direction: PortDirection::Input, signal_type: SignalType::Audio });
    ports.push(CatalogPortSpec { id: "audio_out", name: "Audio Out", direction: PortDirection::Output, signal_type: SignalType::Audio });
    ports.push(CatalogPortSpec { id: "drive_cv", name: "Drive CV", direction: PortDirection::Input, signal_type: SignalType::Control });
    ports.push(CatalogPortSpec { id: "mix_cv", name: "Mix CV", direction: PortDirection::Input, signal_type: SignalType::Control });
    let mut parameters: Vec<CatalogParamSpec> = Vec::new();
    {
        let mut aliases: Vec<&'static str> = Vec::new();
        aliases.push("gain");
        parameters.push(CatalogParamSpec {
            id: "drive",
            sc_arg: "drive",
            aliases,
            default_value: 0x3fe0000000000000u64,
            min_value: 0x0000000000000000u64,
            max_value: 0x3ff0000000000000u64,
            unit: "ratio",
            exposes_cv_port: true,
            cv_port_id: Some("drive_cv"),
        });
        assert(parameters@[0]@.aliases =~= seq!["gain"@]);
    }
    {
        let mut aliases: Vec<&'static str> = Vec::new();
        aliases.push("wet");
        aliases.push("wet_dry");
        parameters.push(CatalogParamSpec {
            id: "mix",
            sc_arg: "mix",
            aliases,
            default_value: 0x3ff0000000000000u64,
            min_value: 0x0000000000000000u64,
            max_value: 0x3ff0000000000000u64,
            unit: "ratio",
            exposes_cv_port: true,
            cv_port_id: Some("mix_cv"),
        });
        assert(parameters@[1]@.aliases =~= seq!["wet"@, "wet_dry"@]);
    }
    {
        let mut aliases: Vec<&'static str> = Vec::new();
        aliases.push("bypass");
        parameters.push(CatalogParamSpec {
            id: "bypassed",
            sc_arg: "bypassed",
            aliases,
            default_value: 0x0000000000000000u64,
            min_value: 0x0000000000000000u64,
            max_value: 0x3ff0000000000000u64,
            unit: "toggle",
            exposes_cv_port: false,
            cv_port_id: None,
        });
        assert(parameters@[2]@.aliases =~= seq!["bypass"@]);
    }
    let r = NodeCatalogEntry {
        id: "distortion",
        display_name: "Distortion",
        category: NodeCategory::Effect,
        synthdef_name: "scrysynth_v2_distortion",
        synthdef_resource: "resources/synthdefs/v2/scrysynth_v2_distortion.scsyndef",
        ports,
        parameters,
        visual_shape: "box",
    };
    assert(r@.ports =~= catalog_view()[10].ports);
    assert(r@.parameters =~~= catalog_view()[10].parameters);
    r
}

fn entry_chorus() -> (r: NodeCatalogEntry)
    ensures
        r@ == catalog_view()[11],
{
    let mut ports: Vec<CatalogPortSpec> = Vec::new();
    ports.push(CatalogPortSpec { id: "audio_in", name: "Audio In", direction: PortDirection::Input, signal_type: SignalType::Audio });
    ports.push(CatalogPortSpec { id: "audio_out", name: "Audio Out", direction: PortDirection::Output, signal_type: SignalType::Audio });
    ports.push(CatalogPortSpec { id: "depth_cv", name: "Depth CV", direction: PortDirection::Input, signal_type: SignalType::Control });
    ports.push(CatalogPortSpec { id: "rate_cv", name: "Rate CV", direction: PortDirection::Input, signal_type: SignalType::Control });
    let mut parameters: Vec<CatalogParamSpec> = Vec::new();
    {
        let mut aliases: Vec<&'static str> = Vec::new();
        parameters.push(CatalogParamSpec {
            id: "depth",
            sc_arg: "depth",
            aliases,
            default_value: 0x3fd3333333333333u64,
            min_value: 0x0000000000000000u64,
            max_value: 0x3ff0000000000000u64,
            unit: "ratio",
            exposes_cv_port: true,
            cv_port_id: Some("depth_cv"),
        });
        assert(parameters@[0]@.aliases =~= seq![]);
    }
    {
        let mut aliases: Vec<&'static str> = Vec::new();
        aliases.push("frequency");
        aliases.push("freq");
        parameters.push(CatalogParamSpec {
            id: "rate",
            sc_arg: "rate",
            aliases,
            default_value: 0x3fe0000000000000u64,
            min_value: 0x0000000000000000u64,
            max_value: 0x4024000000000000u64,
            unit: "hz",
            exposes_cv_port: true,
            cv_port_id: Some("rate_cv"),
        });
        assert(parameters@[1]@.aliases =~= seq!["frequency"@, "freq"@]);
    }
    {
        let mut aliases: Vec<&'static str> = Vec::new();
        aliases.push("wet");
        aliases.push("wet_dry");
        parameters.push(CatalogParamSpec {
            id: "mix",
            sc_arg: "mix",
            aliases,
            default_value: 0x3ff0000000000000u64,
            min_value: 0x0000000000000000u64,
            max_value: 0x3ff0000000000000u64,
            unit: "ratio",
            exposes_cv_port: false,
            cv_port_id: None,
        });
        assert(parameters@[2]@.aliases =~= seq!["wet"@, "wet_dry"@]);
    }
    {
        let mut aliases: Vec<&'static str> = Vec::new();
        aliases.push("bypass");
        parameters.push(CatalogParamSpec {
            id: "bypassed",
            sc_arg: "bypassed",
            aliases,
            default_value: 0x0000000000000000u64,
            min_value: 0x0000000000000000u64,
            max_value: 0x3ff0000000000000u64,
            unit: "toggle",
            exposes_cv_port: false,
            cv_port_id: None,
        });
        assert(parameters@[3]@.aliases =~= seq!["bypass"@]);
    }
    let r = NodeCatalogEntry {
        id: "chorus",
        display_name: "Chorus",
        category: NodeCategory::Effect,
        synthdef_name: "scrysynth_v2_chorus",
        synthdef_resource: "resources/synthdefs/v2/scrysynth_v2_chorus.scsyndef",
        ports,
        parameters,
        visual_shape: "box",
    };
    assert(r@.ports =~= catalog_view()[11].ports);
    assert(r@.parameters =~~= catalog_view()[11].parameters);
    r
}

fn entry_flanger() -> (r: NodeCatalogEntry)
    ensures
        r@ == catalog_view()[12],
{
    let mut ports: Vec<CatalogPortSpec> = Vec::new();
    ports.push(CatalogPortSpec { id: "audio_in", name: "Audio In", direction: PortDirection::Input, signal_type: SignalType::Audio });
    ports.push(CatalogPortSpec { id: "audio_out", name: "Audio Out", direction: PortDirection::Output, signal_type: SignalType::Audio });
    ports.push(CatalogPortSpec { id: "depth_cv", name: "Depth CV", direction: PortDirection::Input, signal_type: SignalType::Control });
    ports.push(CatalogPortSpec { id: "rate_cv", name: "Rate CV", direction: PortDirection::Input, signal_type: SignalType::Control });
    ports.push(CatalogPortSpec { id: "feedback_cv", name: "Feedback CV", direction: PortDirection::Input, signal_type: SignalType::Control });
    let mut parameters: Vec<CatalogParamSpec> = Vec::new();
    {
        let mut aliases: Vec<&'static str> = Vec::new();
        parameters.push(CatalogParamSpec {
            id: "depth",
            sc_arg: "depth",
            aliases,
            default_value: 0x3fd3333333333333u64,
            min_value: 0x0000000000000000u64,
            max_value: 0x3ff0000000000000u64,
            unit: "ratio",
            exposes_cv_port: true,
            cv_port_id: Some("depth_cv"),
        });
        assert(parameters@[0]@.aliases =~= seq![]);
    }
    {
        let mut aliases: Vec<&'static str> = Vec::new();
        aliases.push("frequency");
        aliases.push("freq");
        parameters.push(CatalogParamSpec {
            id: "rate",
            sc_arg: "rate",
            aliases,
            default_value: 0x3fe0000000000000u64,
            min_value: 0x0000000000000000u64,
            max_value: 0x4024000000000000u64,
            unit: "hz",
            exposes_cv_port: true,
            cv_port_id: Some("rate_cv"),
        });
        assert(parameters@[1]@.aliases =~= seq!["frequency"@, "freq"@]);
    }
    {
        let mut aliases: Vec<&'static str> = Vec::new();
        parameters.push(CatalogParamSpec {
            id: "feedback",
            sc_arg: "feedback",
            aliases,
            default_value: 0x3fd3333333333333u64,
            min_value: 0x0000000000000000u64,
            max_value: 0x3fee666666666666u64,
            unit: "ratio",
            exposes_cv_port: true,
            cv_port_id: Some("feedback_cv"),
        });
        assert(parameters@[2]@.aliases =~= seq![]);
    }
    {
        let mut aliases: Vec<&'static str> = Vec::new();
        aliases.push("wet");
        aliases.push("wet_dry");
        parameters.push(CatalogParamSpec {
            id: "mix",
            sc_arg: "mix",
            aliases,
            default_value: 0x3ff0000000000000u64,
            min_value: 0x0000000000000000u64,
            max_value: 0x3ff0000000000000u64,
            unit: "ratio",
            exposes_cv_port: false,
            cv_port_id: None,
        });
        assert(parameters@[3]@.aliases =~= seq!["wet"@, "wet_dry"@]);
    }
    {
        let mut aliases: Vec<&'static str> = Vec::new();
        aliases.push("bypass");
        parameters.push(CatalogParamSpec {
            id: "bypassed",
            sc_arg: "bypassed",
            aliases,
            default_value: 0x0000000000000000u64,
            min_value: 0x0000000000000000u64,
            max_value: 0x3ff0000000000000u64,
            unit: "toggle",
            exposes_cv_port: false,
            cv_port_id: None,
        });
        assert(parameters@[4]@.aliases =~= seq!["bypass"@]);
    }
    let r = NodeCatalogEntry {
        id: "flanger",
        display_name: "Flanger",
        category: NodeCategory::Effect,
        synthdef_name: "scrysynth_v2_flanger",
        synthdef_resource: "resources/synthdefs/v2/scrysynth_v2_flanger.scsyndef",
        ports,
        parameters,
        visual_shape: "box",
    };
    assert(r@.ports =~= catalog_view()[12].ports);
    assert(r@.parameters =~~= catalog_view()[12].parameters);
    r
}

fn entry_step_sequencer() -> (r: NodeCatalogEntry)
    ensures
        r@ == catalog_view()[13],
{
    let mut ports: Vec<CatalogPortSpec> = Vec::new();
    ports.push(CatalogPortSpec { id: "gate_out", name: "Gate Out", direction: PortDirection::Output, signal_type: SignalType::Control });
    ports.push(CatalogPortSpec { id: "cv_out", name: "CV Out", direction: PortDirection::Output, signal_type: SignalType::Control });
    let mut parameters: Vec<CatalogParamSpec> = Vec::new();
    let r = NodeCatalogEntry {
        id: "step_sequencer",
        display_name: "Step Sequencer",
        category: NodeCategory::Sequencer,
        synthdef_name: "",
        synthdef_resource: "",
        ports,
        parameters,
        visual_shape: "ring",
    };
    assert(r@.ports =~= catalog_view()[13].ports);
    assert(r@.parameters =~~= catalog_view()[13].parameters);
    r
}

fn entry_output() -> (r: NodeCatalogEntry)
    ensures
        r@ == catalog_view()[14],
{
    let mut ports: Vec<CatalogPortSpec> = Vec::new();
    ports.push(CatalogPortSpec { id: "audio_in", name: "Audio In", direction: PortDirection::Input, signal_type: SignalType::Audio });
    ports.push(CatalogPortSpec { id: "level_cv", name: "Level CV", direction: PortDirection::Input, signal_type: SignalType::Control });
    let mut parameters: Vec<CatalogParamSpec> = Vec::new();
    {
        let mut aliases: Vec<&'static str> = Vec::new();
        aliases.push("gain");
        aliases.push("amplitude");
        parameters.push(CatalogParamSpec {
            id: "level",
            sc_arg: "level",
            aliases,
            default_value: 0x3ff0000000000000u64,
            min_value: 0x0000000000000000u64,
            max_value: 0x3ff0000000000000u64,
            unit: "linear",
            exposes_cv_port: true,
            cv_port_id: Some("level_cv"),
        });
        assert(parameters@[0]@.aliases =~= seq!["gain"@, "amplitude"@]);
    }
    let r = NodeCatalogEntry {
        id: "output",
        display_name: "Output",
        category: NodeCategory::Output,
        synthdef_name: "scrysynth_v2_output",
        synthdef_resource: "resources/synthdefs/v2/scrysynth_v2_output.scsyndef",
        ports,
        parameters,
        visual_shape: "plane",
    };
    assert(r@.ports =~= catalog_view()[14].ports);
    assert(r@.parameters =~~= catalog_view()[14].parameters);
    r
}

/// The node catalog, in its fixed order.
pub fn catalog() -> (r: Vec<NodeCatalogEntry>)
    ensures
        r@.map_values(|e: NodeCatalogEntry| e@) == catalog_view(),
{
    let mut r: Vec<NodeCatalogEntry> = Vec::new();
    r.push(entry_oscillator());
    r.push(entry_noise());
    r.push(entry_envelope());
    r.push(entry_lfo());
    r.push(entry_vca());
    r.push(entry_quantizer());
    r.push(entry_mixer());
    r.push(entry_filter());
    r.push(entry_delay());
    r.push(entry_reverb());
    r.push(entry_distortion());
    r.push(entry_chorus());
    r.push(entry_flanger());
    r.push(entry_step_sequencer());
    r.push(entry_output());
    assert(r@.map_values(|e: NodeCatalogEntry| e@) =~= catalog_view());
    r
}

/// Whether two strings hold the same characters.
pub fn str_eq(a: &str, b: &str) -> (r: bool)
    ensures
        r == (a@ == b@),
{
    let ca = crate::text::chars_of(a);
    let cb = crate::text::chars_of(b);
    if ca.len() != cb.len() {
        return false;
    }
    let mut i: usize = 0;
    while i < ca.len()
        invariant
            ca@ == a@,
            cb@ == b@,
            ca@.len() == cb@.len(),
            i <= ca@.len(),
            forall|j: int| 0 <= j < i ==> ca@[j] == cb@[j],
        decreases ca.len() - i,
    {
        if ca[i] != cb[i] {
            assert(a@[i as int] != b@[i as int]);
            return false;
        }
        i = i + 1;
    }
    assert(ca@ =~= cb@);
    true
}

/// `k` is the first catalog entry with id `id`.
pub open spec fn is_first_entry(cat: Seq<EntryView>, id: Seq<char>, k: int) -> bool {
    &&& 0 <= k < cat.len()
    &&& cat[k].id == id
    &&& forall|j: int| 0 <= j < k ==> (#[trigger] cat[j]).id != id
}

/// Some catalog entry has id `id`.
pub open spec fn entry_exists(cat: Seq<EntryView>, id: Seq<char>) -> bool {
    exists|k: int| 0 <= k < cat.len() && (#[trigger] cat[k]).id == id
}

/// The catalog entry of a node type.
pub fn find_catalog_entry(id: &str) -> (r: Result<NodeCatalogEntry, ScResourcePlanError>)
    ensures
        match r {
            Ok(e) => exists|k: int| is_first_entry(catalog_view(), id@, k) && e@ == catalog_view()[k],
            Err(err) => !entry_exists(catalog_view(), id@) && (match err {
                ScResourcePlanError::UnknownCatalogEntry { node_type_id } => node_type_id@ == id@,
                _ => false,
            }),
        },
{
    let mut cat = catalog();
    let ghost v = catalog_view();
    let mut i: usize = 0;
    while i < cat.len()
        invariant
            i <= cat@.len(),
            cat@.map_values(|e: NodeCatalogEntry| e@) == v,
            v == catalog_view(),
            forall|j: int| 0 <= j < i ==> (#[trigger] v[j]).id != id@,
        decreases cat.len() - i,
    {
        assert(cat@[i as int]@ == v[i as int]);
        if str_eq(cat[i].id, id) {
            let e = cat.remove(i);
            assert(is_first_entry(v, id@, i as int));
            return Ok(e);
        }
        i = i + 1;
    }
    Err(ScResourcePlanError::UnknownCatalogEntry { node_type_id: id.to_owned() })
}

/// The parameter answers to `name`: its id or one of its aliases.
pub open spec fn param_named(p: ParamView, name: Seq<char>) -> bool {
    p.id == name || p.aliases.contains(name)
}

/// `k` is the first parameter answering to `name`.
pub open spec fn is_first_named(params: Seq<ParamView>, name: Seq<char>, k: int) -> bool {
    &&& 0 <= k < params.len()
    &&& param_named(params[k], name)
    &&& forall|j: int| 0 <= j < k ==> !param_named(#[trigger] params[j], name)
}

fn contains_str(v: &Vec<&'static str>, x: &str) -> (r: bool)
    ensures
        r == v@.map_values(|a: &str| a@).contains(x@),
{
    let mut i: usize = 0;
    while i < v.len()
        invariant
            i <= v@.len(),
            forall|j: int| 0 <= j < i ==> (#[trigger] v@[j])@ != x@,
        decreases v.len() - i,
    {
        if str_eq(v[i], x) {
            assert(v@.map_values(|a: &str| a@)[i as int] == x@);
            return true;
        }
        i = i + 1;
    }
    proof {
        if v@.map_values(|a: &str| a@).contains(x@) {
            let m = v@.map_values(|a: &str| a@);
            let j = choose|j: int| 0 <= j < m.len() && #[trigger] m[j] == x@;
            assert(v@[j]@ != x@);
        }
    }
    false
}

/// `k` is the first parameter with id `id` that exposes a CV port.
pub open spec fn is_first_cv_param(params: Seq<ParamView>, id: Seq<char>, k: int) -> bool {
    &&& 0 <= k < params.len()
    &&& params[k].id == id && params[k].exposes_cv_port
    &&& forall|j: int|
        0 <= j < k ==> !((#[trigger] params[j]).id == id && params[j].exposes_cv_port)
}

/// `k` is the first port with id `id`.
pub open spec fn is_first_port(ports: Seq<PortView>, id: Seq<char>, k: int) -> bool {
    &&& 0 <= k < ports.len()
    &&& ports[k].id == id
    &&& forall|j: int| 0 <= j < k ==> (#[trigger] ports[j]).id != id
}

/// The CV-input port declared for a parameter, as the catalog finds it:
/// the first CV-exposing parameter with that id names a port, and the
/// first port with that name is returned.
pub open spec fn cv_port_of(e: EntryView, param_id: Seq<char>) -> Option<PortView> {
    if exists|k: int| is_first_cv_param(e.parameters, param_id, k) {
        let k = choose|k: int| is_first_cv_param(e.parameters, param_id, k);
        match e.parameters[k].cv_port_id {
            Some(c) => if exists|j: int| is_first_port(e.ports, c, j) {
                Some(e.ports[choose|j: int| is_first_port(e.ports, c, j)])
            } else {
                None
            },
            None => None,
        }
    } else {
        None
    }
}

impl NodeCatalogEntry {
    /// The SuperCollider argument name for a parameter id or alias.
    pub fn resolve_sc_arg(&self, name: &str) -> (r: Option<&'static str>)
        ensures
            match r {
                Some(arg) => exists|k: int|
                    is_first_named(self@.parameters, name@, k) && arg@ == self@.parameters[k].sc_arg,
                None => forall|k: int|
                    0 <= k < self@.parameters.len() ==> !param_named(#[trigger] self@.parameters[k], name@),
            },
    {
        let mut i: usize = 0;
        while i < self.parameters.len()
            invariant
                i <= self.parameters@.len(),
                forall|j: int| 0 <= j < i ==> !param_named(#[trigger] self@.parameters[j], name@),
            decreases self.parameters.len() - i,
        {
            let p = &self.parameters[i];
            assert(self@.parameters[i as int] == p@);
            if str_eq(p.id, name) || contains_str(&p.aliases, name) {
                assert(is_first_named(self@.parameters, name@, i as int));
                return Some(p.sc_arg);
            }
            i = i + 1;
        }
        None
    }

    fn first_cv_param(&self, param_id: &str) -> (r: Option<usize>)
        ensures
            match r {
                Some(k) => is_first_cv_param(self@.parameters, param_id@, k as int),
                None => !exists|k: int| is_first_cv_param(self@.parameters, param_id@, k),
            },
    {
        let mut i: usize = 0;
        while i < self.parameters.len()
            invariant
                i <= self.parameters@.len(),
                forall|j: int|
                    0 <= j < i ==> !((#[trigger] self@.parameters[j]).id == param_id@
                        && self@.parameters[j].exposes_cv_port),
            decreases self.parameters.len() - i,
        {
            let p = &self.parameters[i];
            assert(self@.parameters[i as int] == p@);
            if str_eq(p.id, param_id) && p.exposes_cv_port {
                return Some(i);
            }
            i = i + 1;
        }
        None
    }

    /// The CV-input port declared for a continuous parameter, if any.
    pub fn cv_port_for_param(&self, param_id: &str) -> (r: Option<CatalogPortSpec>)
        ensures
            match r {
                Some(p) => cv_port_of(self@, param_id@) == Some(p@),
                None => cv_port_of(self@, param_id@) is None,
            },
    {
        let k = match self.first_cv_param(param_id) {
            Some(k) => k,
            None => {
                return None;
            },
        };
        proof {
            assert(is_first_cv_param(self@.parameters, param_id@, k as int));
            let c = choose|c: int| is_first_cv_param(self@.parameters, param_id@, c);
            if c < k as int {
                assert(!(self@.parameters[c].id == param_id@ && self@.parameters[c].exposes_cv_port));
            } else if c > k as int {
                assert(!(self@.parameters[k as int].id == param_id@ && self@.parameters[k as int].exposes_cv_port));
            }
        }
        let cv = match self.parameters[k].cv_port_id {
            Some(c) => c,
            None => {
                return None;
            },
        };
        assert(self@.parameters[k as int].cv_port_id == Some(cv@));
        let ghost kk = k as int;
        let mut j: usize = 0;
        while j < self.ports.len()
            invariant
                j <= self.ports@.len(),
                (choose|c: int| is_first_cv_param(self@.parameters, param_id@, c)) == kk,
                is_first_cv_param(self@.parameters, param_id@, kk),
                self@.parameters[kk].cv_port_id == Some(cv@),
                forall|m: int| 0 <= m < j ==> (#[trigger] self@.ports[m]).id != cv@,
            decreases self.ports.len() - j,
        {
            assert(self@.ports[j as int] == self.ports@[j as int]@);
            if str_eq(self.ports[j].id, cv) {
                proof {
                    assert(is_first_port(self@.ports, cv@, j as int));
                    let c = choose|c: int| is_first_port(self@.ports, cv@, c);
                    if c < j as int {
                        assert(self@.ports[c].id != cv@);
                    } else if c > j as int {
                        assert(self@.ports[j as int].id != cv@);
                    }
                }
                return Some(self.ports[j]);
            }
            j = j + 1;
        }
        None
    }
}

/// Catalog ids are unique.
pub proof fn lemma_catalog_ids_unique()
    ensures
        forall|i: int, j: int|
            0 <= i < j < catalog_view().len() ==> (#[trigger] catalog_view()[i]).id != (#[trigger] catalog_view()[j]).id,
{
    assert forall|i: int, j: int| 0 <= i < j < catalog_view().len() implies (#[trigger] catalog_view()[i]).id
        != (#[trigger] catalog_view()[j]).id by {
        lemma_catalog_id_pair(i, j);
    }
}

proof fn lemma_catalog_id_pair(i: int, j: int)
    requires
        0 <= i < j < catalog_view().len(),
    ensures
        catalog_view()[i].id != catalog_view()[j].id,
{
    let v = catalog_view();
    reveal_strlit("oscillator");
    reveal_strlit("noise");
    reveal_strlit("envelope");
    reveal_strlit("lfo");
    reveal_strlit("vca");
    reveal_strlit("quantizer");
    reveal_strlit("mixer");
    reveal_strlit("filter");
    reveal_strlit("delay");
    reveal_strlit("reverb");
    reveal_strlit("distortion");
    reveal_strlit("chorus");
    reveal_strlit("flanger");
    reveal_strlit("step_sequencer");
    reveal_strlit("output");
    if i == 0 && j == 1 {
        assert(v[0].id.len() != v[1].id.len());
    }    else if i == 0 && j == 2 {
        assert(v[0].id.len() != v[2].id.len());
    }    else if i == 0 && j == 3 {
        assert(v[0].id.len() != v[3].id.len());
    }    else if i == 0 && j == 4 {
        assert(v[0].id.len() != v[4].id.len());
    }    else if i == 0 && j == 5 {
        assert(v[0].id.len() != v[5].id.len());
    }    else if i == 0 && j == 6 {
        assert(v[0].id.len() != v[6].id.len());
    }    else if i == 0 && j == 7 {
        assert(v[0].id.len() != v[7].id.len());
    }    else if i == 0 && j == 8 {
        assert(v[0].id.len() != v[8].id.len());
    }    else if i == 0 && j == 9 {
        assert(v[0].id.len() != v[9].id.len());
    }    else if i == 0 && j == 10 {
        assert(v[0].id[0] != v[10].id[0]);
    }    else if i == 0 && j == 11 {
        assert(v[0].id.len() != v[11].id.len());
    }    else if i == 0 && j == 12 {
        assert(v[0].id.len() != v[12].id.len());
    }    else if i == 0 && j == 13 {
        assert(v[0].id.len() != v[13].id.len());
    }    else if i == 0 && j == 14 {
        assert(v[0].id.len() != v[14].id.len());
    }    else if i == 1 && j == 2 {
        assert(v[1].id.len() != v[2].id.len());
    }    else if i == 1 && j == 3 {
        assert(v[1].id.len() != v[3].id.len());
    }    else if i == 1 && j == 4 {
        assert(v[1].id.len() != v[4].id.len());
    }    else if i == 1 && j == 5 {
        assert(v[1].id.len() != v[5].id.len());
    }    else if i == 1 && j == 6 {
        assert(v[1].id[0] != v[6].id[0]);
    }    else if i == 1 && j == 7 {
        assert(v[1].id.len() != v[7].id.len());
    }    else if i == 1 && j == 8 {
        assert(v[1].id[0] != v[8].id[0]);
    }    else if i == 1 && j == 9 {
        assert(v[1].id.len() != v[9].id.len());
    }    else if i == 1 && j == 10 {
        assert(v[1].id.len() != v[10].id.len());
    }    else if i == 1 && j == 11 {
        assert(v[1].id.len() != v[11].id.len());
    }    else if i == 1 && j == 12 {
        assert(v[1].id.len() != v[12].id.len());
    }    else if i == 1 && j == 13 {
        assert(v[1].id.len() != v[13].id.len());
    }    else if i == 1 && j == 14 {
        assert(v[1].id.len() != v[14].id.len());
    }    else if i == 2 && j == 3 {
        assert(v[2].id.len() != v[3].id.len());
    }    else if i == 2 && j == 4 {
        assert(v[2].id.len() != v[4].id.len());
    }    else if i == 2 && j == 5 {
        assert(v[2].id.len() != v[5].id.len());
    }    else if i == 2 && j == 6 {
        assert(v[2].id.len() != v[6].id.len());
    }    else if i == 2 && j == 7 {
        assert(v[2].id.len() != v[7].id.len());
    }    else if i == 2 && j == 8 {
        assert(v[2].id.len() != v[8].id.len());
    }    else if i == 2 && j == 9 {
        assert(v[2].id.len() != v[9].id.len());
    }    else if i == 2 && j == 10 {
        assert(v[2].id.len() != v[10].id.len());
    }    else if i == 2 && j == 11 {
        assert(v[2].id.len() != v[11].id.len());
    }    else if i == 2 && j == 12 {
        assert(v[2].id.len() != v[12].id.len());
    }    else if i == 2 && j == 13 {
        assert(v[2].id.len() != v[13].id.len());
    }    else if i == 2 && j == 14 {
        assert(v[2].id.len() != v[14].id.len());
    }    else if i == 3 && j == 4 {
        assert(v[3].id[0] != v[4].id[0]);
    }    else if i == 3 && j == 5 {
        assert(v[3].id.len() != v[5].id.len());
    }    else if i == 3 && j == 6 {
        assert(v[3].id.len() != v[6].id.len());
    }    else if i == 3 && j == 7 {
        assert(v[3].id.len() != v[7].id.len());
    }    else if i == 3 && j == 8 {
        assert(v[3].id.len() != v[8].id.len());
    }    else if i == 3 && j == 9 {
        assert(v[3].id.len() != v[9].id.len());
    }    else if i == 3 && j == 10 {
        assert(v[3].id.len() != v[10].id.len());
    }    else if i == 3 && j == 11 {
        assert(v[3].id.len() != v[11].id.len());
    }    else if i == 3 && j == 12 {
        assert(v[3].id.len() != v[12].id.len());
    }    else if i == 3 && j == 13 {
        assert(v[3].id.len() != v[13].id.len());
    }    else if i == 3 && j == 14 {
        assert(v[3].id.len() != v[14].id.len());
    }    else if i == 4 && j == 5 {
        assert(v[4].id.len() != v[5].id.len());
    }    else if i == 4 && j == 6 {
        assert(v[4].id.len() != v[6].id.len());
    }    else if i == 4 && j == 7 {
        assert(v[4].id.len() != v[7].id.len());
    }    else if i == 4 && j == 8 {
        assert(v[4].id.len() != v[8].id.len());
    }    else if i == 4 && j == 9 {
        assert(v[4].id.len() != v[9].id.len());
    }    else if i == 4 && j == 10 {
        assert(v[4].id.len() != v[10].id.len());
    }    else if i == 4 && j == 11 {
        assert(v[4].id.len() != v[11].id.len());
    }    else if i == 4 && j == 12 {
        assert(v[4].id.len() != v[12].id.len());
    }    else if i == 4 && j == 13 {
        assert(v[4].id.len() != v[13].id.len());
    }    else if i == 4 && j == 14 {
        assert(v[4].id.len() != v[14].id.len());
    }    else if i == 5 && j == 6 {
        assert(v[5].id.len() != v[6].id.len());
    }    else if i == 5 && j == 7 {
        assert(v[5].id.len() != v[7].id.len());
    }    else if i == 5 && j == 8 {
        assert(v[5].id.len() != v[8].id.len());
    }    else if i == 5 && j == 9 {
        assert(v[5].id.len() != v[9].id.len());
    }    else if i == 5 && j == 10 {
        assert(v[5].id.len() != v[10].id.len());
    }    else if i == 5 && j == 11 {
        assert(v[5].id.len() != v[11].id.len());
    }    else if i == 5 && j == 12 {
        assert(v[5].id.len() != v[12].id.len());
    }    else if i == 5 && j == 13 {
        assert(v[5].id.len() != v[13].id.len());
    }    else if i == 5 && j == 14 {
        assert(v[5].id.len() != v[14].id.len());
    }    else if i == 6 && j == 7 {
        assert(v[6].id.len() != v[7].id.len());
    }    else if i == 6 && j == 8 {
        assert(v[6].id[0] != v[8].id[0]);
    }    else if i == 6 && j == 9 {
        assert(v[6].id.len() != v[9].id.len());
    }    else if i == 6 && j == 10 {
        assert(v[6].id.len() != v[10].id.len());
    }    else if i == 6 && j == 11 {
        assert(v[6].id.len() != v[11].id.len());
    }    else if i == 6 && j == 12 {
        assert(v[6].id.len() != v[12].id.len());
    }    else if i == 6 && j == 13 {
        assert(v[6].id.len() != v[13].id.len());
    }    else if i == 6 && j == 14 {
        assert(v[6].id.len() != v[14].id.len());
    }    else if i == 7 && j == 8 {
        assert(v[7].id.len() != v[8].id.len());
    }    else if i == 7 && j == 9 {
        assert(v[7].id[0] != v[9].id[0]);
    }    else if i == 7 && j == 10 {
        assert(v[7].id.len() != v[10].id.len());
    }    else if i == 7 && j == 11 {
        assert(v[7].id[0] != v[11].id[0]);
    }    else if i == 7 && j == 12 {
        assert(v[7].id.len() != v[12].id.len());
    }    else if i == 7 && j == 13 {
        assert(v[7].id.len() != v[13].id.len());
    }    else if i == 7 && j == 14 {
        assert(v[7].id[0] != v[14].id[0]);
    }    else if i == 8 && j == 9 {
        assert(v[8].id.len() != v[9].id.len());
    }    else if i == 8 && j == 10 {
        assert(v[8].id.len() != v[10].id.len());
    }    else if i == 8 && j == 11 {
        assert(v[8].id.len() != v[11].id.len());
    }    else if i == 8 && j == 12 {
        assert(v[8].id.len() != v[12].id.len());
    }    else if i == 8 && j == 13 {
        assert(v[8].id.len() != v[13].id.len());
    }    else if i == 8 && j == 14 {
        assert(v[8].id.len() != v[14].id.len());
    }    else if i == 9 && j == 10 {
        assert(v[9].id.len() != v[10].id.len());
    }    else if i == 9 && j == 11 {
        assert(v[9].id[0] != v[11].id[0]);
    }    else if i == 9 && j == 12 {
        assert(v[9].id.len() != v[12].id.len());
    }    else if i == 9 && j == 13 {
        assert(v[9].id.len() != v[13].id.len());
    }    else if i == 9 && j == 14 {
        assert(v[9].id[0] != v[14].id[0]);
    }    else if i == 10 && j == 11 {
        assert(v[10].id.len() != v[11].id.len());
    }    else if i == 10 && j == 12 {
        assert(v[10].id.len() != v[12].id.len());
    }    else if i == 10 && j == 13 {
        assert(v[10].id.len() != v[13].id.len());
    }    else if i == 10 && j == 14 {
        assert(v[10].id.len() != v[14].id.len());
    }    else if i == 11 && j == 12 {
        assert(v[11].id.len() != v[12].id.len());
    }    else if i == 11 && j == 13 {
        assert(v[11].id.len() != v[13].id.len());
    }    else if i == 11 && j == 14 {
        assert(v[11].id[0] != v[14].id[0]);
    }    else if i == 12 && j == 13 {
        assert(v[12].id.len() != v[13].id.len());
    }    else if i == 12 && j == 14 {
        assert(v[12].id.len() != v[14].id.len());
    }    else if i == 13 && j == 14 {
        assert(v[13].id.len() != v[14].id.len());
    }
}

/// Every parameter that exposes a CV port names a port of its entry, and
/// the first port with that name is an input.
pub proof fn lemma_catalog_cv_ports()
    ensures
        forall|i: int, k: int|
            0 <= i < catalog_view().len() && 0 <= k < catalog_view()[i].parameters.len()
                && (#[trigger] catalog_view()[i].parameters[k]).exposes_cv_port ==> cv_port_declared(
                catalog_view()[i],
                k,
            ),
{
    assert forall|i: int, k: int|
        0 <= i < catalog_view().len() && 0 <= k < catalog_view()[i].parameters.len()
            && (#[trigger] catalog_view()[i].parameters[k]).exposes_cv_port implies cv_port_declared(
        catalog_view()[i],
        k,
    ) by {
        lemma_catalog_cv_port(i, k);
    }
}

/// Parameter `k` of `e` names a CV port, and the first port with that name
/// is an input.
pub open spec fn cv_port_declared(e: EntryView, k: int) -> bool {
    let p = e.parameters[k];
    &&& p.cv_port_id is Some
    &&& exists|j: int| #[trigger]
        is_first_port(e.ports, p.cv_port_id->0, j) && e.ports[j].direction == PortDirection::Input
}

proof fn lemma_catalog_cv_port(i: int, k: int)
    requires
        0 <= i < catalog_view().len(),
        0 <= k < catalog_view()[i].parameters.len(),
        catalog_view()[i].parameters[k].exposes_cv_port,
    ensures
        cv_port_declared(catalog_view()[i], k),
{
    let v = catalog_view();
    reveal_strlit("audio_in");
    reveal_strlit("audio_out");
    reveal_strlit("cutoff_cv");
    reveal_strlit("cv_in");
    reveal_strlit("cv_out");
    reveal_strlit("delay_time_cv");
    reveal_strlit("depth_cv");
    reveal_strlit("drive_cv");
    reveal_strlit("env_out");
    reveal_strlit("feedback_cv");
    reveal_strlit("frequency_cv");
    reveal_strlit("gate");
    reveal_strlit("gate_out");
    reveal_strlit("level_cv");
    reveal_strlit("lfo_out");
    reveal_strlit("main_out");
    reveal_strlit("mix_cv");
    reveal_strlit("rate_cv");
    reveal_strlit("resonance_cv");
    reveal_strlit("room_cv");
    if i == 0 && k == 0 {
        assert(v[0].ports[0].id.len() != v[0].parameters[0].cv_port_id->0.len());
        assert(is_first_port(v[0].ports, v[0].parameters[0].cv_port_id->0, 1));
    }    else if i == 0 && k == 2 {
        assert(v[0].ports[0].id[0] != v[0].parameters[2].cv_port_id->0[0]);
        assert(v[0].ports[1].id.len() != v[0].parameters[2].cv_port_id->0.len());
        assert(is_first_port(v[0].ports, v[0].parameters[2].cv_port_id->0, 2));
    }    else if i == 1 && k == 1 {
        assert(v[1].ports[0].id[0] != v[1].parameters[1].cv_port_id->0[0]);
        assert(is_first_port(v[1].ports, v[1].parameters[1].cv_port_id->0, 1));
    }    else if i == 3 && k == 0 {
        assert(v[3].ports[0].id.len() != v[3].parameters[0].cv_port_id->0.len());
        assert(is_first_port(v[3].ports, v[3].parameters[0].cv_port_id->0, 1));
    }    else if i == 4 && k == 0 {
        assert(v[4].ports[0].id[0] != v[4].parameters[0].cv_port_id->0[0]);
        assert(v[4].ports[1].id.len() != v[4].parameters[0].cv_port_id->0.len());
        assert(is_first_port(v[4].ports, v[4].parameters[0].cv_port_id->0, 2));
    }    else if i == 6 && k == 0 {
        assert(v[6].ports[0].id.len() != v[6].parameters[0].cv_port_id->0.len());
        assert(is_first_port(v[6].ports, v[6].parameters[0].cv_port_id->0, 1));
    }    else if i == 7 && k == 0 {
        assert(v[7].ports[0].id.len() != v[7].parameters[0].cv_port_id->0.len());
        assert(v[7].ports[1].id[0] != v[7].parameters[0].cv_port_id->0[0]);
        assert(is_first_port(v[7].ports, v[7].parameters[0].cv_port_id->0, 2));
    }    else if i == 7 && k == 1 {
        assert(v[7].ports[0].id.len() != v[7].parameters[1].cv_port_id->0.len());
        assert(v[7].ports[1].id.len() != v[7].parameters[1].cv_port_id->0.len());
        assert(v[7].ports[2].id.len() != v[7].parameters[1].cv_port_id->0.len());
        assert(is_first_port(v[7].ports, v[7].parameters[1].cv_port_id->0, 3));
    }    else if i == 8 && k == 0 {
        assert(v[8].ports[0].id.len() != v[8].parameters[0].cv_port_id->0.len());
        assert(v[8].ports[1].id.len() != v[8].parameters[0].cv_port_id->0.len());
        assert(is_first_port(v[8].ports, v[8].parameters[0].cv_port_id->0, 2));
    }    else if i == 8 && k == 1 {
        assert(v[8].ports[0].id.len() != v[8].parameters[1].cv_port_id->0.len());
        assert(v[8].ports[1].id.len() != v[8].parameters[1].cv_port_id->0.len());
        assert(v[8].ports[2].id.len() != v[8].parameters[1].cv_port_id->0.len());
        assert(is_first_port(v[8].ports, v[8].parameters[1].cv_port_id->0, 3));
    }    else if i == 9 && k == 0 {
        assert(v[9].ports[0].id.len() != v[9].parameters[0].cv_port_id->0.len());
        assert(v[9].ports[1].id.len() != v[9].parameters[0].cv_port_id->0.len());
        assert(is_first_port(v[9].ports, v[9].parameters[0].cv_port_id->0, 2));
    }    else if i == 9 && k == 2 {
        assert(v[9].ports[0].id.len() != v[9].parameters[2].cv_port_id->0.len());
        assert(v[9].ports[1].id.len() != v[9].parameters[2].cv_port_id->0.len());
        assert(v[9].ports[2].id.len() != v[9].parameters[2].cv_port_id->0.len());
        assert(is_first_port(v[9].ports, v[9].parameters[2].cv_port_id->0, 3));
    }    else if i == 10 && k == 0 {
        assert(v[10].ports[0].id[0] != v[10].parameters[0].cv_port_id->0[0]);
        assert(v[10].ports[1].id.len() != v[10].parameters[0].cv_port_id->0.len());
        assert(is_first_port(v[10].ports, v[10].parameters[0].cv_port_id->0, 2));
    }    else if i == 10 && k == 1 {
        assert(v[10].ports[0].id.len() != v[10].parameters[1].cv_port_id->0.len());
        assert(v[10].ports[1].id.len() != v[10].parameters[1].cv_port_id->0.len());
        assert(v[10].ports[2].id.len() != v[10].parameters[1].cv_port_id->0.len());
        assert(is_first_port(v[10].ports, v[10].parameters[1].cv_port_id->0, 3));
    }    else if i == 11 && k == 0 {
        assert(v[11].ports[0].id[0] != v[11].parameters[0].cv_port_id->0[0]);
        assert(v[11].ports[1].id.len() != v[11].parameters[0].cv_port_id->0.len());
        assert(is_first_port(v[11].ports, v[11].parameters[0].cv_port_id->0, 2));
    }    else if i == 11 && k == 1 {
        assert(v[11].ports[0].id.len() != v[11].parameters[1].cv_port_id->0.len());
        assert(v[11].ports[1].id.len() != v[11].parameters[1].cv_port_id->0.len());
        assert(v[11].ports[2].id.len() != v[11].parameters[1].cv_port_id->0.len());
        assert(is_first_port(v[11].ports, v[11].parameters[1].cv_port_id->0, 3));
    }    else if i == 12 && k == 0 {
        assert(v[12].ports[0].id[0] != v[12].parameters[0].cv_port_id->0[0]);
        assert(v[12].ports[1].id.len() != v[12].parameters[0].cv_port_id->0.len());
        assert(is_first_port(v[12].ports, v[12].parameters[0].cv_port_id->0, 2));
    }    else if i == 12 && k == 1 {
        assert(v[12].ports[0].id.len() != v[12].parameters[1].cv_port_id->0.len());
        assert(v[12].ports[1].id.len() != v[12].parameters[1].cv_port_id->0.len());
        assert(v[12].ports[2].id.len() != v[12].parameters[1].cv_port_id->0.len());
        assert(is_first_port(v[12].ports, v[12].parameters[1].cv_port_id->0, 3));
    }    else if i == 12 && k == 2 {
        assert(v[12].ports[0].id.len() != v[12].parameters[2].cv_port_id->0.len());
        assert(v[12].ports[1].id.len() != v[12].parameters[2].cv_port_id->0.len());
        assert(v[12].ports[2].id.len() != v[12].parameters[2].cv_port_id->0.len());
        assert(v[12].ports[3].id.len() != v[12].parameters[2].cv_port_id->0.len());
        assert(is_first_port(v[12].ports, v[12].parameters[2].cv_port_id->0, 4));
    }    else if i == 14 && k == 0 {
        assert(v[14].ports[0].id[0] != v[14].parameters[0].cv_port_id->0[0]);
        assert(is_first_port(v[14].ports, v[14].parameters[0].cv_port_id->0, 1));
    } else {
        assert(!v[i].parameters[k].exposes_cv_port);
    }
}


/// Within each catalog entry no two parameters share an id, so looking a
/// parameter up by id (as a CV port's parameter is) finds the only one.
pub proof fn lemma_catalog_parameter_ids_unique()
    ensures
        forall|i: int, a: int, b: int|
            0 <= i < catalog_view().len() && 0 <= a < b < catalog_view()[i].parameters.len() ==> (
            #[trigger] catalog_view()[i].parameters[a]).id != (#[trigger] catalog_view()[i].parameters[b]).id,
{
    assert forall|i: int, a: int, b: int|
        0 <= i < catalog_view().len() && 0 <= a < b < catalog_view()[i].parameters.len() implies (
        #[trigger] catalog_view()[i].parameters[a]).id != (#[trigger] catalog_view()[i].parameters[b]).id by {
        lemma_catalog_parameter_pair(i, a, b);
    }
}

#[verifier::rlimit(100)]
proof fn lemma_catalog_parameter_pair(i: int, a: int, b: int)
    requires
        0 <= i < catalog_view().len(),
        0 <= a < b < catalog_view()[i].parameters.len(),
    ensures
        catalog_view()[i].parameters[a].id != catalog_view()[i].parameters[b].id,
{
    let v = catalog_view();
    reveal_strlit("attack");
    reveal_strlit("bypassed");
    reveal_strlit("cutoff");
    reveal_strlit("damp");
    reveal_strlit("decay");
    reveal_strlit("delay_time");
    reveal_strlit("depth");
    reveal_strlit("drive");
    reveal_strlit("feedback");
    reveal_strlit("filter_mode");
    reveal_strlit("frequency");
    reveal_strlit("level");
    reveal_strlit("mix");
    reveal_strlit("noise_color");
    reveal_strlit("rate");
    reveal_strlit("release");
    reveal_strlit("resonance");
    reveal_strlit("room");
    reveal_strlit("steps");
    reveal_strlit("sustain");
    reveal_strlit("wave_shape");
    if i == 0 {
        if a == 0 && b == 1 {
            assert(v[0].parameters[0].id.len() != v[0].parameters[1].id.len());
        } else if a == 0 && b == 2 {
            assert(v[0].parameters[0].id.len() != v[0].parameters[2].id.len());
        } else if a == 1 && b == 2 {
            assert(v[0].parameters[1].id.len() != v[0].parameters[2].id.len());
        }
    } else if i == 1 {
        if a == 0 && b == 1 {
            assert(v[1].parameters[0].id.len() != v[1].parameters[1].id.len());
        }
    } else if i == 2 {
        if a == 0 && b == 1 {
            assert(v[2].parameters[0].id.len() != v[2].parameters[1].id.len());
        } else if a == 0 && b == 2 {
            assert(v[2].parameters[0].id.len() != v[2].parameters[2].id.len());
        } else if a == 0 && b == 3 {
            assert(v[2].parameters[0].id.len() != v[2].parameters[3].id.len());
        } else if a == 1 && b == 2 {
            assert(v[2].parameters[1].id.len() != v[2].parameters[2].id.len());
        } else if a == 1 && b == 3 {
            assert(v[2].parameters[1].id.len() != v[2].parameters[3].id.len());
        } else if a == 2 && b == 3 {
            assert(v[2].parameters[2].id[0] != v[2].parameters[3].id[0]);
        }
    } else if i == 3 {
        if a == 0 && b == 1 {
            assert(v[3].parameters[0].id.len() != v[3].parameters[1].id.len());
        } else if a == 0 && b == 2 {
            assert(v[3].parameters[0].id.len() != v[3].parameters[2].id.len());
        } else if a == 1 && b == 2 {
            assert(v[3].parameters[1].id.len() != v[3].parameters[2].id.len());
        }
    } else if i == 6 {
        if a == 0 && b == 1 {
            assert(v[6].parameters[0].id.len() != v[6].parameters[1].id.len());
        }
    } else if i == 7 {
        if a == 0 && b == 1 {
            assert(v[7].parameters[0].id.len() != v[7].parameters[1].id.len());
        } else if a == 0 && b == 2 {
            assert(v[7].parameters[0].id.len() != v[7].parameters[2].id.len());
        } else if a == 0 && b == 3 {
            assert(v[7].parameters[0].id.len() != v[7].parameters[3].id.len());
        } else if a == 0 && b == 4 {
            assert(v[7].parameters[0].id.len() != v[7].parameters[4].id.len());
        } else if a == 1 && b == 2 {
            assert(v[7].parameters[1].id.len() != v[7].parameters[2].id.len());
        } else if a == 1 && b == 3 {
            assert(v[7].parameters[1].id.len() != v[7].parameters[3].id.len());
        } else if a == 1 && b == 4 {
            assert(v[7].parameters[1].id.len() != v[7].parameters[4].id.len());
        } else if a == 2 && b == 3 {
            assert(v[7].parameters[2].id.len() != v[7].parameters[3].id.len());
        } else if a == 2 && b == 4 {
            assert(v[7].parameters[2].id.len() != v[7].parameters[4].id.len());
        } else if a == 3 && b == 4 {
            assert(v[7].parameters[3].id.len() != v[7].parameters[4].id.len());
        }
    } else if i == 8 {
        if a == 0 && b == 1 {
            assert(v[8].parameters[0].id.len() != v[8].parameters[1].id.len());
        } else if a == 0 && b == 2 {
            assert(v[8].parameters[0].id.len() != v[8].parameters[2].id.len());
        } else if a == 0 && b == 3 {
            assert(v[8].parameters[0].id.len() != v[8].parameters[3].id.len());
        } else if a == 1 && b == 2 {
            assert(v[8].parameters[1].id.len() != v[8].parameters[2].id.len());
        } else if a == 1 && b == 3 {
            assert(v[8].parameters[1].id[0] != v[8].parameters[3].id[0]);
        } else if a == 2 && b == 3 {
            assert(v[8].parameters[2].id.len() != v[8].parameters[3].id.len());
        }
    } else if i == 9 {
        if a == 0 && b == 1 {
            assert(v[9].parameters[0].id[0] != v[9].parameters[1].id[0]);
        } else if a == 0 && b == 2 {
            assert(v[9].parameters[0].id.len() != v[9].parameters[2].id.len());
        } else if a == 0 && b == 3 {
            assert(v[9].parameters[0].id.len() != v[9].parameters[3].id.len());
        } else if a == 1 && b == 2 {
            assert(v[9].parameters[1].id.len() != v[9].parameters[2].id.len());
        } else if a == 1 && b == 3 {
            assert(v[9].parameters[1].id.len() != v[9].parameters[3].id.len());
        } else if a == 2 && b == 3 {
            assert(v[9].parameters[2].id.len() != v[9].parameters[3].id.len());
        }
    } else if i == 10 {
        if a == 0 && b == 1 {
            assert(v[10].parameters[0].id.len() != v[10].parameters[1].id.len());
        } else if a == 0 && b == 2 {
            assert(v[10].parameters[0].id.len() != v[10].parameters[2].id.len());
        } else if a == 1 && b == 2 {
            assert(v[10].parameters[1].id.len() != v[10].parameters[2].id.len());
        }
    } else if i == 11 {
        if a == 0 && b == 1 {
            assert(v[11].parameters[0].id.len() != v[11].parameters[1].id.len());
        } else if a == 0 && b == 2 {
            assert(v[11].parameters[0].id.len() != v[11].parameters[2].id.len());
        } else if a == 0 && b == 3 {
            assert(v[11].parameters[0].id.len() != v[11].parameters[3].id.len());
        } else if a == 1 && b == 2 {
            assert(v[11].parameters[1].id.len() != v[11].parameters[2].id.len());
        } else if a == 1 && b == 3 {
            assert(v[11].parameters[1].id.len() != v[11].parameters[3].id.len());
        } else if a == 2 && b == 3 {
            assert(v[11].parameters[2].id.len() != v[11].parameters[3].id.len());
        }
    } else if i == 12 {
        if a == 0 && b == 1 {
            assert(v[12].parameters[0].id.len() != v[12].parameters[1].id.len());
        } else if a == 0 && b == 2 {
            assert(v[12].parameters[0].id.len() != v[12].parameters[2].id.len());
        } else if a == 0 && b == 3 {
            assert(v[12].parameters[0].id.len() != v[12].parameters[3].id.len());
        } else if a == 0 && b == 4 {
            assert(v[12].parameters[0].id.len() != v[12].parameters[4].id.len());
        } else if a == 1 && b == 2 {
            assert(v[12].parameters[1].id.len() != v[12].parameters[2].id.len());
        } else if a == 1 && b == 3 {
            assert(v[12].parameters[1].id.len() != v[12].parameters[3].id.len());
        } else if a == 1 && b == 4 {
            assert(v[12].parameters[1].id.len() != v[12].parameters[4].id.len());
        } else if a == 2 && b == 3 {
            assert(v[12].parameters[2].id.len() != v[12].parameters[3].id.len());
        } else if a == 2 && b == 4 {
            assert(v[12].parameters[2].id[0] != v[12].parameters[4].id[0]);
        } else if a == 3 && b == 4 {
            assert(v[12].parameters[3].id.len() != v[12].parameters[4].id.len());
        }
    }
}

} // verus!
