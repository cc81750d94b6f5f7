//! Planning SuperCollider resources for a compiled topology: bus and group
//! indices, one synth per launched node with its arguments, control bindings
//! for live parameter changes, control buses for modulation, and a patch id
//! fingerprinting the topology.
use vstd::prelude::*;
use crate::compiler::{has_first_entry, 
    CompiledBus, CompiledCvRoute, CompiledGroup, CompiledNodeLaunch, CompiledParameter,
    CompiledTopology,
};
use crate::catalog::{find_catalog_entry, catalog, catalog_view, is_first_entry, is_first_named, EntryView, NodeCatalogEntry, NodeCategory};
use crate::domain::{AudioBusType, OutputKind, PortDirection, SignalType};
use crate::lookup::{find_by_id, find_id, first_id, has_id, HasId};
use crate::ordering::{lemma_seq_le_antisymmetric, lemma_seq_le_total, lemma_seq_le_transitive, seq_le, seq_lt, str_le};
use crate::text::{decimal_string, push_char, spec_decimal};

verus! {

/// First audio bus index handed out to session buses (0 and 1 are the
/// hardware outputs).
pub const HARDWARE_AUDIO_BUS_OFFSET: u32 = 2;
/// Control buses live in a separate high range so they never collide with
/// audio bus indices.
pub const FIRST_CONTROL_BUS_OFFSET: u32 = 1024;
pub const FIRST_GROUP_ID: i32 = 1000;
pub const FIRST_SYNTH_ID: i32 = 2000;

/// Why a topology cannot be planned as SuperCollider resources.
#[derive(Debug, PartialEq)]
pub enum ScResourcePlanError {
    DuplicateBus { bus_id: String },
    InvalidBusChannels { bus_id: String },
    DuplicateGroup { group_id: String },
    UnknownGroup { node_id: String, group_id: String },
    UnknownOutputBus { node_id: String, bus_id: String },
    UnknownInputBus { node_id: String, bus_id: String },
    MissingOutputBus { node_id: String },
    MissingInputBus { node_id: String },
    TooManyMixerInputs { node_id: String, input_count: usize },
    UnknownCatalogEntry { node_type_id: String },
    UnsupportedParameter { node_id: String, parameter_id: String, parameter_name: String },
}

// ---------------------------------------------------------------------------
// Topology fingerprint (64-bit FNV-1a)
// ---------------------------------------------------------------------------

pub const FNV_OFFSET_BASIS: u64 = 0xcbf29ce484222325u64;
pub const FNV_PRIME: u64 = 0x00000100000001b3u64;

/// FNV-1a over `bytes`, starting from `h`.
pub open spec fn fnv(h: u64, bytes: Seq<u8>) -> u64
    decreases bytes.len(),
{
    if bytes.len() == 0 {
        h
    } else {
        (fnv(h, bytes.drop_last()) ^ (bytes.last() as u64)).wrapping_mul(FNV_PRIME)
    }
}

proof fn lemma_fnv_append(h: u64, a: Seq<u8>, b: Seq<u8>)
    ensures
        fnv(fnv(h, a), b) == fnv(h, a + b),
    decreases b.len(),
{
    if b.len() == 0 {
        assert(a + b =~= a);
    } else {
        lemma_fnv_append(h, a, b.drop_last());
        assert((a + b).drop_last() =~= a + b.drop_last());
        assert((a + b).last() == b.last());
    }
}

fn hash_bytes(hash: &mut u64, bytes: &[u8])
    ensures
        *final(hash) == fnv(*old(hash), bytes@),
{
    let ghost h0 = *hash;
    let mut i: usize = 0;
    while i < bytes.len()
        invariant
            i <= bytes@.len(),
            *hash == fnv(h0, bytes@.take(i as int)),
        decreases bytes.len() - i,
    {
        assert(bytes@.take(i as int + 1).drop_last() =~= bytes@.take(i as int));
        let b = bytes[i];
        *hash = (*hash ^ (b as u64)).wrapping_mul(FNV_PRIME);
        i = i + 1;
    }
    assert(bytes@.take(i as int) =~= bytes@);
}

/// The `n` low bytes of `v`, least significant first.
pub open spec fn le_bytes(v: nat, n: nat) -> Seq<u8>
    decreases n,
{
    if n == 0 {
        Seq::empty()
    } else {
        seq![(v % 256) as u8] + le_bytes(v / 256, (n - 1) as nat)
    }
}

fn to_le(v: u64, n: usize) -> (r: Vec<u8>)
    ensures
        r@ == le_bytes(v as nat, n as nat),
{
    let mut out: Vec<u8> = Vec::new();
    let mut x: u64 = v;
    let mut i: usize = 0;
    while i < n
        invariant
            i <= n,
            out@ + le_bytes(x as nat, (n - i) as nat) == le_bytes(v as nat, n as nat),
        decreases n - i,
    {
        let ghost before = out@;
        out.push((x % 256) as u8);
        assert(out@ + le_bytes((x / 256) as nat, (n - i - 1) as nat) =~= before + le_bytes(x as nat, (n - i) as nat));
        x = x / 256;
        i = i + 1;
    }
    assert(out@ + le_bytes(x as nat, 0) =~= out@);
    out
}

/// A string as hashed: its UTF-8 length as 8 little-endian bytes, then
/// its UTF-8 bytes.
pub open spec fn str_record(s: Seq<char>) -> Seq<u8> {
    le_bytes(vstd::utf8::encode_utf8(s).len(), 8) + vstd::utf8::encode_utf8(s)
}

fn hash_str(hash: &mut u64, value: &str)
    ensures
        *final(hash) == fnv(*old(hash), str_record(value@)),
{
    let bytes = value.as_bytes();
    let len = to_le(bytes.len() as u64, 8);
    let ghost h0 = *hash;
    hash_bytes(hash, len.as_slice());
    hash_bytes(hash, bytes);
    proof {
        lemma_fnv_append(h0, len@, bytes@);
    }
}

fn hash_u32(hash: &mut u64, value: u32)
    ensures
        *final(hash) == fnv(*old(hash), le_bytes(value as nat, 4)),
{
    let bytes = to_le(value as u64, 4);
    hash_bytes(hash, bytes.as_slice());
}

fn hash_u64(hash: &mut u64, value: u64)
    ensures
        *final(hash) == fnv(*old(hash), le_bytes(value as nat, 8)),
{
    let bytes = to_le(value, 8);
    hash_bytes(hash, bytes.as_slice());
}

/// How `Debug` spells a bus type.
pub open spec fn bus_type_debug(t: AudioBusType) -> Seq<char> {
    match t {
        AudioBusType::Main => "Main"@,
        AudioBusType::Cue => "Cue"@,
        AudioBusType::Auxiliary => "Auxiliary"@,
    }
}

fn bus_type_text(t: AudioBusType) -> (r: &'static str)
    ensures
        r@ == bus_type_debug(t),
{
    match t {
        AudioBusType::Main => "Main",
        AudioBusType::Cue => "Cue",
        AudioBusType::Auxiliary => "Auxiliary",
    }
}

/// How `Debug` spells an optional output kind.
pub open spec fn output_kind_debug(k: Option<OutputKind>) -> Seq<char> {
    match k {
        Some(OutputKind::Main) => "Some(Main)"@,
        Some(OutputKind::Cue) => "Some(Cue)"@,
        None => "None"@,
    }
}

fn output_kind_text(k: Option<OutputKind>) -> (r: &'static str)
    ensures
        r@ == output_kind_debug(k),
{
    match k {
        Some(OutputKind::Main) => "Some(Main)",
        Some(OutputKind::Cue) => "Some(Cue)",
        None => "None",
    }
}

/// How `Debug` spells a signal type.
pub open spec fn signal_type_debug(t: SignalType) -> Seq<char> {
    match t {
        SignalType::Audio => "Audio"@,
        SignalType::Control => "Control"@,
    }
}

fn signal_type_text(t: SignalType) -> (r: &'static str)
    ensures
        r@ == signal_type_debug(t),
{
    match t {
        SignalType::Audio => "Audio",
        SignalType::Control => "Control",
    }
}

/// The bytes hashed for one bus.
pub open spec fn bus_record(b: CompiledBus) -> Seq<u8> {
    str_record(b.bus_id@) + le_bytes(b.index as nat, 4) + le_bytes(b.channels as nat, 4) + str_record(
        bus_type_debug(b.bus_type),
    )
}

/// The records of a list of strings, in order.
pub open spec fn strs_record(s: Seq<String>) -> Seq<u8>
    decreases s.len(),
{
    if s.len() == 0 {
        Seq::empty()
    } else {
        strs_record(s.drop_last()) + str_record(s.last()@)
    }
}

/// The bytes hashed for one group.
pub open spec fn group_record(g: CompiledGroup) -> Seq<u8> {
    str_record(g.group_id@) + strs_record(g.node_ids@)
}

/// The bytes hashed for one parameter.
pub open spec fn param_record(p: CompiledParameter) -> Seq<u8> {
    str_record(p.parameter_id@) + str_record(p.name@) + le_bytes(p.value as nat, 8)
}

pub open spec fn params_record(s: Seq<CompiledParameter>) -> Seq<u8>
    decreases s.len(),
{
    if s.len() == 0 {
        Seq::empty()
    } else {
        params_record(s.drop_last()) + param_record(s.last())
    }
}

/// The bytes hashed for one node launch.
pub open spec fn node_record(n: CompiledNodeLaunch) -> Seq<u8> {
    str_record(n.node_id@) + str_record(n.node_type_id@) + str_record(n.runtime_target@) + str_record(
        n.group_id@,
    ) + strs_record(n.input_bus_ids@) + match n.output_bus_id {
        Some(b) => str_record(b@),
        None => Seq::empty(),
    } + le_bytes(if n.bypassed {
        1nat
    } else {
        0nat
    }, 1) + str_record(output_kind_debug(n.output_kind)) + le_bytes(n.channel_count as nat, 4)
        + params_record(n.parameters@)
}

/// The bytes hashed for one modulation route.
pub open spec fn cv_record(r: CompiledCvRoute) -> Seq<u8> {
    str_record(r.route_id@) + str_record(r.source_node_id@) + str_record(r.source_port_id@) + str_record(
        r.target_node_id@,
    ) + str_record(r.target_port_id@) + str_record(signal_type_debug(r.signal_type))
}

pub open spec fn buses_record(s: Seq<CompiledBus>) -> Seq<u8>
    decreases s.len(),
{
    if s.len() == 0 {
        Seq::empty()
    } else {
        buses_record(s.drop_last()) + bus_record(s.last())
    }
}

pub open spec fn groups_record(s: Seq<CompiledGroup>) -> Seq<u8>
    decreases s.len(),
{
    if s.len() == 0 {
        Seq::empty()
    } else {
        groups_record(s.drop_last()) + group_record(s.last())
    }
}

pub open spec fn nodes_record(s: Seq<CompiledNodeLaunch>) -> Seq<u8>
    decreases s.len(),
{
    if s.len() == 0 {
        Seq::empty()
    } else {
        nodes_record(s.drop_last()) + node_record(s.last())
    }
}

pub open spec fn cvs_record(s: Seq<CompiledCvRoute>) -> Seq<u8>
    decreases s.len(),
{
    if s.len() == 0 {
        Seq::empty()
    } else {
        cvs_record(s.drop_last()) + cv_record(s.last())
    }
}

/// Everything the fingerprint hashes, in order: each section's name and
/// then its records.
pub open spec fn topology_bytes(t: CompiledTopology) -> Seq<u8> {
    vstd::utf8::encode_utf8("buses"@) + buses_record(t.buses@) + vstd::utf8::encode_utf8("groups"@)
        + groups_record(t.group_order@) + vstd::utf8::encode_utf8("nodes"@) + nodes_record(
        t.node_launch_order@,
    ) + vstd::utf8::encode_utf8("cv_routes"@) + cvs_record(t.cv_routes@)
}

fn hash_strs(hash: &mut u64, s: &Vec<String>)
    ensures
        *final(hash) == fnv(*old(hash), strs_record(s@)),
{
    let ghost h0 = *hash;
    let mut i: usize = 0;
    while i < s.len()
        invariant
            i <= s@.len(),
            *hash == fnv(h0, strs_record(s@.take(i as int))),
        decreases s.len() - i,
    {
        assert(s@.take(i as int + 1).drop_last() =~= s@.take(i as int));
        let ghost h1 = *hash;
        hash_str(hash, s[i].as_str());
        proof {
            lemma_fnv_append(h0, strs_record(s@.take(i as int)), str_record(s@[i as int]@));
        }
        i = i + 1;
    }
    assert(s@.take(i as int) =~= s@);
}

fn hash_node(hash: &mut u64, n: &CompiledNodeLaunch)
    ensures
        *final(hash) == fnv(*old(hash), node_record(*n)),
{
    let ghost h0 = *hash;
    hash_str(hash, n.node_id.as_str());
    hash_str(hash, n.node_type_id.as_str());
    hash_str(hash, n.runtime_target.as_str());
    hash_str(hash, n.group_id.as_str());
    hash_strs(hash, &n.input_bus_ids);
    let ghost h5 = *hash;
    let ghost out_rec: Seq<u8> = match &n.output_bus_id {
        Some(b) => str_record(b@),
        None => Seq::empty(),
    };
    if let Some(b) = &n.output_bus_id {
        hash_str(hash, b.as_str());
    }
    assert(*hash == fnv(h5, out_rec));
    let bypass: u64 = if n.bypassed {
        1
    } else {
        0
    };
    let bb = to_le(bypass, 1);
    hash_bytes(hash, bb.as_slice());
    hash_str(hash, output_kind_text(n.output_kind));
    hash_u32(hash, n.channel_count);
    let ghost h9 = *hash;
    let mut i: usize = 0;
    while i < n.parameters.len()
        invariant
            i <= n.parameters@.len(),
            *hash == fnv(h9, params_record(n.parameters@.take(i as int))),
        decreases n.parameters.len() - i,
    {
        assert(n.parameters@.take(i as int + 1).drop_last() =~= n.parameters@.take(i as int));
        let p = &n.parameters[i];
        let ghost hp = *hash;
        hash_str(hash, p.parameter_id.as_str());
        hash_str(hash, p.name.as_str());
        hash_u64(hash, p.value);
        proof {
            lemma_fnv_append(hp, str_record(p.parameter_id@), str_record(p.name@));
            lemma_fnv_append(hp, str_record(p.parameter_id@) + str_record(p.name@), le_bytes(p.value as nat, 8));
            lemma_fnv_append(h9, params_record(n.parameters@.take(i as int)), param_record(*p));
        }
        i = i + 1;
    }
    assert(n.parameters@.take(i as int) =~= n.parameters@);
    proof {
        let r1 = str_record(n.node_id@);
        let r2 = str_record(n.node_type_id@);
        let r3 = str_record(n.runtime_target@);
        let r4 = str_record(n.group_id@);
        let r5 = strs_record(n.input_bus_ids@);
        let r7 = le_bytes(if n.bypassed { 1nat } else { 0nat }, 1);
        let r8 = str_record(output_kind_debug(n.output_kind));
        let r9 = le_bytes(n.channel_count as nat, 4);
        let r10 = params_record(n.parameters@);
        lemma_fnv_append(h0, r1, r2);
        lemma_fnv_append(h0, r1 + r2, r3);
        lemma_fnv_append(h0, r1 + r2 + r3, r4);
        lemma_fnv_append(h0, r1 + r2 + r3 + r4, r5);
        lemma_fnv_append(h0, r1 + r2 + r3 + r4 + r5, out_rec);
        lemma_fnv_append(h0, r1 + r2 + r3 + r4 + r5 + out_rec, r7);
        lemma_fnv_append(h0, r1 + r2 + r3 + r4 + r5 + out_rec + r7, r8);
        lemma_fnv_append(h0, r1 + r2 + r3 + r4 + r5 + out_rec + r7 + r8, r9);
        lemma_fnv_append(h0, r1 + r2 + r3 + r4 + r5 + out_rec + r7 + r8 + r9, r10);
    }
}

/// The hash as 16 lowercase hexadecimal digits, most significant first.
pub open spec fn hex_digits(v: nat, n: nat) -> Seq<char>
    decreases n,
{
    if n == 0 {
        Seq::empty()
    } else {
        hex_digits(v / 16, (n - 1) as nat).push(hex_char(v % 16))
    }
}

pub open spec fn hex_char(d: nat) -> char {
    if d < 10 {
        (48 + d) as char
    } else {
        (87 + d) as char
    }
}

fn hex_digit(d: u64) -> (c: char)
    requires
        d < 16,
    ensures
        c == hex_char(d as nat),
{
    if d < 10 {
        ((48 + d) as u8) as char
    } else {
        ((87 + d) as u8) as char
    }
}

/// The fingerprint of a topology: 16 hex digits of the FNV-1a hash of its
/// serialised contents.
pub fn topology_fingerprint(t: &CompiledTopology) -> (r: String)
    ensures
        r@ == hex_digits(fnv(FNV_OFFSET_BASIS, topology_bytes(*t)) as nat, 16),
{
    let mut hash: u64 = FNV_OFFSET_BASIS;
    hash_bytes(&mut hash, "buses".as_bytes());
    let ghost a0 = vstd::utf8::encode_utf8("buses"@);
    let mut i: usize = 0;
    while i < t.buses.len()
        invariant
            i <= t.buses@.len(),
            hash == fnv(FNV_OFFSET_BASIS, a0 + buses_record(t.buses@.take(i as int))),
        decreases t.buses.len() - i,
    {
        assert(t.buses@.take(i as int + 1).drop_last() =~= t.buses@.take(i as int));
        let b = &t.buses[i];
        let ghost h = hash;
        hash_str(&mut hash, b.bus_id.as_str());
        hash_u32(&mut hash, b.index);
        hash_u32(&mut hash, b.channels);
        hash_str(&mut hash, bus_type_text(b.bus_type));
        proof {
            let r1 = str_record(b.bus_id@);
            let r2 = le_bytes(b.index as nat, 4);
            let r3 = le_bytes(b.channels as nat, 4);
            let r4 = str_record(bus_type_debug(b.bus_type));
            lemma_fnv_append(h, r1, r2);
            lemma_fnv_append(h, r1 + r2, r3);
            lemma_fnv_append(h, r1 + r2 + r3, r4);
            lemma_fnv_append(FNV_OFFSET_BASIS, a0 + buses_record(t.buses@.take(i as int)), bus_record(*b));
            assert(a0 + buses_record(t.buses@.take(i as int)) + bus_record(*b) =~= a0 + buses_record(
                t.buses@.take(i as int + 1),
            ));
        }
        i = i + 1;
    }
    assert(t.buses@.take(i as int) =~= t.buses@);
    let ghost a1 = a0 + buses_record(t.buses@);
    let ghost h1 = hash;
    hash_bytes(&mut hash, "groups".as_bytes());
    proof {
        lemma_fnv_append(FNV_OFFSET_BASIS, a1, vstd::utf8::encode_utf8("groups"@));
    }
    let ghost a2 = a1 + vstd::utf8::encode_utf8("groups"@);
    let mut i: usize = 0;
    while i < t.group_order.len()
        invariant
            i <= t.group_order@.len(),
            hash == fnv(FNV_OFFSET_BASIS, a2 + groups_record(t.group_order@.take(i as int))),
        decreases t.group_order.len() - i,
    {
        assert(t.group_order@.take(i as int + 1).drop_last() =~= t.group_order@.take(i as int));
        let g = &t.group_order[i];
        let ghost h = hash;
        hash_str(&mut hash, g.group_id.as_str());
        hash_strs(&mut hash, &g.node_ids);
        proof {
            lemma_fnv_append(h, str_record(g.group_id@), strs_record(g.node_ids@));
            lemma_fnv_append(FNV_OFFSET_BASIS, a2 + groups_record(t.group_order@.take(i as int)), group_record(*g));
            assert(a2 + groups_record(t.group_order@.take(i as int)) + group_record(*g) =~= a2 + groups_record(
                t.group_order@.take(i as int + 1),
            ));
        }
        i = i + 1;
    }
    assert(t.group_order@.take(i as int) =~= t.group_order@);
    let ghost a3 = a2 + groups_record(t.group_order@);
    hash_bytes(&mut hash, "nodes".as_bytes());
    proof {
        lemma_fnv_append(FNV_OFFSET_BASIS, a3, vstd::utf8::encode_utf8("nodes"@));
    }
    let ghost a4 = a3 + vstd::utf8::encode_utf8("nodes"@);
    let mut i: usize = 0;
    while i < t.node_launch_order.len()
        invariant
            i <= t.node_launch_order@.len(),
            hash == fnv(FNV_OFFSET_BASIS, a4 + nodes_record(t.node_launch_order@.take(i as int))),
        decreases t.node_launch_order.len() - i,
    {
        assert(t.node_launch_order@.take(i as int + 1).drop_last() =~= t.node_launch_order@.take(i as int));
        let n = &t.node_launch_order[i];
        hash_node(&mut hash, n);
        proof {
            lemma_fnv_append(FNV_OFFSET_BASIS, a4 + nodes_record(t.node_launch_order@.take(i as int)), node_record(*n));
            assert(a4 + nodes_record(t.node_launch_order@.take(i as int)) + node_record(*n) =~= a4
                + nodes_record(t.node_launch_order@.take(i as int + 1)));
        }
        i = i + 1;
    }
    assert(t.node_launch_order@.take(i as int) =~= t.node_launch_order@);
    let ghost a5 = a4 + nodes_record(t.node_launch_order@);
    hash_bytes(&mut hash, "cv_routes".as_bytes());
    proof {
        lemma_fnv_append(FNV_OFFSET_BASIS, a5, vstd::utf8::encode_utf8("cv_routes"@));
    }
    let ghost a6 = a5 + vstd::utf8::encode_utf8("cv_routes"@);
    let mut i: usize = 0;
    while i < t.cv_routes.len()
        invariant
            i <= t.cv_routes@.len(),
            hash == fnv(FNV_OFFSET_BASIS, a6 + cvs_record(t.cv_routes@.take(i as int))),
        decreases t.cv_routes.len() - i,
    {
        assert(t.cv_routes@.take(i as int + 1).drop_last() =~= t.cv_routes@.take(i as int));
        let r = &t.cv_routes[i];
        let ghost h = hash;
        hash_str(&mut hash, r.route_id.as_str());
        hash_str(&mut hash, r.source_node_id.as_str());
        hash_str(&mut hash, r.source_port_id.as_str());
        hash_str(&mut hash, r.target_node_id.as_str());
        hash_str(&mut hash, r.target_port_id.as_str());
        hash_str(&mut hash, signal_type_text(r.signal_type));
        proof {
            let r1 = str_record(r.route_id@);
            let r2 = str_record(r.source_node_id@);
            let r3 = str_record(r.source_port_id@);
            let r4 = str_record(r.target_node_id@);
            let r5 = str_record(r.target_port_id@);
            let r6 = str_record(signal_type_debug(r.signal_type));
            lemma_fnv_append(h, r1, r2);
            lemma_fnv_append(h, r1 + r2, r3);
            lemma_fnv_append(h, r1 + r2 + r3, r4);
            lemma_fnv_append(h, r1 + r2 + r3 + r4, r5);
            lemma_fnv_append(h, r1 + r2 + r3 + r4 + r5, r6);
            lemma_fnv_append(FNV_OFFSET_BASIS, a6 + cvs_record(t.cv_routes@.take(i as int)), cv_record(*r));
            assert(a6 + cvs_record(t.cv_routes@.take(i as int)) + cv_record(*r) =~= a6 + cvs_record(
                t.cv_routes@.take(i as int + 1),
            ));
        }
        i = i + 1;
    }
    assert(t.cv_routes@.take(i as int) =~= t.cv_routes@);
    assert(a6 + cvs_record(t.cv_routes@) =~= topology_bytes(*t));
    let mut digits: Vec<char> = Vec::new();
    let mut x: u64 = hash;
    let mut k: usize = 0;
    while k < 16
        invariant
            k <= 16,
            hex_digits(hash as nat, 16) == hex_digits(x as nat, (16 - k) as nat) + digits@,
        decreases 16 - k,
    {
        let c = hex_digit(x % 16);
        let ghost before = digits@;
        digits.insert(0, c);
        assert(hex_digits(x as nat, (16 - k) as nat) == hex_digits((x / 16) as nat, (16 - k - 1) as nat).push(c));
        assert(hex_digits((x / 16) as nat, (16 - k - 1) as nat).push(c) + before =~= hex_digits((x / 16) as nat, (16 - k - 1) as nat) + digits@);
        x = x / 16;
        k = k + 1;
    }
    assert(hex_digits(x as nat, 0) + digits@ =~= digits@);
    crate::text::string_from_chars(&digits)
}


// ---------------------------------------------------------------------------
// The plan
// ---------------------------------------------------------------------------

#[derive(Clone, Copy, Debug, PartialEq, Eq)]
pub struct SynthDefResource {
    pub name: &'static str,
    pub relative_path: &'static str,
}

/// A synth argument value. SuperCollider receives it as the nearest `f32`.
#[derive(Clone, Copy, Debug, PartialEq, Eq, Structural)]
pub enum ScArgValue {
    /// A whole number: a bus or channel index, a count or a flag.
    Int(i64),
    /// A real number, as the bit pattern of an `f64`.
    Real(u64),
}

#[derive(Debug, PartialEq)]
pub struct ScSynthArg {
    pub name: String,
    pub value: ScArgValue,
}

#[derive(Debug, PartialEq)]
pub struct ScGroupPlan {
    pub group_key: String,
    pub node_id: i32,
}

#[derive(Debug, PartialEq)]
pub struct ScSynthPlan {
    pub node_key: String,
    pub node_id: i32,
    pub synthdef_name: &'static str,
    pub group_key: String,
    pub group_node_id: i32,
    pub args: Vec<ScSynthArg>,
}

#[derive(Debug, PartialEq)]
pub struct ScControlPlan {
    pub control_key: String,
    pub synth_node_id: i32,
    pub parameter_name: String,
}

#[derive(Debug, PartialEq)]
pub struct ScResourcePlan {
    pub patch_id: String,
    pub synthdefs: Vec<SynthDefResource>,
    pub groups: Vec<ScGroupPlan>,
    pub synths: Vec<ScSynthPlan>,
    pub controls: Vec<ScControlPlan>,
}

impl View for ScSynthArg {
    type V = (Seq<char>, ScArgValue);

    open spec fn view(&self) -> (Seq<char>, ScArgValue) {
        (self.name@, self.value)
    }
}

impl View for ScControlPlan {
    type V = (Seq<char>, i32, Seq<char>);

    open spec fn view(&self) -> (Seq<char>, i32, Seq<char>) {
        (self.control_key@, self.synth_node_id, self.parameter_name@)
    }
}

/// A planned synth as plain values.
pub struct SynthView {
    pub node_key: Seq<char>,
    pub node_id: i32,
    pub synthdef_name: Seq<char>,
    pub group_key: Seq<char>,
    pub group_node_id: i32,
    pub args: Seq<(Seq<char>, ScArgValue)>,
}

impl View for ScSynthPlan {
    type V = SynthView;

    open spec fn view(&self) -> SynthView {
        SynthView {
            node_key: self.node_key@,
            node_id: self.node_id,
            synthdef_name: self.synthdef_name@,
            group_key: self.group_key@,
            group_node_id: self.group_node_id,
            args: self.args@.map_values(|a: ScSynthArg| a@),
        }
    }
}

/// A planning error as plain values.
pub enum PlanErrorView {
    DuplicateBus { bus_id: Seq<char> },
    InvalidBusChannels { bus_id: Seq<char> },
    DuplicateGroup { group_id: Seq<char> },
    UnknownGroup { node_id: Seq<char>, group_id: Seq<char> },
    UnknownOutputBus { node_id: Seq<char>, bus_id: Seq<char> },
    UnknownInputBus { node_id: Seq<char>, bus_id: Seq<char> },
    MissingOutputBus { node_id: Seq<char> },
    MissingInputBus { node_id: Seq<char> },
    TooManyMixerInputs { node_id: Seq<char>, input_count: usize },
    UnknownCatalogEntry { node_type_id: Seq<char> },
    UnsupportedParameter { node_id: Seq<char>, parameter_id: Seq<char>, parameter_name: Seq<char> },
}

impl View for ScResourcePlanError {
    type V = PlanErrorView;

    open spec fn view(&self) -> PlanErrorView {
        match *self {
            ScResourcePlanError::DuplicateBus { bus_id } => PlanErrorView::DuplicateBus { bus_id: bus_id@ },
            ScResourcePlanError::InvalidBusChannels { bus_id } => PlanErrorView::InvalidBusChannels {
                bus_id: bus_id@,
            },
            ScResourcePlanError::DuplicateGroup { group_id } => PlanErrorView::DuplicateGroup {
                group_id: group_id@,
            },
            ScResourcePlanError::UnknownGroup { node_id, group_id } => PlanErrorView::UnknownGroup {
                node_id: node_id@,
                group_id: group_id@,
            },
            ScResourcePlanError::UnknownOutputBus { node_id, bus_id } => PlanErrorView::UnknownOutputBus {
                node_id: node_id@,
                bus_id: bus_id@,
            },
            ScResourcePlanError::UnknownInputBus { node_id, bus_id } => PlanErrorView::UnknownInputBus {
                node_id: node_id@,
                bus_id: bus_id@,
            },
            ScResourcePlanError::MissingOutputBus { node_id } => PlanErrorView::MissingOutputBus {
                node_id: node_id@,
            },
            ScResourcePlanError::MissingInputBus { node_id } => PlanErrorView::MissingInputBus {
                node_id: node_id@,
            },
            ScResourcePlanError::TooManyMixerInputs { node_id, input_count } =>
                PlanErrorView::TooManyMixerInputs { node_id: node_id@, input_count },
            ScResourcePlanError::UnknownCatalogEntry { node_type_id } =>
                PlanErrorView::UnknownCatalogEntry { node_type_id: node_type_id@ },
            ScResourcePlanError::UnsupportedParameter { node_id, parameter_id, parameter_name } =>
                PlanErrorView::UnsupportedParameter {
                    node_id: node_id@,
                    parameter_id: parameter_id@,
                    parameter_name: parameter_name@,
                },
        }
    }
}

fn text3(a: &str, b: &str, c: &str) -> (r: String)
    ensures
        r@ == a@ + b@ + c@,
{
    let mut s = a.to_owned();
    s.append(b);
    s.append(c);
    s
}

fn text5(a: &str, b: &str, c: &str, d: &str, e: &str) -> (r: String)
    ensures
        r@ == a@ + b@ + c@ + d@ + e@,
{
    let mut s = text3(a, b, c);
    s.append(d);
    s.append(e);
    s
}

/// The text of a planning error.
pub open spec fn plan_error_text(e: PlanErrorView) -> Seq<char> {
    match e {
        PlanErrorView::DuplicateBus { bus_id } => "duplicate bus id `"@ + bus_id + "`"@,
        PlanErrorView::InvalidBusChannels { bus_id } => "bus `"@ + bus_id
            + "` must have a positive channel count"@,
        PlanErrorView::DuplicateGroup { group_id } => "duplicate group id `"@ + group_id + "`"@,
        PlanErrorView::UnknownGroup { node_id, group_id } => "node `"@ + node_id
            + "` references unknown group `"@ + group_id + "`"@,
        PlanErrorView::UnknownOutputBus { node_id, bus_id } => "node `"@ + node_id
            + "` references unknown output bus `"@ + bus_id + "`"@,
        PlanErrorView::UnknownInputBus { node_id, bus_id } => "node `"@ + node_id
            + "` references unknown input bus `"@ + bus_id + "`"@,
        PlanErrorView::MissingOutputBus { node_id } => "node `"@ + node_id
            + "` requires an output bus"@,
        PlanErrorView::MissingInputBus { node_id } => "node `"@ + node_id
            + "` requires an input bus"@,
        PlanErrorView::TooManyMixerInputs { node_id, input_count } => "node `"@ + node_id
            + "` mixer supports at most 8 input buses, got "@ + spec_decimal(input_count as nat),
        PlanErrorView::UnknownCatalogEntry { node_type_id } =>
            "node references unknown catalog entry `"@ + node_type_id + "`"@,
        PlanErrorView::UnsupportedParameter { node_id, parameter_id, parameter_name } =>
            "node `"@ + node_id + "` parameter `"@ + parameter_id
            + "` uses unsupported parameter `"@ + parameter_name + "`"@,
    }
}

/// What loading a topology reports when planning it fails, before the
/// engine is contacted.
pub open spec fn load_plan_failure_text(e: PlanErrorView) -> Seq<char> {
    "Topology apply failure before contacting scsynth: "@ + plan_error_text(e)
}

impl ScResourcePlanError {
    /// The text shown for this error.
    pub fn message(&self) -> (r: String)
        ensures
            r@ == plan_error_text(self@),
    {
        match self {
            ScResourcePlanError::DuplicateBus { bus_id } => text3("duplicate bus id `", bus_id.as_str(), "`"),
            ScResourcePlanError::InvalidBusChannels { bus_id } =>
                text3("bus `", bus_id.as_str(), "` must have a positive channel count"),
            ScResourcePlanError::DuplicateGroup { group_id } => text3("duplicate group id `", group_id.as_str(), "`"),
            ScResourcePlanError::UnknownGroup { node_id, group_id } =>
                text5("node `", node_id.as_str(), "` references unknown group `", group_id.as_str(), "`"),
            ScResourcePlanError::UnknownOutputBus { node_id, bus_id } =>
                text5("node `", node_id.as_str(), "` references unknown output bus `", bus_id.as_str(), "`"),
            ScResourcePlanError::UnknownInputBus { node_id, bus_id } =>
                text5("node `", node_id.as_str(), "` references unknown input bus `", bus_id.as_str(), "`"),
            ScResourcePlanError::MissingOutputBus { node_id } =>
                text3("node `", node_id.as_str(), "` requires an output bus"),
            ScResourcePlanError::MissingInputBus { node_id } =>
                text3("node `", node_id.as_str(), "` requires an input bus"),
            ScResourcePlanError::TooManyMixerInputs { node_id, input_count } => {
                let n = decimal_string(*input_count);
                text3("node `", node_id.as_str(), "` mixer supports at most 8 input buses, got ").concat(
                    n.as_str(),
                )
            },
            ScResourcePlanError::UnknownCatalogEntry { node_type_id } =>
                text3("node references unknown catalog entry `", node_type_id.as_str(), "`"),
            ScResourcePlanError::UnsupportedParameter { node_id, parameter_id, parameter_name } => {
                let s = text5("node `", node_id.as_str(), "` parameter `", parameter_id.as_str(), "` uses unsupported parameter `");
                text3(s.as_str(), parameter_name.as_str(), "`")
            },
        }
    }

}

impl HasId for CompiledBus {
    open spec fn id_view(&self) -> Seq<char> {
        self.bus_id@
    }

    fn id_ref(&self) -> (r: &String) {
        &self.bus_id
    }
}

impl HasId for CompiledGroup {
    open spec fn id_view(&self) -> Seq<char> {
        self.group_id@
    }

    fn id_ref(&self) -> (r: &String) {
        &self.group_id
    }
}

// --- buses and groups -------------------------------------------------------

/// What is wrong with bus `i`: no channels, or an id already used before it.
pub open spec fn bus_error_at(buses: Seq<CompiledBus>, i: int) -> Option<PlanErrorView> {
    if buses[i].channels == 0 {
        Some(PlanErrorView::InvalidBusChannels { bus_id: buses[i].bus_id@ })
    } else if has_id(buses.take(i), buses[i].bus_id@) {
        Some(PlanErrorView::DuplicateBus { bus_id: buses[i].bus_id@ })
    } else {
        None
    }
}

/// The error of the first bus from `i` on that has one.
pub open spec fn first_bus_error(buses: Seq<CompiledBus>, i: int) -> Option<PlanErrorView>
    decreases buses.len() - i,
{
    if i < 0 || i >= buses.len() {
        None
    } else if bus_error_at(buses, i) is Some {
        bus_error_at(buses, i)
    } else {
        first_bus_error(buses, i + 1)
    }
}

fn check_buses(buses: &Vec<CompiledBus>) -> (r: Result<(), ScResourcePlanError>)
    ensures
        match r {
            Ok(()) => first_bus_error(buses@, 0) is None,
            Err(e) => first_bus_error(buses@, 0) == Some(e@),
        },
{
    let mut i: usize = 0;
    while i < buses.len()
        invariant
            i <= buses@.len(),
            first_bus_error(buses@, 0) == first_bus_error(buses@, i as int),
        decreases buses.len() - i,
    {
        let b = &buses[i];
        if b.channels == 0 {
            return Err(ScResourcePlanError::InvalidBusChannels { bus_id: b.bus_id.clone() });
        }
        let mut j: usize = 0;
        while j < i
            invariant
                j <= i,
                i < buses@.len(),
                *b == buses@[i as int],
                buses@[i as int].channels != 0,
                first_bus_error(buses@, 0) == first_bus_error(buses@, i as int),
                forall|q: int| 0 <= q < j ==> (#[trigger] buses@[q]).bus_id@ != buses@[i as int].bus_id@,
            decreases i - j,
        {
            if buses[j].bus_id == b.bus_id {
                assert(buses@.take(i as int)[j as int] == buses@[j as int]);
                assert(buses@.take(i as int)[j as int].id_view() == buses@[i as int].bus_id@);
                return Err(ScResourcePlanError::DuplicateBus { bus_id: b.bus_id.clone() });
            }
            j = j + 1;
        }
        assert(!has_id(buses@.take(i as int), buses@[i as int].bus_id@)) by {
            if has_id(buses@.take(i as int), buses@[i as int].bus_id@) {
                let q = choose|q: int| 0 <= q < i && (#[trigger] buses@.take(i as int)[q]).id_view() == buses@[i as int].bus_id@;
                assert(buses@[q].bus_id@ != buses@[i as int].bus_id@);
            }
        }
        i = i + 1;
    }
    Ok(())
}

/// The group `i` repeats an id used before it.
pub open spec fn group_error_at(groups: Seq<CompiledGroup>, i: int) -> Option<PlanErrorView> {
    if has_id(groups.take(i), groups[i].group_id@) {
        Some(PlanErrorView::DuplicateGroup { group_id: groups[i].group_id@ })
    } else {
        None
    }
}

pub open spec fn first_group_error(groups: Seq<CompiledGroup>, i: int) -> Option<PlanErrorView>
    decreases groups.len() - i,
{
    if i < 0 || i >= groups.len() {
        None
    } else if group_error_at(groups, i) is Some {
        group_error_at(groups, i)
    } else {
        first_group_error(groups, i + 1)
    }
}

fn check_groups(groups: &Vec<CompiledGroup>) -> (r: Result<(), ScResourcePlanError>)
    ensures
        match r {
            Ok(()) => first_group_error(groups@, 0) is None,
            Err(e) => first_group_error(groups@, 0) == Some(e@),
        },
{
    let mut i: usize = 0;
    while i < groups.len()
        invariant
            i <= groups@.len(),
            first_group_error(groups@, 0) == first_group_error(groups@, i as int),
        decreases groups.len() - i,
    {
        let g = &groups[i];
        let mut j: usize = 0;
        while j < i
            invariant
                j <= i,
                i < groups@.len(),
                *g == groups@[i as int],
                first_group_error(groups@, 0) == first_group_error(groups@, i as int),
                forall|q: int| 0 <= q < j ==> (#[trigger] groups@[q]).group_id@ != groups@[i as int].group_id@,
            decreases i - j,
        {
            if groups[j].group_id == g.group_id {
                assert(groups@.take(i as int)[j as int] == groups@[j as int]);
                assert(groups@.take(i as int)[j as int].id_view() == groups@[i as int].group_id@);
                return Err(ScResourcePlanError::DuplicateGroup { group_id: g.group_id.clone() });
            }
            j = j + 1;
        }
        assert(!has_id(groups@.take(i as int), groups@[i as int].group_id@)) by {
            if has_id(groups@.take(i as int), groups@[i as int].group_id@) {
                let q = choose|q: int| 0 <= q < i && (#[trigger] groups@.take(i as int)[q]).id_view() == groups@[i as int].group_id@;
                assert(groups@[q].group_id@ != groups@[i as int].group_id@);
            }
        }
        i = i + 1;
    }
    Ok(())
}

/// The SuperCollider bus index of a session bus: past the hardware outputs.
pub open spec fn bus_slot(buses: Seq<CompiledBus>, id: Seq<char>) -> Option<i64> {
    if has_id(buses, id) {
        Some((HARDWARE_AUDIO_BUS_OFFSET + find_id(buses, id).index) as i64)
    } else {
        None
    }
}

fn bus_slot_of(buses: &Vec<CompiledBus>, id: &String) -> (r: Option<i64>)
    requires
        forall|k: int| 0 <= k < buses@.len() ==> (#[trigger] buses@[k]).index <= u32::MAX - HARDWARE_AUDIO_BUS_OFFSET,
    ensures
        r == bus_slot(buses@, id@),
{
    match find_by_id(buses, id) {
        Some(k) => Some((HARDWARE_AUDIO_BUS_OFFSET as i64) + (buses[k].index as i64)),
        None => None,
    }
}

/// The SuperCollider node id of a group: counted from `FIRST_GROUP_ID` in
/// group order.
pub open spec fn group_node(groups: Seq<CompiledGroup>, id: Seq<char>) -> Option<i32> {
    if has_id(groups, id) {
        Some((FIRST_GROUP_ID + first_id(groups, id)) as i32)
    } else {
        None
    }
}

// --- modulation buses -------------------------------------------------------

/// The audio bus a launched node writes: that of the last node with this id
/// whose output bus is known.
pub open spec fn node_out_bus(nodes: Seq<CompiledNodeLaunch>, buses: Seq<CompiledBus>, id: Seq<char>) -> Option<i64>
    decreases nodes.len(),
{
    if nodes.len() == 0 {
        None
    } else {
        let n = nodes.last();
        if n.node_id@ == id && n.output_bus_id is Some && bus_slot(buses, n.output_bus_id->Some_0@) is Some {
            bus_slot(buses, n.output_bus_id->Some_0@)
        } else {
            node_out_bus(nodes.drop_last(), buses, id)
        }
    }
}

fn node_out_bus_of(nodes: &Vec<CompiledNodeLaunch>, buses: &Vec<CompiledBus>, id: &String) -> (r: Option<i64>)
    requires
        forall|k: int| 0 <= k < buses@.len() ==> (#[trigger] buses@[k]).index <= u32::MAX - HARDWARE_AUDIO_BUS_OFFSET,
    ensures
        r == node_out_bus(nodes@, buses@, id@),
{
    let mut i: usize = nodes.len();
    assert(nodes@.take(i as int) =~= nodes@);
    while i > 0
        invariant
            i <= nodes@.len(),
            forall|k: int| 0 <= k < buses@.len() ==> (#[trigger] buses@[k]).index <= u32::MAX - HARDWARE_AUDIO_BUS_OFFSET,
            node_out_bus(nodes@, buses@, id@) == node_out_bus(nodes@.take(i as int), buses@, id@),
        decreases i,
    {
        assert(nodes@.take(i as int).drop_last() =~= nodes@.take(i as int - 1));
        assert(nodes@.take(i as int).last() == nodes@[i as int - 1]);
        let n = &nodes[i - 1];
        if n.node_id == *id {
            if let Some(b) = &n.output_bus_id {
                let v = bus_slot_of(buses, b);
                if v.is_some() {
                    return v;
                }
            }
        }
        i = i - 1;
    }
    None
}

/// A modulation source output: node id and port id.
pub open spec fn cv_key(r: CompiledCvRoute) -> (Seq<char>, Seq<char>) {
    (r.source_node_id@, r.source_port_id@)
}

/// The control-rate source outputs, in order of first use.
pub open spec fn control_keys(routes: Seq<CompiledCvRoute>) -> Seq<(Seq<char>, Seq<char>)>
    decreases routes.len(),
{
    if routes.len() == 0 {
        Seq::empty()
    } else {
        let ks = control_keys(routes.drop_last());
        let r = routes.last();
        if r.signal_type == SignalType::Control && !ks.contains(cv_key(r)) {
            ks.push(cv_key(r))
        } else {
            ks
        }
    }
}

/// The control bus of control-rate route `k`: one per source output,
/// counted from `FIRST_CONTROL_BUS_OFFSET` in order of first use.
pub open spec fn control_bus(routes: Seq<CompiledCvRoute>, k: int) -> i64 {
    (FIRST_CONTROL_BUS_OFFSET + control_keys(routes.take(k + 1)).index_of(cv_key(routes[k]))) as i64
}

/// The arguments route `k` gives to node `id`: a control route makes its
/// source write `out_cv_bus` and its target read `<port>_bus`; an audio
/// route makes its target read the source's audio bus, when known.
pub open spec fn route_args(
    nodes: Seq<CompiledNodeLaunch>,
    buses: Seq<CompiledBus>,
    routes: Seq<CompiledCvRoute>,
    k: int,
    id: Seq<char>,
) -> Seq<(Seq<char>, ScArgValue)> {
    let r = routes[k];
    match r.signal_type {
        SignalType::Control => {
            let b = ScArgValue::Int(control_bus(routes, k));
            (if r.source_node_id@ == id {
                seq![("out_cv_bus"@, b)]
            } else {
                Seq::empty()
            }) + (if r.target_node_id@ == id {
                seq![(r.target_port_id@ + "_bus"@, b)]
            } else {
                Seq::empty()
            })
        },
        SignalType::Audio => match node_out_bus(nodes, buses, r.source_node_id@) {
            Some(o) => if r.target_node_id@ == id {
                seq![(r.target_port_id@ + "_bus"@, ScArgValue::Int(o))]
            } else {
                Seq::empty()
            },
            None => Seq::empty(),
        },
    }
}

/// The modulation arguments of node `id` from the first `n` routes, in
/// route order.
pub open spec fn cv_args(
    nodes: Seq<CompiledNodeLaunch>,
    buses: Seq<CompiledBus>,
    routes: Seq<CompiledCvRoute>,
    n: int,
    id: Seq<char>,
) -> Seq<(Seq<char>, ScArgValue)>
    decreases n,
{
    if n <= 0 {
        Seq::empty()
    } else {
        cv_args(nodes, buses, routes, n - 1, id) + route_args(nodes, buses, routes, n - 1, id)
    }
}

proof fn lemma_control_keys_distinct(routes: Seq<CompiledCvRoute>)
    ensures
        forall|a: int, b: int|
            0 <= a < b < control_keys(routes).len() ==> control_keys(routes)[a] != control_keys(routes)[b],
        control_keys(routes).len() <= routes.len(),
    decreases routes.len(),
{
    if routes.len() > 0 {
        lemma_control_keys_distinct(routes.drop_last());
        let ks = control_keys(routes.drop_last());
        let r = routes.last();
        if r.signal_type == SignalType::Control && !ks.contains(cv_key(r)) {
            assert forall|a: int, b: int| 0 <= a < b < ks.push(cv_key(r)).len() implies ks.push(cv_key(r))[a]
                != ks.push(cv_key(r))[b] by {
                if b == ks.len() {
                    assert(ks[a] != cv_key(r));
                }
            }
        }
    }
}

proof fn lemma_control_keys_contains(routes: Seq<CompiledCvRoute>, k: int)
    requires
        0 <= k < routes.len(),
        routes[k].signal_type == SignalType::Control,
    ensures
        control_keys(routes.take(k + 1)).contains(cv_key(routes[k])),
{
    let t = routes.take(k + 1);
    assert(t.drop_last() =~= routes.take(k));
    assert(t.last() == routes[k]);
    let ks = control_keys(t.drop_last());
    if ks.contains(cv_key(routes[k])) {
        assert(control_keys(t) == ks);
    } else {
        assert(control_keys(t) == ks.push(cv_key(routes[k])));
        assert(control_keys(t)[ks.len() as int] == cv_key(routes[k]));
    }
}

/// The control bus of every control-rate route (0 for audio routes).
fn plan_control_buses(routes: &Vec<CompiledCvRoute>) -> (r: Vec<i64>)
    requires
        routes@.len() <= u32::MAX - FIRST_CONTROL_BUS_OFFSET,
    ensures
        r@.len() == routes@.len(),
        forall|k: int|
            0 <= k < routes@.len() && (#[trigger] routes@[k]).signal_type == SignalType::Control ==> r@[k]
                == control_bus(routes@, k),
{
    let mut keys: Vec<(String, String)> = Vec::new();
    let mut out: Vec<i64> = Vec::new();
    let mut k: usize = 0;
    while k < routes.len()
        invariant
            k <= routes@.len(),
            routes@.len() <= u32::MAX - FIRST_CONTROL_BUS_OFFSET,
            keys@.map_values(|p: (String, String)| (p.0@, p.1@)) == control_keys(routes@.take(k as int)),
            out@.len() == k,
            forall|q: int|
                0 <= q < k && (#[trigger] routes@[q]).signal_type == SignalType::Control ==> out@[q]
                    == control_bus(routes@, q),
        decreases routes.len() - k,
    {
        let r = &routes[k];
        let ghost t = routes@.take(k as int + 1);
        assert(t.drop_last() =~= routes@.take(k as int));
        assert(t.last() == routes@[k as int]);
        proof {
            lemma_control_keys_distinct(routes@.take(k as int));
            lemma_control_keys_distinct(t);
        }
        match r.signal_type {
            SignalType::Control => {
                let ghost key = cv_key(routes@[k as int]);
                let ghost ks = control_keys(routes@.take(k as int));
                let mut j: usize = 0;
                while j < keys.len() && !(keys[j].0 == r.source_node_id && keys[j].1 == r.source_port_id)
                    invariant
                        j <= keys@.len(),
                        k < routes@.len(),
                        r == routes@[k as int],
                        keys@.map_values(|p: (String, String)| (p.0@, p.1@)) == ks,
                        key == cv_key(routes@[k as int]),
                        forall|q: int| 0 <= q < j ==> ks[q] != key,
                    decreases keys.len() - j,
                {
                    assert(ks[j as int] == (keys@[j as int].0@, keys@[j as int].1@));
                    j = j + 1;
                }
                if j == keys.len() {
                    assert(!ks.contains(key)) by {
                        if ks.contains(key) {
                            let q = choose|q: int| 0 <= q < ks.len() && ks[q] == key;
                        }
                    }
                    keys.push((r.source_node_id.clone(), r.source_port_id.clone()));
                    assert(keys@.map_values(|p: (String, String)| (p.0@, p.1@)) =~= ks.push(key));
                } else {
                    assert(ks[j as int] == key);
                }
                let ghost ks2 = control_keys(t);
                assert(ks2[j as int] == key);
                assert(ks2.index_of(key) == j) by {
                    let c = ks2.index_of(key);
                    assert(ks2.contains(key));
                    assert(0 <= c < ks2.len() && ks2[c] == key);
                }
                out.push(FIRST_CONTROL_BUS_OFFSET as i64 + j as i64);
            },
            SignalType::Audio => {
                out.push(0);
            },
        }
        k = k + 1;
    }
    assert(routes@.take(k as int) =~= routes@);
    out
}


// --- per-node arguments -----------------------------------------------------

/// The catalog entry a node type resolves to (the first with that id).
pub open spec fn entry_of(id: Seq<char>) -> EntryView {
    catalog_view()[choose|k: int| is_first_entry(catalog_view(), id, k)]
}

/// The output bus a node needs: missing or unknown is an error.
pub open spec fn output_bus_spec(n: CompiledNodeLaunch, buses: Seq<CompiledBus>) -> Result<i64, PlanErrorView> {
    match n.output_bus_id {
        None => Err(PlanErrorView::MissingOutputBus { node_id: n.node_id@ }),
        Some(b) => match bus_slot(buses, b@) {
            Some(v) => Ok(v),
            None => Err(PlanErrorView::UnknownOutputBus { node_id: n.node_id@, bus_id: b@ }),
        },
    }
}

/// An input bus of a node: unknown is an error.
pub open spec fn input_bus_spec(n: CompiledNodeLaunch, buses: Seq<CompiledBus>, b: Seq<char>) -> Result<i64, PlanErrorView> {
    match bus_slot(buses, b) {
        Some(v) => Ok(v),
        None => Err(PlanErrorView::UnknownInputBus { node_id: n.node_id@, bus_id: b }),
    }
}

/// The first input bus of a node: none is an error.
pub open spec fn first_input_spec(n: CompiledNodeLaunch, buses: Seq<CompiledBus>) -> Result<i64, PlanErrorView> {
    if n.input_bus_ids@.len() == 0 {
        Err(PlanErrorView::MissingInputBus { node_id: n.node_id@ })
    } else {
        input_bus_spec(n, buses, n.input_bus_ids@[0]@)
    }
}

/// What an output node reads: its first input bus, else its own known
/// output bus.
pub open spec fn output_in_spec(n: CompiledNodeLaunch, buses: Seq<CompiledBus>) -> Result<i64, PlanErrorView> {
    if n.input_bus_ids@.len() > 0 {
        input_bus_spec(n, buses, n.input_bus_ids@[0]@)
    } else {
        match n.output_bus_id {
            Some(b) => match bus_slot(buses, b@) {
                Some(v) => Ok(v),
                None => Err(PlanErrorView::MissingInputBus { node_id: n.node_id@ }),
            },
            None => Err(PlanErrorView::MissingInputBus { node_id: n.node_id@ }),
        }
    }
}

/// The entry declares an audio-rate input port.
pub open spec fn has_audio_input(e: EntryView) -> bool {
    exists|k: int|
        0 <= k < e.ports.len() && (#[trigger] e.ports[k]).direction == PortDirection::Input
            && e.ports[k].signal_type == SignalType::Audio
}

/// `in_bus_1` ... `in_bus_8`.
pub open spec fn mixer_slot_name(i: int) -> Seq<char> {
    "in_bus_"@.push((49 + i) as char)
}

/// The error of the first mixer input, from `i` on, whose bus is unknown.
pub open spec fn mixer_error(n: CompiledNodeLaunch, buses: Seq<CompiledBus>, i: int) -> Option<PlanErrorView>
    decreases n.input_bus_ids@.len() - i,
{
    if i < 0 || i >= n.input_bus_ids@.len() {
        None
    } else if bus_slot(buses, n.input_bus_ids@[i]@) is None {
        Some(PlanErrorView::UnknownInputBus { node_id: n.node_id@, bus_id: n.input_bus_ids@[i]@ })
    } else {
        mixer_error(n, buses, i + 1)
    }
}

/// The eight mixer input slots: the input buses in order, `-1` for unused.
pub open spec fn mixer_slots(n: CompiledNodeLaunch, buses: Seq<CompiledBus>) -> Seq<(Seq<char>, ScArgValue)> {
    Seq::new(
        8,
        |i: int|
            (mixer_slot_name(i), ScArgValue::Int(
                if i < n.input_bus_ids@.len() {
                    bus_slot(buses, n.input_bus_ids@[i]@)->Some_0
                } else {
                    -1i64
                },
            )),
    )
}

pub open spec fn int_arg(name: Seq<char>, v: i64) -> (Seq<char>, ScArgValue) {
    (name, ScArgValue::Int(v))
}

/// The bus and shape arguments of a node, by catalog category.
pub open spec fn category_args(n: CompiledNodeLaunch, e: EntryView, buses: Seq<CompiledBus>) -> Result<
    Seq<(Seq<char>, ScArgValue)>,
    PlanErrorView,
> {
    match e.category {
        NodeCategory::Source => match output_bus_spec(n, buses) {
            Err(x) => Err(x),
            Ok(o) => Ok(seq![int_arg("out_bus"@, o)]),
        },
        NodeCategory::Effect => match first_input_spec(n, buses) {
            Err(x) => Err(x),
            Ok(i) => match output_bus_spec(n, buses) {
                Err(x) => Err(x),
                Ok(o) => Ok(
                    seq![int_arg("in_bus"@, i), int_arg("out_bus"@, o), int_arg("bypassed"@, if n.bypassed { 1 } else { 0 })],
                ),
            },
        },
        NodeCategory::Mixer => if n.input_bus_ids@.len() > 8 {
            Err(PlanErrorView::TooManyMixerInputs { node_id: n.node_id@, input_count: n.input_bus_ids@.len() as usize })
        } else {
            match output_bus_spec(n, buses) {
                Err(x) => Err(x),
                Ok(o) => match mixer_error(n, buses, 0) {
                    Some(x) => Err(x),
                    None => Ok(
                        seq![int_arg("out_bus"@, o), int_arg("input_count"@, n.input_bus_ids@.len() as i64)]
                            + mixer_slots(n, buses),
                    ),
                },
            }
        },
        NodeCategory::Output => match output_in_spec(n, buses) {
            Err(x) => Err(x),
            Ok(i) => Ok(
                seq![
                    int_arg("in_bus"@, i),
                    int_arg("hardware_out"@, if n.output_kind == Some(OutputKind::Cue) { n.channel_count as i64 } else { 0 }),
                    int_arg("channels"@, n.channel_count as i64)
                ],
            ),
        },
        NodeCategory::Modulator | NodeCategory::Sequencer => Ok(Seq::empty()),
        NodeCategory::Utility => if has_audio_input(e) {
            match first_input_spec(n, buses) {
                Err(x) => Err(x),
                Ok(i) => match output_bus_spec(n, buses) {
                    Err(x) => Err(x),
                    Ok(o) => Ok(seq![int_arg("in_bus"@, i), int_arg("out_bus"@, o)]),
                },
            }
        } else {
            Ok(Seq::empty())
        },
    }
}

/// A planned effect is told whether it is bypassed: its arguments are its
/// input bus, its output bus, then `bypassed`, which is 1 exactly when
/// the launched node is bypassed and 0 exactly when it is not. The same
/// three lead the arguments of the effect's synth.
pub proof fn lemma_effect_bypass_flag(t: CompiledTopology, n: CompiledNodeLaunch)
    requires
        entry_of(n.node_type_id@).category == NodeCategory::Effect,
        category_args(n, entry_of(n.node_type_id@), t.buses@) is Ok,
    ensures
        ({
            let args = node_args(t, n);
            &&& args.len() >= 3
            &&& args[0].0 == "in_bus"@
            &&& args[1].0 == "out_bus"@
            &&& args[2].0 == "bypassed"@
            &&& (args[2].1 == ScArgValue::Int(1) <==> n.bypassed)
            &&& (args[2].1 == ScArgValue::Int(0) <==> !n.bypassed)
        }),
{
    let e = entry_of(n.node_type_id@);
    let c = category_args(n, e, t.buses@)->Ok_0;
    assert(c.len() == 3);
    let args = node_args(t, n);
    assert(args[0] == c[0] && args[1] == c[1] && args[2] == c[2]);
}

pub open spec fn args_view(v: Seq<ScSynthArg>) -> Seq<(Seq<char>, ScArgValue)> {
    v.map_values(|a: ScSynthArg| a@)
}

fn arg(name: &str, value: ScArgValue) -> (a: ScSynthArg)
    ensures
        a@ == (name@, value),
{
    ScSynthArg { name: name.to_owned(), value }
}

type BusList = Vec<CompiledBus>;

/// Every bus index leaves room for the hardware outputs before it.
pub open spec fn bus_indices_fit(buses: Seq<CompiledBus>) -> bool {
    forall|k: int| 0 <= k < buses.len() ==> (#[trigger] buses[k]).index <= u32::MAX - HARDWARE_AUDIO_BUS_OFFSET
}

fn output_bus(n: &CompiledNodeLaunch, buses: &BusList) -> (r: Result<i64, ScResourcePlanError>)
    requires
        bus_indices_fit(buses@),
    ensures
        match r {
            Ok(v) => output_bus_spec(*n, buses@) == Ok::<i64, PlanErrorView>(v),
            Err(x) => output_bus_spec(*n, buses@) == Err::<i64, PlanErrorView>(x@),
        },
{
    match &n.output_bus_id {
        None => Err(ScResourcePlanError::MissingOutputBus { node_id: n.node_id.clone() }),
        Some(b) => match bus_slot_of(buses, b) {
            Some(v) => Ok(v),
            None => Err(ScResourcePlanError::UnknownOutputBus { node_id: n.node_id.clone(), bus_id: b.clone() }),
        },
    }
}

fn input_bus(n: &CompiledNodeLaunch, buses: &BusList, b: &String) -> (r: Result<i64, ScResourcePlanError>)
    requires
        bus_indices_fit(buses@),
    ensures
        match r {
            Ok(v) => input_bus_spec(*n, buses@, b@) == Ok::<i64, PlanErrorView>(v),
            Err(x) => input_bus_spec(*n, buses@, b@) == Err::<i64, PlanErrorView>(x@),
        },
{
    match bus_slot_of(buses, b) {
        Some(v) => Ok(v),
        None => Err(ScResourcePlanError::UnknownInputBus { node_id: n.node_id.clone(), bus_id: b.clone() }),
    }
}

fn first_input(n: &CompiledNodeLaunch, buses: &BusList) -> (r: Result<i64, ScResourcePlanError>)
    requires
        bus_indices_fit(buses@),
    ensures
        match r {
            Ok(v) => first_input_spec(*n, buses@) == Ok::<i64, PlanErrorView>(v),
            Err(x) => first_input_spec(*n, buses@) == Err::<i64, PlanErrorView>(x@),
        },
{
    if n.input_bus_ids.len() == 0 {
        Err(ScResourcePlanError::MissingInputBus { node_id: n.node_id.clone() })
    } else {
        input_bus(n, buses, &n.input_bus_ids[0])
    }
}

fn entry_has_audio_input(e: &NodeCatalogEntry) -> (r: bool)
    ensures
        r == has_audio_input(e@),
{
    let mut k: usize = 0;
    while k < e.ports.len()
        invariant
            k <= e.ports@.len(),
            forall|q: int|
                0 <= q < k ==> !((#[trigger] e@.ports[q]).direction == PortDirection::Input
                    && e@.ports[q].signal_type == SignalType::Audio),
        decreases e.ports.len() - k,
    {
        assert(e@.ports[k as int] == e.ports@[k as int]@);
        if e.ports[k].direction == PortDirection::Input && e.ports[k].signal_type == SignalType::Audio {
            return true;
        }
        k = k + 1;
    }
    false
}

fn mixer_slot_text(i: usize) -> (r: &'static str)
    requires
        i < 8,
    ensures
        r@ == mixer_slot_name(i as int),
{
    proof {
        reveal_strlit("in_bus_");
        reveal_strlit("in_bus_1");
        reveal_strlit("in_bus_2");
        reveal_strlit("in_bus_3");
        reveal_strlit("in_bus_4");
        reveal_strlit("in_bus_5");
        reveal_strlit("in_bus_6");
        reveal_strlit("in_bus_7");
        reveal_strlit("in_bus_8");
    }
    let r = if i == 0 {
        "in_bus_1"
    } else if i == 1 {
        "in_bus_2"
    } else if i == 2 {
        "in_bus_3"
    } else if i == 3 {
        "in_bus_4"
    } else if i == 4 {
        "in_bus_5"
    } else if i == 5 {
        "in_bus_6"
    } else if i == 6 {
        "in_bus_7"
    } else {
        "in_bus_8"
    };
    assert(r@ =~= mixer_slot_name(i as int));
    r
}

fn node_category_args(n: &CompiledNodeLaunch, e: &NodeCatalogEntry, buses: &BusList) -> (r: Result<Vec<ScSynthArg>, ScResourcePlanError>)
    requires
        bus_indices_fit(buses@),
    ensures
        match r {
            Ok(v) => category_args(*n, e@, buses@) == Ok::<Seq<(Seq<char>, ScArgValue)>, PlanErrorView>(args_view(v@)),
            Err(x) => category_args(*n, e@, buses@) == Err::<Seq<(Seq<char>, ScArgValue)>, PlanErrorView>(x@),
        },
{
    let mut args: Vec<ScSynthArg> = Vec::new();
    match e.category {
        NodeCategory::Source => {
            let o = output_bus(n, buses)?;
            args.push(arg("out_bus", ScArgValue::Int(o)));
        },
        NodeCategory::Effect => {
            let i = first_input(n, buses)?;
            let o = output_bus(n, buses)?;
            args.push(arg("in_bus", ScArgValue::Int(i)));
            args.push(arg("out_bus", ScArgValue::Int(o)));
            args.push(arg("bypassed", ScArgValue::Int(if n.bypassed { 1 } else { 0 })));
        },
        NodeCategory::Mixer => {
            let count = n.input_bus_ids.len();
            if count > 8 {
                return Err(ScResourcePlanError::TooManyMixerInputs { node_id: n.node_id.clone(), input_count: count });
            }
            let o = output_bus(n, buses)?;
            args.push(arg("out_bus", ScArgValue::Int(o)));
            args.push(arg("input_count", ScArgValue::Int(count as i64)));
            let mut k: usize = 0;
            while k < 8
                invariant
                    k <= 8,
                    count == n.input_bus_ids@.len(),
                    count <= 8,
                    bus_indices_fit(buses@),
                    args@.len() == 2 + k,
                    mixer_error(*n, buses@, 0) == mixer_error(*n, buses@, k as int),
                    forall|q: int| 0 <= q < k ==> (#[trigger] args@[q + 2])@ == mixer_slots(*n, buses@)[q],
                    args@[0]@ == int_arg("out_bus"@, o),
                    args@[1]@ == int_arg("input_count"@, count as i64),
                    e@.category == NodeCategory::Mixer,
                    output_bus_spec(*n, buses@) == Ok::<i64, PlanErrorView>(o),
                decreases 8 - k,
            {
                let v: i64 = if k < count {
                    match bus_slot_of(buses, &n.input_bus_ids[k]) {
                        Some(v) => v,
                        None => {
                            return Err(ScResourcePlanError::UnknownInputBus {
                                node_id: n.node_id.clone(),
                                bus_id: n.input_bus_ids[k].clone(),
                            });
                        },
                    }
                } else {
                    -1
                };
                args.push(arg(mixer_slot_text(k), ScArgValue::Int(v)));
                k = k + 1;
            }
            assert(mixer_error(*n, buses@, 8) is None);
            assert forall|q: int| 0 <= q < args@.len() implies #[trigger] args_view(args@)[q] == (seq![int_arg("out_bus"@, o), int_arg("input_count"@, count as i64)] + mixer_slots(*n, buses@))[q] by {
                if q >= 2 {
                    assert(args@[(q - 2) + 2]@ == mixer_slots(*n, buses@)[q - 2]);
                }
            }
            assert(args_view(args@) =~= seq![int_arg("out_bus"@, o), int_arg("input_count"@, count as i64)] + mixer_slots(*n, buses@));
        },
        NodeCategory::Output => {
            let i = if n.input_bus_ids.len() > 0 {
                input_bus(n, buses, &n.input_bus_ids[0])?
            } else {
                match &n.output_bus_id {
                    Some(b) => match bus_slot_of(buses, b) {
                        Some(v) => v,
                        None => {
                            return Err(ScResourcePlanError::MissingInputBus { node_id: n.node_id.clone() });
                        },
                    },
                    None => {
                        return Err(ScResourcePlanError::MissingInputBus { node_id: n.node_id.clone() });
                    },
                }
            };
            args.push(arg("in_bus", ScArgValue::Int(i)));
            let hw: i64 = if n.output_kind == Some(OutputKind::Cue) {
                n.channel_count as i64
            } else {
                0
            };
            args.push(arg("hardware_out", ScArgValue::Int(hw)));
            args.push(arg("channels", ScArgValue::Int(n.channel_count as i64)));
        },
        NodeCategory::Modulator | NodeCategory::Sequencer => {},
        NodeCategory::Utility => {
            if entry_has_audio_input(e) {
                let i = first_input(n, buses)?;
                let o = output_bus(n, buses)?;
                args.push(arg("in_bus", ScArgValue::Int(i)));
                args.push(arg("out_bus", ScArgValue::Int(o)));
            }
        },
    }
    assert(args_view(args@) =~= match category_args(*n, e@, buses@) {
        Ok(s) => s,
        Err(_) => Seq::empty(),
    });
    Ok(args)
}


// --- parameters ---------------------------------------------------------------

/// The SuperCollider argument a parameter name resolves to in an entry: the
/// first parameter answering to the name.
pub open spec fn sc_arg_of(e: EntryView, name: Seq<char>) -> Option<Seq<char>> {
    if exists|k: int| is_first_named(e.parameters, name, k) {
        Some(e.parameters[choose|k: int| is_first_named(e.parameters, name, k)].sc_arg)
    } else {
        None
    }
}

/// The error of the first parameter, from `i` on, the entry does not know.
pub open spec fn param_error(n: CompiledNodeLaunch, e: EntryView, i: int) -> Option<PlanErrorView>
    decreases n.parameters@.len() - i,
{
    if i < 0 || i >= n.parameters@.len() {
        None
    } else if sc_arg_of(e, n.parameters@[i].name@) is None {
        Some(PlanErrorView::UnsupportedParameter {
            node_id: n.node_id@,
            parameter_id: n.parameters@[i].parameter_id@,
            parameter_name: n.parameters@[i].name@,
        })
    } else {
        param_error(n, e, i + 1)
    }
}

/// One argument per parameter: its SuperCollider name and value.
pub open spec fn param_args(n: CompiledNodeLaunch, e: EntryView) -> Seq<(Seq<char>, ScArgValue)> {
    Seq::new(
        n.parameters@.len(),
        |i: int| (sc_arg_of(e, n.parameters@[i].name@)->Some_0, ScArgValue::Real(n.parameters@[i].value)),
    )
}

/// One live control per parameter, keyed `<node id>:<parameter id>`.
pub open spec fn param_controls(n: CompiledNodeLaunch, e: EntryView, synth: i32) -> Seq<(Seq<char>, i32, Seq<char>)> {
    Seq::new(
        n.parameters@.len(),
        |i: int|
            (n.node_id@ + ":"@ + n.parameters@[i].parameter_id@, synth, sc_arg_of(e, n.parameters@[i].name@)->Some_0),
    )
}

pub open spec fn controls_view(v: Seq<ScControlPlan>) -> Seq<(Seq<char>, i32, Seq<char>)> {
    v.map_values(|c: ScControlPlan| c@)
}

fn resolve_arg(e: &NodeCatalogEntry, name: &String) -> (r: Option<&'static str>)
    ensures
        match r {
            Some(a) => sc_arg_of(e@, name@) == Some(a@),
            None => sc_arg_of(e@, name@) is None,
        },
{
    let r = e.resolve_sc_arg(name.as_str());
    proof {
        match r {
            Some(a) => {
                let k = choose|k: int| is_first_named(e@.parameters, name@, k) && a@ == e@.parameters[k].sc_arg;
                let k2 = choose|k: int| is_first_named(e@.parameters, name@, k);
                if k < k2 {
                    assert(!crate::catalog::param_named(e@.parameters[k], name@));
                } else if k2 < k {
                    assert(!crate::catalog::param_named(e@.parameters[k2], name@));
                }
            },
            None => {
                if exists|k: int| is_first_named(e@.parameters, name@, k) {
                    let k = choose|k: int| is_first_named(e@.parameters, name@, k);
                    assert(crate::catalog::param_named(e@.parameters[k], name@));
                }
            },
        }
    }
    r
}

fn apply_parameters(
    n: &CompiledNodeLaunch,
    e: &NodeCatalogEntry,
    synth: i32,
    args: &mut Vec<ScSynthArg>,
    controls: &mut Vec<ScControlPlan>,
) -> (r: Result<(), ScResourcePlanError>)
    ensures
        match r {
            Ok(()) => param_error(*n, e@, 0) is None && args_view(final(args)@) == args_view(old(args)@)
                + param_args(*n, e@) && controls_view(final(controls)@) == controls_view(old(controls)@)
                + param_controls(*n, e@, synth),
            Err(x) => param_error(*n, e@, 0) == Some(x@),
        },
{
    let ghost a0 = args@;
    let ghost c0 = controls@;
    let mut i: usize = 0;
    while i < n.parameters.len()
        invariant
            i <= n.parameters@.len(),
            param_error(*n, e@, 0) == param_error(*n, e@, i as int),
            args_view(args@) =~= args_view(a0) + param_args(*n, e@).take(i as int),
            controls_view(controls@) =~= controls_view(c0) + param_controls(*n, e@, synth).take(i as int),
        decreases n.parameters.len() - i,
    {
        let p = &n.parameters[i];
        let a = match resolve_arg(e, &p.name) {
            Some(a) => a,
            None => {
                return Err(ScResourcePlanError::UnsupportedParameter {
                    node_id: n.node_id.clone(),
                    parameter_id: p.parameter_id.clone(),
                    parameter_name: p.name.clone(),
                });
            },
        };
        let ghost av = args_view(args@);
        let ghost cv = controls_view(controls@);
        args.push(arg(a, ScArgValue::Real(p.value)));
        assert(args_view(args@) =~= av.push((a@, ScArgValue::Real(p.value))));
        let mut key = n.node_id.clone();
        key.append(":");
        key.append(p.parameter_id.as_str());
        controls.push(ScControlPlan { control_key: key, synth_node_id: synth, parameter_name: a.to_owned() });
        assert(controls_view(controls@) =~= cv.push((n.node_id@ + ":"@ + p.parameter_id@, synth, a@)));
        proof {
            assert(param_args(*n, e@).take(i as int + 1) =~= param_args(*n, e@).take(i as int).push(param_args(*n, e@)[i as int]));
            assert(param_controls(*n, e@, synth).take(i as int + 1) =~= param_controls(*n, e@, synth).take(i as int).push(param_controls(*n, e@, synth)[i as int]));
            assert(args_view(args@) =~= args_view(a0) + param_args(*n, e@).take(i as int + 1));
            assert(controls_view(controls@) =~= controls_view(c0) + param_controls(*n, e@, synth).take(i as int + 1));
        }
        i = i + 1;
    }
    assert(param_args(*n, e@).take(i as int) =~= param_args(*n, e@));
    assert(param_controls(*n, e@, synth).take(i as int) =~= param_controls(*n, e@, synth));
    Ok(())
}

// --- modulation arguments -------------------------------------------------------

fn push_cv_args(t: &CompiledTopology, route_bus: &Vec<i64>, id: &String, out: &mut Vec<ScSynthArg>)
    requires
        bus_indices_fit(t.buses@),
        route_bus@.len() == t.cv_routes@.len(),
        forall|k: int|
            0 <= k < t.cv_routes@.len() && (#[trigger] t.cv_routes@[k]).signal_type == SignalType::Control
                ==> route_bus@[k] == control_bus(t.cv_routes@, k),
    ensures
        args_view(final(out)@) == args_view(old(out)@) + cv_args(
            t.node_launch_order@,
            t.buses@,
            t.cv_routes@,
            t.cv_routes@.len() as int,
            id@,
        ),
{
    let ghost nodes = t.node_launch_order@;
    let ghost buses = t.buses@;
    let ghost routes = t.cv_routes@;
    let ghost a0 = args_view(out@);
    let mut k: usize = 0;
    while k < t.cv_routes.len()
        invariant
            k <= routes.len(),
            nodes == t.node_launch_order@,
            buses == t.buses@,
            routes == t.cv_routes@,
            bus_indices_fit(t.buses@),
            route_bus@.len() == t.cv_routes@.len(),
            forall|q: int|
                0 <= q < t.cv_routes@.len() && (#[trigger] t.cv_routes@[q]).signal_type == SignalType::Control
                    ==> route_bus@[q] == control_bus(t.cv_routes@, q),
            args_view(out@) =~= a0 + cv_args(nodes, buses, routes, k as int, id@),
        decreases t.cv_routes.len() - k,
    {
        let r = &t.cv_routes[k];
        let ghost before = args_view(out@);
        match r.signal_type {
            SignalType::Control => {
                let b = ScArgValue::Int(route_bus[k]);
                if r.source_node_id == *id {
                    out.push(arg("out_cv_bus", b));
                }
                if r.target_node_id == *id {
                    let mut nm = r.target_port_id.clone();
                    nm.append("_bus");
                    out.push(ScSynthArg { name: nm, value: b });
                }
            },
            SignalType::Audio => {
                match node_out_bus_of(&t.node_launch_order, &t.buses, &r.source_node_id) {
                    Some(o) => {
                        if r.target_node_id == *id {
                            let mut nm = r.target_port_id.clone();
                            nm.append("_bus");
                            out.push(ScSynthArg { name: nm, value: ScArgValue::Int(o) });
                        }
                    },
                    None => {},
                }
            },
        }
        assert(args_view(out@) =~= before + route_args(nodes, buses, routes, k as int, id@));
        k = k + 1;
    }
}

// --- synthdef resources ---------------------------------------------------------

/// `k` is the first catalog entry whose SynthDef is `name`.
pub open spec fn is_first_synthdef(name: Seq<char>, k: int) -> bool {
    &&& 0 <= k < catalog_view().len()
    &&& catalog_view()[k].synthdef_name == name
    &&& forall|j: int| 0 <= j < k ==> (#[trigger] catalog_view()[j]).synthdef_name != name
}

/// The resource is that of the first catalog entry using its SynthDef.
pub open spec fn resource_ok(d: SynthDefResource) -> bool {
    exists|k: int| is_first_synthdef(d.name@, k) && d.relative_path@ == catalog_view()[k].synthdef_resource
}

/// Some catalog entry uses SynthDef `name`.
pub open spec fn catalog_synthdef(name: Seq<char>) -> bool {
    exists|k: int| 0 <= k < catalog_view().len() && (#[trigger] catalog_view()[k]).synthdef_name == name
}

fn resource_for_name(cat: &Vec<NodeCatalogEntry>, name: &'static str) -> (r: SynthDefResource)
    requires
        cat@.map_values(|e: NodeCatalogEntry| e@) == catalog_view(),
        catalog_synthdef(name@),
    ensures
        r.name@ == name@,
        resource_ok(r),
{
    let ghost v = catalog_view();
    let mut i: usize = 0;
    while i < cat.len()
        invariant
            i <= cat@.len(),
            cat@.map_values(|e: NodeCatalogEntry| e@) == v,
            v == catalog_view(),
            catalog_synthdef(name@),
            forall|j: int| 0 <= j < i ==> (#[trigger] v[j]).synthdef_name != name@,
        decreases cat.len() - i,
    {
        assert(cat@[i as int]@ == v[i as int]);
        if crate::catalog::str_eq(cat[i].synthdef_name, name) {
            assert(is_first_synthdef(name@, i as int));
            assert(is_first_synthdef(cat[i as int].synthdef_name@, i as int) && cat[i as int].synthdef_resource@ == catalog_view()[i as int].synthdef_resource);
            return SynthDefResource { name: cat[i].synthdef_name, relative_path: cat[i].synthdef_resource };
        }
        i = i + 1;
    }
    proof {
        let k = choose|k: int| 0 <= k < catalog_view().len() && (#[trigger] catalog_view()[k]).synthdef_name == name@;
        assert(v[k].synthdef_name != name@);
    }
    SynthDefResource { name: name, relative_path: name }
}

/// Strictly increasing in string order.
pub open spec fn names_sorted(s: Seq<Seq<char>>) -> bool {
    forall|i: int, j: int| 0 <= i < j < s.len() ==> seq_lt(#[trigger] s[i], #[trigger] s[j])
}

pub open spec fn names_view(v: Seq<&'static str>) -> Seq<Seq<char>> {
    v.map_values(|s: &'static str| s@)
}

fn insert_name(v: &mut Vec<&'static str>, x: &'static str)
    requires
        names_sorted(names_view(old(v)@)),
    ensures
        names_sorted(names_view(final(v)@)),
        forall|y: Seq<char>| #[trigger] names_view(final(v)@).contains(y) <==> (names_view(old(v)@).contains(y) || y == x@),
        forall|i: int| 0 <= i < final(v)@.len() ==> old(v)@.contains(#[trigger] final(v)@[i]) || final(v)@[i] == x,
{
    let ghost old_v = v@;
    let mut j: usize = 0;
    while j < v.len()
        invariant
            j <= v@.len(),
            v@ == old_v,
            names_sorted(names_view(old_v)),
            forall|q: int| 0 <= q < j ==> (#[trigger] v@[q])@ != x@,
        decreases v.len() - j,
    {
        if crate::catalog::str_eq(v[j], x) {
            assert(names_view(v@)[j as int] == x@);
            return;
        }
        j = j + 1;
    }
    let mut pos: usize = 0;
    while pos < v.len() && str_le(v[pos], x)
        invariant
            pos <= v@.len(),
            v@ == old_v,
            forall|i: int| 0 <= i < pos ==> seq_le((#[trigger] v@[i])@, x@),
        decreases v.len() - pos,
    {
        pos = pos + 1;
    }
    v.insert(pos, x);
    proof {
        let ov = names_view(old_v);
        let nv = names_view(v@);
        assert(v@ =~= old_v.take(pos as int).push(x) + old_v.skip(pos as int));
        assert forall|i: int| 0 <= i < nv.len() implies #[trigger] nv[i] == if i < pos {
            ov[i]
        } else if i == pos {
            x@
        } else {
            ov[i - 1]
        } by {}
        assert forall|i: int, j: int| 0 <= i < j < nv.len() implies seq_lt(#[trigger] nv[i], #[trigger] nv[j]) by {
            if j < pos {
            } else if j == pos {
                assert(ov[i] != x@);
                if seq_le(x@, ov[i]) {
                    lemma_seq_le_antisymmetric(x@, ov[i]);
                }
            } else if i > pos {
            } else if i == pos {
                assert(!seq_le(ov[pos as int], x@));
                lemma_seq_le_total(ov[pos as int], x@);
                if pos as int != j - 1 {
                    assert(seq_lt(ov[pos as int], ov[j - 1]));
                    if seq_le(ov[j - 1], x@) {
                        lemma_seq_le_transitive(ov[j - 1], x@, ov[pos as int]);
                    }
                }
            } else {
            }
        }
        assert forall|y: Seq<char>| #[trigger] nv.contains(y) <==> (ov.contains(y) || y == x@) by {
            if nv.contains(y) {
                let i = choose|i: int| 0 <= i < nv.len() && nv[i] == y;
                if i < pos {
                    assert(ov[i] == y);
                } else if i > pos {
                    assert(ov[i - 1] == y);
                }
            }
            if ov.contains(y) {
                let i = choose|i: int| 0 <= i < ov.len() && ov[i] == y;
                if i < pos {
                    assert(nv[i] == y);
                } else {
                    assert(nv[i + 1] == y);
                }
            }
            if y == x@ {
                assert(nv[pos as int] == y);
            }
        }
        assert forall|i: int| 0 <= i < v@.len() implies old_v.contains(#[trigger] v@[i]) || v@[i] == x by {
            if i < pos {
                assert(old_v[i] == v@[i]);
            } else if i > pos {
                assert(old_v[i - 1] == v@[i]);
            }
        }
    }
}


// --- the whole plan ---------------------------------------------------------------

/// What planning has produced after some nodes.
pub struct PlanState {
    pub next_synth: int,
    pub synths: Seq<SynthView>,
    pub controls: Seq<(Seq<char>, i32, Seq<char>)>,
    pub names: Set<Seq<char>>,
}

pub open spec fn initial_plan_state() -> PlanState {
    PlanState { next_synth: FIRST_SYNTH_ID as int, synths: Seq::empty(), controls: Seq::empty(), names: Set::empty() }
}

/// Why a launched node cannot be planned, checked in this order: an unknown
/// catalog entry, an unknown group, its category arguments, its parameters.
pub open spec fn node_plan_error(t: CompiledTopology, n: CompiledNodeLaunch) -> Option<PlanErrorView> {
    if !has_first_entry(n.node_type_id@) {
        Some(PlanErrorView::UnknownCatalogEntry { node_type_id: n.node_type_id@ })
    } else if group_node(t.group_order@, n.group_id@) is None {
        Some(PlanErrorView::UnknownGroup { node_id: n.node_id@, group_id: n.group_id@ })
    } else if category_args(n, entry_of(n.node_type_id@), t.buses@) is Err {
        Some(category_args(n, entry_of(n.node_type_id@), t.buses@)->Err_0)
    } else {
        param_error(n, entry_of(n.node_type_id@), 0)
    }
}

/// All arguments of a planned node: category arguments, then parameters,
/// then modulation arguments.
pub open spec fn node_args(t: CompiledTopology, n: CompiledNodeLaunch) -> Seq<(Seq<char>, ScArgValue)> {
    let e = entry_of(n.node_type_id@);
    category_args(n, e, t.buses@)->Ok_0 + param_args(n, e) + cv_args(
        t.node_launch_order@,
        t.buses@,
        t.cv_routes@,
        t.cv_routes@.len() as int,
        n.node_id@,
    )
}

/// Plans one launched node: its controls, and a synth unless its entry
/// names no SynthDef (app-driven nodes).
pub open spec fn node_step(t: CompiledTopology, st: PlanState, n: CompiledNodeLaunch) -> Result<PlanState, PlanErrorView> {
    match node_plan_error(t, n) {
        Some(x) => Err(x),
        None => {
            let e = entry_of(n.node_type_id@);
            let controls = st.controls + param_controls(n, e, st.next_synth as i32);
            if e.synthdef_name.len() == 0 {
                Ok(PlanState { next_synth: st.next_synth, synths: st.synths, controls, names: st.names })
            } else {
                Ok(
                    PlanState {
                        next_synth: st.next_synth + 1,
                        synths: st.synths.push(
                            SynthView {
                                node_key: n.node_id@,
                                node_id: st.next_synth as i32,
                                synthdef_name: e.synthdef_name,
                                group_key: n.group_id@,
                                group_node_id: group_node(t.group_order@, n.group_id@)->Some_0,
                                args: node_args(t, n),
                            },
                        ),
                        controls,
                        names: st.names.insert(e.synthdef_name),
                    },
                )
            }
        },
    }
}

fn plan_one_node(
    t: &CompiledTopology,
    route_bus: &Vec<i64>,
    n: &CompiledNodeLaunch,
    synth: i32,
    controls: &mut Vec<ScControlPlan>,
) -> (r: Result<(NodeCatalogEntry, i32, Vec<ScSynthArg>), ScResourcePlanError>)
    requires
        bus_indices_fit(t.buses@),
        t.group_order@.len() <= i32::MAX - FIRST_GROUP_ID,
        route_bus@.len() == t.cv_routes@.len(),
        forall|k: int|
            0 <= k < t.cv_routes@.len() && (#[trigger] t.cv_routes@[k]).signal_type == SignalType::Control
                ==> route_bus@[k] == control_bus(t.cv_routes@, k),
    ensures
        match r {
            Ok((e, g, args)) => {
                &&& node_plan_error(*t, *n) is None
                &&& e@ == entry_of(n.node_type_id@)
                &&& has_first_entry(n.node_type_id@)
                &&& group_node(t.group_order@, n.group_id@) == Some(g)
                &&& args_view(args@) == node_args(*t, *n)
                &&& controls_view(final(controls)@) == controls_view(old(controls)@) + param_controls(
                    *n,
                    e@,
                    synth,
                )
            },
            Err(x) => node_plan_error(*t, *n) == Some(x@),
        },
{
    let e = catalog_entry_for(&n.node_type_id)?;
    let g: i32 = match find_by_id(&t.group_order, &n.group_id) {
        Some(k) => FIRST_GROUP_ID + k as i32,
        None => {
            return Err(ScResourcePlanError::UnknownGroup { node_id: n.node_id.clone(), group_id: n.group_id.clone() });
        },
    };
    let mut args = node_category_args(n, &e, &t.buses)?;
    apply_parameters(n, &e, synth, &mut args, controls)?;
    push_cv_args(t, route_bus, &n.node_id, &mut args);
    Ok((e, g, args))
}

/// Planning the first `k` launched nodes.
pub open spec fn plan_fold(t: CompiledTopology, k: int) -> Result<PlanState, PlanErrorView>
    decreases k,
{
    if k <= 0 {
        Ok(initial_plan_state())
    } else {
        match plan_fold(t, k - 1) {
            Err(x) => Err(x),
            Ok(st) => node_step(t, st, t.node_launch_order@[k - 1]),
        }
    }
}

/// The topology is within what the planner can number: its bus indices
/// leave room for the hardware outputs, and its modulation buses, synth ids
/// and group ids stay within their integer types.
pub open spec fn within_planner_limits(t: CompiledTopology) -> bool {
    &&& bus_indices_fit(t.buses@)
    &&& t.cv_routes@.len() <= u32::MAX - FIRST_CONTROL_BUS_OFFSET
    &&& t.node_launch_order@.len() <= i32::MAX - FIRST_SYNTH_ID
    &&& t.group_order@.len() <= i32::MAX - FIRST_GROUP_ID
}

/// Whether `t` is within the planner's limits, so that it can be planned.
pub fn fits_planner_limits(t: &CompiledTopology) -> (r: bool)
    ensures
        r == within_planner_limits(*t),
{
    let mut k: usize = 0;
    while k < t.buses.len()
        invariant
            k <= t.buses@.len(),
            forall|j: int| 0 <= j < k ==> (#[trigger] t.buses@[j]).index <= u32::MAX - HARDWARE_AUDIO_BUS_OFFSET,
        decreases t.buses.len() - k,
    {
        if t.buses[k].index > u32::MAX - HARDWARE_AUDIO_BUS_OFFSET {
            return false;
        }
        k = k + 1;
    }
    t.cv_routes.len() <= (u32::MAX - FIRST_CONTROL_BUS_OFFSET) as usize && t.node_launch_order.len() <= (i32::MAX
        - FIRST_SYNTH_ID) as usize && t.group_order.len() <= (i32::MAX - FIRST_GROUP_ID) as usize
}

/// `p` is the plan of `t` whose nodes planned to `st`: the patch id, the
/// synths and controls, one group per compiled group counted from
/// `FIRST_GROUP_ID`, and the SynthDefs used, sorted by name, each with the
/// resource of the first catalog entry using it.
pub open spec fn is_plan_of(p: ScResourcePlan, t: CompiledTopology, st: PlanState) -> bool {
    &&& p.patch_id@ == "patch-v2-"@ + hex_digits(fnv(FNV_OFFSET_BASIS, topology_bytes(t)) as nat, 16)
    &&& p.synths@.map_values(|s: ScSynthPlan| s@) == st.synths
    &&& controls_view(p.controls@) == st.controls
    &&& p.groups@.len() == t.group_order@.len()
    &&& forall|i: int|
        0 <= i < p.groups@.len() ==> (#[trigger] p.groups@[i]).group_key@ == t.group_order@[i].group_id@
            && p.groups@[i].node_id == FIRST_GROUP_ID + i
    &&& names_sorted(p.synthdefs@.map_values(|r: SynthDefResource| r.name@))
    &&& forall|y: Seq<char>|
        #[trigger] st.names.contains(y) <==> p.synthdefs@.map_values(|r: SynthDefResource| r.name@).contains(y)
    &&& forall|i: int| 0 <= i < p.synthdefs@.len() ==> resource_ok(#[trigger] p.synthdefs@[i])
}

fn catalog_entry_for(id: &String) -> (r: Result<NodeCatalogEntry, ScResourcePlanError>)
    ensures
        match r {
            Ok(e) => has_first_entry(id@) && e@ == entry_of(id@),
            Err(x) => !has_first_entry(id@) && x@ == PlanErrorView::UnknownCatalogEntry { node_type_id: id@ },
        },
{
    let r = find_catalog_entry(id.as_str());
    proof {
        match &r {
            Ok(e) => {
                let k = choose|k: int| is_first_entry(catalog_view(), id@, k) && e@ == catalog_view()[k];
                let k2 = choose|k: int| is_first_entry(catalog_view(), id@, k);
                if k < k2 {
                    assert(catalog_view()[k].id != id@);
                } else if k2 < k {
                    assert(catalog_view()[k2].id != id@);
                }
            },
            Err(_) => {
                if has_first_entry(id@) {
                    let k = choose|k: int| is_first_entry(catalog_view(), id@, k);
                    assert(catalog_view()[k].id == id@);
                }
            },
        }
    }
    r
}

proof fn lemma_fold_error_stays(t: CompiledTopology, i: int, k: int)
    requires
        0 <= i <= k,
        plan_fold(t, i) is Err,
    ensures
        plan_fold(t, k) == plan_fold(t, i),
    decreases k - i,
{
    if i < k {
        lemma_fold_error_stays(t, i, k - 1);
    }
}

fn plan_nodes(t: &CompiledTopology, route_bus: &Vec<i64>) -> (r: Result<(Vec<ScSynthPlan>, Vec<ScControlPlan>, Vec<&'static str>), ScResourcePlanError>)
    requires
        bus_indices_fit(t.buses@),
        t.node_launch_order@.len() <= i32::MAX - FIRST_SYNTH_ID,
        t.group_order@.len() <= i32::MAX - FIRST_GROUP_ID,
        route_bus@.len() == t.cv_routes@.len(),
        forall|k: int|
            0 <= k < t.cv_routes@.len() && (#[trigger] t.cv_routes@[k]).signal_type == SignalType::Control
                ==> route_bus@[k] == control_bus(t.cv_routes@, k),
    ensures
        match plan_fold(*t, t.node_launch_order@.len() as int) {
            Err(x) => r matches Err(e) && e@ == x,
            Ok(st) => r matches Ok((synths, controls, names)) && {
                &&& synths@.map_values(|s: ScSynthPlan| s@) == st.synths
                &&& controls_view(controls@) == st.controls
                &&& names_sorted(names_view(names@))
                &&& forall|y: Seq<char>| #[trigger] names_view(names@).contains(y) <==> st.names.contains(y)
                &&& forall|q: int| 0 <= q < names@.len() ==> catalog_synthdef((#[trigger] names@[q])@)
            },
        },
{
    let mut next_synth: i32 = FIRST_SYNTH_ID;
    let mut synths: Vec<ScSynthPlan> = Vec::new();
    let mut controls: Vec<ScControlPlan> = Vec::new();
    let mut names: Vec<&'static str> = Vec::new();
    let ghost mut st = initial_plan_state();
    let mut i: usize = 0;
    while i < t.node_launch_order.len()
        invariant
            i <= t.node_launch_order@.len(),
            bus_indices_fit(t.buses@),
            t.node_launch_order@.len() <= i32::MAX - FIRST_SYNTH_ID,
            t.group_order@.len() <= i32::MAX - FIRST_GROUP_ID,
            route_bus@.len() == t.cv_routes@.len(),
            forall|k: int|
                0 <= k < t.cv_routes@.len() && (#[trigger] t.cv_routes@[k]).signal_type == SignalType::Control
                    ==> route_bus@[k] == control_bus(t.cv_routes@, k),
            plan_fold(*t, i as int) == Ok::<PlanState, PlanErrorView>(st),
            next_synth as int == st.next_synth,
            st.next_synth <= FIRST_SYNTH_ID + i,
            synths@.map_values(|s: ScSynthPlan| s@) == st.synths,
            controls_view(controls@) == st.controls,
            names_sorted(names_view(names@)),
            forall|y: Seq<char>| #[trigger] names_view(names@).contains(y) <==> st.names.contains(y),
            forall|q: int| 0 <= q < names@.len() ==> catalog_synthdef((#[trigger] names@[q])@),
        decreases t.node_launch_order.len() - i,
    {
        let n = &t.node_launch_order[i];
        assert(t.node_launch_order@[i as int] == *n);
        let (e, g, args) = match plan_one_node(t, &route_bus, n, next_synth, &mut controls) {
            Ok(x) => x,
            Err(x) => {
                proof {
                    lemma_fold_error_stays(*t, i as int + 1, t.node_launch_order@.len() as int);
                }
                return Err(x);
            },
        };
        let ghost ctl = st.controls + param_controls(*n, e@, st.next_synth as i32);
        if e.synthdef_name.is_empty() {
            proof {
                st = PlanState { next_synth: st.next_synth, synths: st.synths, controls: ctl, names: st.names };
            }
        } else {
            let ghost old_names = names@;
            insert_name(&mut names, e.synthdef_name);
            proof {
                assert forall|q: int| 0 <= q < names@.len() implies catalog_synthdef((#[trigger] names@[q])@) by {
                    if old_names.contains(names@[q]) {
                        let w = choose|w: int| 0 <= w < old_names.len() && old_names[w] == names@[q];
                        assert(catalog_synthdef(old_names[w]@));
                    } else {
                        let k = choose|k: int| is_first_entry(catalog_view(), n.node_type_id@, k);
                        assert(catalog_view()[k].synthdef_name == e@.synthdef_name);
                    }
                }
            }
            let ghost sv = SynthView {
                node_key: n.node_id@,
                node_id: next_synth,
                synthdef_name: e@.synthdef_name,
                group_key: n.group_id@,
                group_node_id: g,
                args: node_args(*t, *n),
            };
            synths.push(ScSynthPlan {
                node_key: n.node_id.clone(),
                node_id: next_synth,
                synthdef_name: e.synthdef_name,
                group_key: n.group_id.clone(),
                group_node_id: g,
                args,
            });
            assert(synths@.map_values(|s: ScSynthPlan| s@) =~= st.synths.push(sv));
            next_synth = next_synth + 1;
            proof {
                st = PlanState {
                    next_synth: st.next_synth + 1,
                    synths: st.synths.push(sv),
                    controls: ctl,
                    names: st.names.insert(e@.synthdef_name),
                };
            }
        }
        i = i + 1;
    }
    Ok((synths, controls, names))
}

fn synthdef_resources(names: &Vec<&'static str>) -> (r: Vec<SynthDefResource>)
    requires
        forall|q: int| 0 <= q < names@.len() ==> catalog_synthdef((#[trigger] names@[q])@),
    ensures
        r@.map_values(|d: SynthDefResource| d.name@) == names_view(names@),
        forall|i: int| 0 <= i < r@.len() ==> resource_ok(#[trigger] r@[i]),
{
    let cat = catalog();
    let mut synthdefs: Vec<SynthDefResource> = Vec::new();
    let mut k: usize = 0;
    while k < names.len()
        invariant
            k <= names@.len(),
            cat@.map_values(|e: NodeCatalogEntry| e@) == catalog_view(),
            forall|q: int| 0 <= q < names@.len() ==> catalog_synthdef((#[trigger] names@[q])@),
            synthdefs@.len() == k,
            forall|q: int| 0 <= q < k ==> (#[trigger] synthdefs@[q]).name@ == names@[q]@,
            forall|q: int| 0 <= q < k ==> resource_ok(#[trigger] synthdefs@[q]),
        decreases names.len() - k,
    {
        let d = resource_for_name(&cat, names[k]);
        synthdefs.push(d);
        k = k + 1;
    }
    assert(synthdefs@.map_values(|r: SynthDefResource| r.name@) =~= names_view(names@));
    synthdefs
}

/// Plans the SuperCollider resources of a compiled topology.
#[verifier::rlimit(40)]
pub fn plan_sc_resources(t: &CompiledTopology) -> (r: Result<ScResourcePlan, ScResourcePlanError>)
    requires
        bus_indices_fit(t.buses@),
        t.cv_routes@.len() <= u32::MAX - FIRST_CONTROL_BUS_OFFSET,
        t.node_launch_order@.len() <= i32::MAX - FIRST_SYNTH_ID,
        t.group_order@.len() <= i32::MAX - FIRST_GROUP_ID,
    ensures
        match first_bus_error(t.buses@, 0) {
            Some(x) => r matches Err(e) && e@ == x,
            None => match first_group_error(t.group_order@, 0) {
                Some(x) => r matches Err(e) && e@ == x,
                None => match plan_fold(*t, t.node_launch_order@.len() as int) {
                    Err(x) => r matches Err(e) && e@ == x,
                    Ok(st) => r matches Ok(p) && is_plan_of(p, *t, st),
                },
            },
        },
{
    check_buses(&t.buses)?;
    check_groups(&t.group_order)?;
    let route_bus = plan_control_buses(&t.cv_routes);
    let (synths, controls, names) = match plan_nodes(t, &route_bus) {
        Ok(x) => x,
        Err(e) => {
            return Err(e);
        },
    };
    let synthdefs = synthdef_resources(&names);
    let mut groups: Vec<ScGroupPlan> = Vec::new();
    let mut j: usize = 0;
    while j < t.group_order.len()
        invariant
            j <= t.group_order@.len(),
            t.group_order@.len() <= i32::MAX - FIRST_GROUP_ID,
            groups@.len() == j,
            forall|q: int|
                0 <= q < j ==> (#[trigger] groups@[q]).group_key@ == t.group_order@[q].group_id@ && groups@[q].node_id
                    == FIRST_GROUP_ID + q,
        decreases t.group_order.len() - j,
    {
        groups.push(ScGroupPlan { group_key: t.group_order[j].group_id.clone(), node_id: FIRST_GROUP_ID + j as i32 });
        j = j + 1;
    }
    let mut patch_id = "patch-v2-".to_owned();
    let fp = topology_fingerprint(t);
    patch_id.append(fp.as_str());
    Ok(ScResourcePlan { patch_id, synthdefs, groups, synths, controls })
}

/// What a load reports for a topology past the planner's limits.
pub open spec fn load_limits_text() -> Seq<char> {
    "Topology apply failure before contacting scsynth: topology exceeds the planner's limits"@
}

/// Plans `t` for loading into the engine: the plan, or the text the load
/// reports when the topology is past the planner's limits or planning
/// fails, before the engine is contacted.
pub fn plan_for_load(t: &CompiledTopology) -> (r: Result<ScResourcePlan, String>)
    ensures
        !within_planner_limits(*t) ==> (r matches Err(m) && m@ == load_limits_text()),
        within_planner_limits(*t) ==> match first_bus_error(t.buses@, 0) {
            Some(x) => r matches Err(m) && m@ == load_plan_failure_text(x),
            None => match first_group_error(t.group_order@, 0) {
                Some(x) => r matches Err(m) && m@ == load_plan_failure_text(x),
                None => match plan_fold(*t, t.node_launch_order@.len() as int) {
                    Err(x) => r matches Err(m) && m@ == load_plan_failure_text(x),
                    Ok(st) => r matches Ok(p) && is_plan_of(p, *t, st),
                },
            },
        },
{
    if !fits_planner_limits(t) {
        return Err("Topology apply failure before contacting scsynth: topology exceeds the planner's limits".to_owned());
    }
    match plan_sc_resources(t) {
        Ok(p) => Ok(p),
        Err(e) => {
            let m = e.message();
            let mut s = "Topology apply failure before contacting scsynth: ".to_owned();
            s.append(m.as_str());
            Err(s)
        },
    }
}


// ---------------------------------------------------------------------------
// Laws of the plan
// ---------------------------------------------------------------------------

proof fn lemma_control_keys_prefix(routes: Seq<CompiledCvRoute>, a: int, b: int)
    requires
        0 <= a <= b <= routes.len(),
    ensures
        control_keys(routes.take(a)).len() <= control_keys(routes.take(b)).len(),
        control_keys(routes.take(b)).take(control_keys(routes.take(a)).len() as int) == control_keys(routes.take(a)),
    decreases b - a,
{
    if a < b {
        lemma_control_keys_prefix(routes, a, b - 1);
        assert(routes.take(b).drop_last() =~= routes.take(b - 1));
        let ka = control_keys(routes.take(a));
        let kb1 = control_keys(routes.take(b - 1));
        let kb = control_keys(routes.take(b));
        assert(kb.take(ka.len() as int) =~= kb1.take(ka.len() as int));
    } else {
        let ka = control_keys(routes.take(a));
        assert(ka.take(ka.len() as int) =~= ka);
    }
}

/// Control-rate routes share a control bus exactly when they leave the same
/// source output; every control bus lies in the control range.
pub proof fn lemma_control_bus_per_source(routes: Seq<CompiledCvRoute>, k1: int, k2: int)
    requires
        routes.len() <= u32::MAX - FIRST_CONTROL_BUS_OFFSET,
        0 <= k1 < routes.len(),
        0 <= k2 < routes.len(),
        routes[k1].signal_type == SignalType::Control,
        routes[k2].signal_type == SignalType::Control,
    ensures
        control_bus(routes, k1) >= FIRST_CONTROL_BUS_OFFSET,
        (control_bus(routes, k1) == control_bus(routes, k2)) <==> (cv_key(routes[k1]) == cv_key(routes[k2])),
{
    if k1 <= k2 {
        lemma_control_bus_ordered(routes, k1, k2);
    } else {
        lemma_control_bus_ordered(routes, k2, k1);
    }
}

proof fn lemma_control_bus_ordered(routes: Seq<CompiledCvRoute>, k1: int, k2: int)
    requires
        routes.len() <= u32::MAX - FIRST_CONTROL_BUS_OFFSET,
        0 <= k1 <= k2 < routes.len(),
        routes[k1].signal_type == SignalType::Control,
        routes[k2].signal_type == SignalType::Control,
    ensures
        control_bus(routes, k1) >= FIRST_CONTROL_BUS_OFFSET,
        control_bus(routes, k2) >= FIRST_CONTROL_BUS_OFFSET,
        (control_bus(routes, k1) == control_bus(routes, k2)) <==> (cv_key(routes[k1]) == cv_key(routes[k2])),
{
    let ks1 = control_keys(routes.take(k1 + 1));
    let ks2 = control_keys(routes.take(k2 + 1));
    let key1 = cv_key(routes[k1]);
    let key2 = cv_key(routes[k2]);
    lemma_control_keys_contains(routes, k1);
    lemma_control_keys_contains(routes, k2);
    lemma_control_keys_prefix(routes, k1 + 1, k2 + 1);
    lemma_control_keys_distinct(routes.take(k1 + 1));
    lemma_control_keys_distinct(routes.take(k2 + 1));
    lemma_control_keys_distinct(routes);
    let i1 = ks1.index_of(key1);
    let i2 = ks2.index_of(key2);
    assert(0 <= i1 < ks1.len() && ks1[i1] == key1);
    assert(0 <= i2 < ks2.len() && ks2[i2] == key2);
    assert(ks2[i1] == ks2.take(ks1.len() as int)[i1]);
    assert(ks2[i1] == key1);
    assert(routes.take(k2 + 1).len() <= routes.len());
    if key1 == key2 {
        assert(i2 == i1);
    } else {
        assert(i2 != i1);
    }
}

/// Planned synths get consecutive node ids from `FIRST_SYNTH_ID`, in launch
/// order.
pub proof fn lemma_synth_ids_consecutive(t: CompiledTopology, k: int)
    requires
        0 <= k <= t.node_launch_order@.len(),
        t.node_launch_order@.len() <= i32::MAX - FIRST_SYNTH_ID,
        plan_fold(t, k) is Ok,
    ensures
        plan_fold(t, k)->Ok_0.next_synth == FIRST_SYNTH_ID + plan_fold(t, k)->Ok_0.synths.len(),
        plan_fold(t, k)->Ok_0.synths.len() <= k,
        forall|i: int|
            0 <= i < plan_fold(t, k)->Ok_0.synths.len() ==> (#[trigger] plan_fold(t, k)->Ok_0.synths[i]).node_id
                == FIRST_SYNTH_ID + i,
    decreases k,
{
    if k > 0 {
        lemma_synth_ids_consecutive(t, k - 1);
    }
}


/// The node keys of the synths planned for `launches`: the launched nodes
/// whose catalog entry names a SynthDef, in launch order.
pub open spec fn synth_node_keys(launches: Seq<CompiledNodeLaunch>) -> Seq<Seq<char>>
    decreases launches.len(),
{
    if launches.len() == 0 {
        Seq::empty()
    } else {
        let rest = synth_node_keys(launches.drop_last());
        if entry_of(launches.last().node_type_id@).synthdef_name.len() == 0 {
            rest
        } else {
            rest.push(launches.last().node_id@)
        }
    }
}

/// The SynthDef of some planned synth is `y`.
pub open spec fn some_synth_uses(synths: Seq<SynthView>, y: Seq<char>) -> bool {
    exists|i: int| 0 <= i < synths.len() && (#[trigger] synths[i]).synthdef_name == y
}

/// Planning the first `k` launched nodes plans a synth for exactly those
/// whose entry names a SynthDef, in launch order, and collects exactly the
/// SynthDefs of those synths.
pub proof fn lemma_plan_fold_synths(t: CompiledTopology, k: int)
    requires
        0 <= k <= t.node_launch_order@.len(),
        plan_fold(t, k) is Ok,
    ensures
        plan_fold(t, k)->Ok_0.synths.map_values(|s: SynthView| s.node_key) == synth_node_keys(
            t.node_launch_order@.take(k),
        ),
        forall|y: Seq<char>|
            #[trigger] plan_fold(t, k)->Ok_0.names.contains(y) <==> some_synth_uses(plan_fold(t, k)->Ok_0.synths, y),
    decreases k,
{
    if k > 0 {
        if plan_fold(t, k - 1) is Err {
            assert(plan_fold(t, k) is Err);
        }
        lemma_plan_fold_synths(t, k - 1);
        let prev = plan_fold(t, k - 1)->Ok_0;
        let st = plan_fold(t, k)->Ok_0;
        assert(t.node_launch_order@.take(k).drop_last() =~= t.node_launch_order@.take(k - 1));
        assert(t.node_launch_order@.take(k).last() == t.node_launch_order@[k - 1]);
        let n = t.node_launch_order@[k - 1];
        let e = entry_of(n.node_type_id@);
        if e.synthdef_name.len() == 0 {
            assert(st.synths == prev.synths);
        } else {
            assert(st.synths.map_values(|s: SynthView| s.node_key) =~= prev.synths.map_values(
                |s: SynthView| s.node_key,
            ).push(n.node_id@));
            assert forall|y: Seq<char>| #[trigger] st.names.contains(y) <==> some_synth_uses(st.synths, y) by {
                if st.names.contains(y) {
                    if y == e.synthdef_name {
                        assert(st.synths[st.synths.len() - 1].synthdef_name == y);
                    } else {
                        assert(prev.names.contains(y));
                        let i = choose|i: int| 0 <= i < prev.synths.len() && (#[trigger] prev.synths[i]).synthdef_name == y;
                        assert(st.synths[i] == prev.synths[i]);
                    }
                }
                if some_synth_uses(st.synths, y) {
                    let i = choose|i: int| 0 <= i < st.synths.len() && (#[trigger] st.synths[i]).synthdef_name == y;
                    if i < prev.synths.len() {
                        assert(st.synths[i] == prev.synths[i]);
                        assert(some_synth_uses(prev.synths, y));
                    }
                }
            }
        }
    } else {
        assert(t.node_launch_order@.take(0) =~= Seq::<CompiledNodeLaunch>::empty());
        assert(plan_fold(t, 0)->Ok_0.synths.map_values(|s: SynthView| s.node_key) =~= Seq::<Seq<char>>::empty());
    }
}

/// Every synth planned for the first `k` launched nodes is placed in a
/// compiled group: the first with its group key, whose node id it carries.
proof fn lemma_plan_fold_groups(t: CompiledTopology, k: int)
    requires
        0 <= k <= t.node_launch_order@.len(),
        plan_fold(t, k) is Ok,
    ensures
        forall|i: int|
            0 <= i < plan_fold(t, k)->Ok_0.synths.len() ==> has_id(
                t.group_order@,
                (#[trigger] plan_fold(t, k)->Ok_0.synths[i]).group_key,
            ) && plan_fold(t, k)->Ok_0.synths[i].group_node_id == group_node(
                t.group_order@,
                plan_fold(t, k)->Ok_0.synths[i].group_key,
            )->Some_0,
    decreases k,
{
    if k > 0 {
        if plan_fold(t, k - 1) is Err {
            assert(plan_fold(t, k) is Err);
        }
        lemma_plan_fold_groups(t, k - 1);
        let prev = plan_fold(t, k - 1)->Ok_0;
        let st = plan_fold(t, k)->Ok_0;
        assert forall|i: int| 0 <= i < st.synths.len() implies has_id(t.group_order@, (#[trigger] st.synths[i]).group_key)
            && st.synths[i].group_node_id == group_node(t.group_order@, st.synths[i].group_key)->Some_0 by {
            if i < prev.synths.len() {
                assert(st.synths[i] == prev.synths[i]);
            }
        }
    }
}

/// Each synth of a resource plan is placed in a compiled group: the first
/// with the synth's group key, whose node id (`FIRST_GROUP_ID` plus its
/// position, as the plan's groups are numbered) the synth carries.
pub proof fn lemma_plan_synths_in_groups(p: ScResourcePlan, t: CompiledTopology, st: PlanState)
    requires
        plan_fold(t, t.node_launch_order@.len() as int) == Ok::<PlanState, PlanErrorView>(st),
        p.synths@.map_values(|s: ScSynthPlan| s@) == st.synths,
        t.group_order@.len() <= i32::MAX - FIRST_GROUP_ID,
    ensures
        forall|i: int|
            0 <= i < p.synths@.len() ==> has_id(t.group_order@, (#[trigger] p.synths@[i]).group_key@)
                && p.synths@[i].group_node_id == FIRST_GROUP_ID + first_id(t.group_order@, p.synths@[i].group_key@),
{
    lemma_plan_fold_groups(t, t.node_launch_order@.len() as int);
    assert forall|i: int| 0 <= i < p.synths@.len() implies has_id(t.group_order@, (#[trigger] p.synths@[i]).group_key@)
        && p.synths@[i].group_node_id == FIRST_GROUP_ID + first_id(t.group_order@, p.synths@[i].group_key@) by {
        assert(p.synths@.map_values(|s: ScSynthPlan| s@)[i] == st.synths[i]);
        let key = st.synths[i].group_key;
        assert(has_id(t.group_order@, key));
        crate::lookup::lemma_first_id_exists(t.group_order@, key);
        let g = first_id(t.group_order@, key);
        assert(0 <= g < t.group_order@.len());
    }
}

/// A resource plan's synths are the launched nodes whose entry names a
/// SynthDef, in launch order; its SynthDefs are exactly those its synths
/// use, strictly ascending by name, each with the resource of the first
/// catalog entry using it; its groups are the compiled groups, in order,
/// numbered from `FIRST_GROUP_ID`.
pub proof fn lemma_plan_synths_follow_launches(p: ScResourcePlan, t: CompiledTopology, st: PlanState)
    requires
        plan_fold(t, t.node_launch_order@.len() as int) == Ok::<PlanState, PlanErrorView>(st),
        is_plan_of(p, t, st),
    ensures
        p.synths@.map_values(|s: ScSynthPlan| s.node_key@) == synth_node_keys(t.node_launch_order@),
        forall|y: Seq<char>|
            p.synthdefs@.map_values(|r: SynthDefResource| r.name@).contains(y) <==> some_synth_uses(st.synths, y),
        names_sorted(p.synthdefs@.map_values(|r: SynthDefResource| r.name@)),
        forall|i: int| 0 <= i < p.synthdefs@.len() ==> resource_ok(#[trigger] p.synthdefs@[i]),
        p.groups@.len() == t.group_order@.len(),
        forall|i: int|
            0 <= i < p.groups@.len() ==> (#[trigger] p.groups@[i]).group_key@ == t.group_order@[i].group_id@
                && p.groups@[i].node_id == FIRST_GROUP_ID + i,
{
    let n = t.node_launch_order@.len() as int;
    lemma_plan_fold_synths(t, n);
    assert(t.node_launch_order@.take(n) =~= t.node_launch_order@);
    assert(p.synths@.map_values(|s: ScSynthPlan| s.node_key@) =~= st.synths.map_values(|s: SynthView| s.node_key)) by {
        assert forall|i: int| 0 <= i < p.synths@.len() implies (#[trigger] p.synths@[i]).node_key@
            == st.synths[i].node_key by {
            assert(p.synths@.map_values(|s: ScSynthPlan| s@)[i] == st.synths[i]);
        }
    }
    assert forall|y: Seq<char>|
        p.synthdefs@.map_values(|r: SynthDefResource| r.name@).contains(y) <==> some_synth_uses(st.synths, y) by {
        assert(st.names.contains(y) <==> p.synthdefs@.map_values(|r: SynthDefResource| r.name@).contains(y));
    }
}


/// `name` is one of the audio bus arguments: `out_bus`, `in_bus`, or a
/// mixer input `in_bus_1` ... `in_bus_8`.
pub open spec fn names_audio_bus(name: Seq<char>) -> bool {
    name == "out_bus"@ || name == "in_bus"@ || exists|i: int| 0 <= i < 8 && name == mixer_slot_name(i)
}

/// `v` is the SuperCollider index of one of the topology's buses: past the
/// hardware outputs, never one of them.
pub open spec fn is_session_bus_slot(buses: Seq<CompiledBus>, v: i64) -> bool {
    exists|b: int| 0 <= b < buses.len() && v == HARDWARE_AUDIO_BUS_OFFSET + (#[trigger] buses[b]).index
}

proof fn lemma_not_bus_name(name: Seq<char>)
    requires
        name.len() != 6 && name.len() != 7 && (name.len() != 8 || name[0] != 'i'),
    ensures
        !names_audio_bus(name),
{
    reveal_strlit("in_bus_");
    reveal_strlit("out_bus");
    reveal_strlit("in_bus");
    assert("out_bus"@.len() == 7);
    assert("in_bus"@.len() == 6);
    assert forall|i: int| 0 <= i < 8 implies name != #[trigger] mixer_slot_name(i) by {
        assert(mixer_slot_name(i).len() == 8);
        assert(mixer_slot_name(i)[0] == "in_bus_"@[0]);
    }
}

proof fn lemma_bus_slot_is_session_bus(buses: Seq<CompiledBus>, id: Seq<char>)
    requires
        bus_slot(buses, id) is Some,
    ensures
        is_session_bus_slot(buses, bus_slot(buses, id)->Some_0),
{
    crate::lookup::lemma_first_id_exists(buses, id);
    let b = first_id(buses, id);
    assert(buses[b] == find_id(buses, id));
}

proof fn lemma_mixer_inputs_known(n: CompiledNodeLaunch, buses: Seq<CompiledBus>, i: int)
    requires
        0 <= i,
        mixer_error(n, buses, i) is None,
    ensures
        forall|j: int| i <= j < n.input_bus_ids@.len() ==> #[trigger] bus_slot(buses, n.input_bus_ids@[j]@) is Some,
    decreases n.input_bus_ids@.len() - i,
{
    if i < n.input_bus_ids@.len() {
        lemma_mixer_inputs_known(n, buses, i + 1);
    }
}

/// Every audio bus argument that a node's bus arguments set (other than an
/// unused mixer input, `-1`) is the index of one of the topology's buses,
/// so no node reads or writes the hardware buses directly.
pub proof fn lemma_bus_args_are_session_buses(n: CompiledNodeLaunch, e: EntryView, buses: Seq<CompiledBus>)
    requires
        category_args(n, e, buses) is Ok,
    ensures
        forall|k: int|
            0 <= k < category_args(n, e, buses)->Ok_0.len() && names_audio_bus(
                (#[trigger] category_args(n, e, buses)->Ok_0[k]).0,
            ) ==> match category_args(n, e, buses)->Ok_0[k].1 {
                ScArgValue::Int(v) => v == -1 || is_session_bus_slot(buses, v),
                _ => false,
            },
{
    reveal_strlit("out_bus");
    reveal_strlit("in_bus");
    reveal_strlit("in_bus_");
    reveal_strlit("bypassed");
    reveal_strlit("input_count");
    reveal_strlit("hardware_out");
    reveal_strlit("channels");
    let args = category_args(n, e, buses)->Ok_0;
    match n.output_bus_id {
        Some(b) => if bus_slot(buses, b@) is Some {
            lemma_bus_slot_is_session_bus(buses, b@);
        },
        None => {},
    }
    if n.input_bus_ids@.len() > 0 && bus_slot(buses, n.input_bus_ids@[0]@) is Some {
        lemma_bus_slot_is_session_bus(buses, n.input_bus_ids@[0]@);
    }
    if e.category == NodeCategory::Mixer {
        lemma_mixer_inputs_known(n, buses, 0);
        assert forall|j: int| 0 <= j < n.input_bus_ids@.len() implies is_session_bus_slot(
            buses,
            #[trigger] bus_slot(buses, n.input_bus_ids@[j]@)->Some_0,
        ) by {
            assert(bus_slot(buses, n.input_bus_ids@[j]@) is Some);
            lemma_bus_slot_is_session_bus(buses, n.input_bus_ids@[j]@);
        }
    }
    assert(output_bus_spec(n, buses) matches Ok(o) ==> is_session_bus_slot(buses, o));
    assert(first_input_spec(n, buses) matches Ok(i) ==> is_session_bus_slot(buses, i));
    assert(output_in_spec(n, buses) matches Ok(i) ==> is_session_bus_slot(buses, i));
    assert forall|i: int| 0 <= i < 8 && e.category == NodeCategory::Mixer implies match (
    #[trigger] mixer_slots(n, buses)[i]).1 {
        ScArgValue::Int(v) => v == -1 || is_session_bus_slot(buses, v),
        _ => false,
    } by {
        if i < n.input_bus_ids@.len() {
            assert(is_session_bus_slot(buses, bus_slot(buses, n.input_bus_ids@[i]@)->Some_0));
        }
    }
    assert forall|i: int| 0 <= i < 8 implies (#[trigger] mixer_slot_name(i)).len() == 8 && mixer_slot_name(i)[0]
        == 'i' by {}
    assert forall|k: int|
        0 <= k < args.len() && names_audio_bus((#[trigger] args[k]).0) implies match args[k].1 {
        ScArgValue::Int(v) => v == -1 || is_session_bus_slot(buses, v),
        _ => false,
    } by {
        match e.category {
            NodeCategory::Source => {
                assert(args[k].1 == ScArgValue::Int(output_bus_spec(n, buses)->Ok_0));
            },
            NodeCategory::Effect => {
                assert(k == 0 || k == 1 || k == 2);
                if k == 2 {
                    assert(args[k].0 == "bypassed"@);
                    lemma_not_bus_name("bypassed"@);
                }
            },
            NodeCategory::Mixer => {
                if k >= 2 {
                    let i = k - 2;
                    assert(args[k] == mixer_slots(n, buses)[i]);
                } else if k == 1 {
                    assert(args[k].0 == "input_count"@);
                    lemma_not_bus_name("input_count"@);
                }
            },
            NodeCategory::Output => {
                if k == 1 {
                    lemma_not_bus_name("hardware_out"@);
                } else if k == 2 {
                    lemma_not_bus_name("channels"@);
                }
            },
            _ => {},
        }
    }
}

} // verus!
