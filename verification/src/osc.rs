//! OSC packets as plain values: decoding the bytes of a UDP datagram,
//! encoding a message, reading the messages of a packet (bundles
//! included) as learn events, and recognising the server's `/synced`
//! reply. Real arguments travel as bit patterns.
use vstd::prelude::*;

verus! {

/// A received OSC argument as plain values: reals as their bit patterns;
/// every other kind of argument is `Other`.
#[derive(Debug, PartialEq)]
pub enum OscValue {
    Int(i32),
    /// `f32` bit pattern.
    Float(u32),
    /// `f64` bit pattern.
    Double(u64),
    Str(String),
    Other,
}

/// An OSC argument to send that holds no real: an integer, a string or a
/// blob.
#[derive(Debug, PartialEq)]
pub enum OscPlainArg {
    Int(i32),
    Str(String),
    Blob(Vec<u8>),
}

/// An OSC packet as plain values.
#[derive(Debug, PartialEq)]
pub enum OscPacketView {
    Message { address: String, args: Vec<OscValue> },
    Bundle(Vec<OscPacketView>),
}

#[verifier::external_type_specification]
#[verifier::external_body]
pub struct ExOscPacket(rosc::OscPacket);

/// What `rosc::decoder::decode_udp` makes of a datagram: the packet, or
/// the text of its error.
pub uninterp spec fn osc_decoding(bytes: Seq<u8>) -> Result<OscPacketView, String>;

/// The bytes `rosc::encoder::encode` writes for a message to `address`
/// with these arguments.
pub uninterp spec fn osc_encoding(address: Seq<char>, args: Seq<OscPlainArg>) -> Seq<u8>;

/// The packet as plain values: each message's address and arguments,
/// each bundle's packets in order.
#[verifier::external_body]
fn packet_view(p: &rosc::OscPacket) -> OscPacketView {
    match p {
        rosc::OscPacket::Message(m) => OscPacketView::Message {
            address: m.addr.clone(),
            args: m.args.iter().map(|a| match a {
                rosc::OscType::Int(i) => OscValue::Int(*i),
                rosc::OscType::Float(x) => OscValue::Float(x.to_bits()),
                rosc::OscType::Double(x) => OscValue::Double(x.to_bits()),
                rosc::OscType::String(x) => OscValue::Str(x.clone()),
                _ => OscValue::Other,
            }).collect(),
        },
        rosc::OscPacket::Bundle(b) => OscPacketView::Bundle(b.content.iter().map(packet_view).collect()),
    }
}

/// Decodes one datagram (`rosc::decoder::decode_udp`): the packet it
/// holds, or the decoder's error text. The result depends on the bytes
/// alone.
#[verifier::external_body]
pub fn decode_osc(bytes: &[u8]) -> (r: Result<OscPacketView, String>)
    ensures
        r == osc_decoding(bytes@),
{
    match rosc::decoder::decode_udp(bytes) {
        Ok((_, packet)) => Ok(packet_view(&packet)),
        Err(err) => Err(err.to_string()),
    }
}

/// Encodes a message whose arguments hold no real
/// (`rosc::encoder::encode`); its bytes depend on the address and
/// arguments alone.
#[verifier::external_body]
pub fn encode_osc_message(address: &str, args: &Vec<OscPlainArg>) -> (r: Result<Vec<u8>, String>)
    ensures
        r is Ok,
        r->Ok_0@ == osc_encoding(address@, args@),
{
    let args = args.iter().map(|a| match a {
        OscPlainArg::Int(i) => rosc::OscType::Int(*i),
        OscPlainArg::Str(s) => rosc::OscType::String(s.clone()),
        OscPlainArg::Blob(b) => rosc::OscType::Blob(b.clone()),
    }).collect();
    let packet = rosc::OscPacket::Message(rosc::OscMessage { addr: address.to_string(), args });
    rosc::encoder::encode(&packet).map_err(|err| err.to_string())
}

// ---------------------------------------------------------------------------
// Learn events
// ---------------------------------------------------------------------------

/// The numeric first argument of a message, as sent.
#[derive(Debug, PartialEq, Eq, Structural)]
pub enum OscNumber {
    Int(i32),
    /// `f32` bit pattern.
    Float(u32),
    /// `f64` bit pattern.
    Double(u64),
}

/// The messages of a packet in order, bundles flattened: each one's
/// address and arguments.
pub open spec fn packet_messages(p: OscPacketView) -> Seq<(String, Seq<OscValue>)>
    decreases p,
{
    match p {
        OscPacketView::Message { address, args } => seq![(address, args@)],
        OscPacketView::Bundle(content) => messages_of_all(content@),
    }
}

pub open spec fn messages_of_all(ps: Seq<OscPacketView>) -> Seq<(String, Seq<OscValue>)>
    decreases ps,
{
    if ps.len() == 0 {
        Seq::empty()
    } else {
        messages_of_all(ps.subrange(0, ps.len() - 1)) + packet_messages(ps[ps.len() - 1])
    }
}

/// The first argument of a message, when it is a number.
pub open spec fn first_number(args: Seq<OscValue>) -> Option<OscNumber> {
    if args.len() == 0 {
        None
    } else {
        match args[0] {
            OscValue::Int(i) => Some(OscNumber::Int(i)),
            OscValue::Float(b) => Some(OscNumber::Float(b)),
            OscValue::Double(b) => Some(OscNumber::Double(b)),
            _ => None,
        }
    }
}

/// `evs` are the learn events of `msgs`: one per message, in order, with
/// its address and, when its first argument is a number, that number as
/// a real (an `f64` bit pattern) by `to_real`.
pub open spec fn learn_events_of<F: Fn(OscNumber) -> u64>(
    evs: Seq<(String, Option<u64>)>,
    msgs: Seq<(String, Seq<OscValue>)>,
    to_real: F,
) -> bool {
    &&& evs.len() == msgs.len()
    &&& forall|k: int|
        0 <= k < evs.len() ==> {
            &&& (#[trigger] evs[k]).0 == msgs[k].0
            &&& match first_number(msgs[k].1) {
                Some(n) => evs[k].1 matches Some(v) && to_real.ensures((n,), v),
                None => evs[k].1 is None,
            }
        }
}

fn first_number_of(args: &Vec<OscValue>) -> (r: Option<OscNumber>)
    ensures
        r == first_number(args@),
{
    if args.len() == 0 {
        return None;
    }
    match &args[0] {
        OscValue::Int(i) => Some(OscNumber::Int(*i)),
        OscValue::Float(b) => Some(OscNumber::Float(*b)),
        OscValue::Double(b) => Some(OscNumber::Double(*b)),
        _ => None,
    }
}

proof fn lemma_learn_events_append<F: Fn(OscNumber) -> u64>(
    a: Seq<(String, Option<u64>)>,
    ma: Seq<(String, Seq<OscValue>)>,
    b: Seq<(String, Option<u64>)>,
    mb: Seq<(String, Seq<OscValue>)>,
    to_real: F,
)
    requires
        learn_events_of(a, ma, to_real),
        learn_events_of(b, mb, to_real),
    ensures
        learn_events_of(a + b, ma + mb, to_real),
{
    assert forall|k: int| 0 <= k < (a + b).len() implies {
        &&& (#[trigger] (a + b)[k]).0 == (ma + mb)[k].0
        &&& match first_number((ma + mb)[k].1) {
            Some(n) => (a + b)[k].1 matches Some(v) && to_real.ensures((n,), v),
            None => (a + b)[k].1 is None,
        }
    } by {
        if k < a.len() {
            assert((a + b)[k] == a[k]);
            assert((ma + mb)[k] == ma[k]);
        } else {
            assert((a + b)[k] == b[k - a.len()]);
            assert((ma + mb)[k] == mb[k - a.len()]);
        }
    }
}

fn push_learn_events<F: Fn(OscNumber) -> u64>(p: &OscPacketView, to_real: &F, out: &mut Vec<(String, Option<u64>)>)
    requires
        forall|n: OscNumber| to_real.requires((n,)),
    ensures
        exists|added: Seq<(String, Option<u64>)>|
            final(out)@ == old(out)@ + added && learn_events_of(added, packet_messages(*p), *to_real),
    decreases p,
{
    match p {
        OscPacketView::Message { address, args } => {
            let value = match first_number_of(args) {
                Some(n) => Some(to_real(n)),
                None => None,
            };
            let ev = (address.clone(), value);
            let ghost before = out@;
            out.push(ev);
            proof {
                let added = seq![ev];
                assert(out@ =~= before + added);
                assert(learn_events_of(added, packet_messages(*p), *to_real));
            }
        },
        OscPacketView::Bundle(content) => {
            let ghost out0 = out@;
            let mut i: usize = 0;
            proof {
                assert(content@.subrange(0, 0) =~= Seq::<OscPacketView>::empty());
                assert(out@ =~= out0 + Seq::<(String, Option<u64>)>::empty());
                assert(learn_events_of(Seq::<(String, Option<u64>)>::empty(), messages_of_all(content@.subrange(0, 0)), *to_real));
            }
            while i < content.len()
                invariant
                    i <= content@.len(),
                    *p == OscPacketView::Bundle(*content),
                    forall|n: OscNumber| to_real.requires((n,)),
                    exists|added: Seq<(String, Option<u64>)>|
                        out@ == out0 + added && learn_events_of(
                            added,
                            messages_of_all(content@.subrange(0, i as int)),
                            *to_real,
                        ),
                decreases content.len() - i,
            {
                let ghost added0 = choose|added: Seq<(String, Option<u64>)>|
                    out@ == out0 + added && learn_events_of(added, messages_of_all(content@.subrange(0, i as int)), *to_real);
                let ghost mid = out@;
                proof {
                    assert(0 <= i < content@.len());
                    assert(*p == OscPacketView::Bundle(*content));
                    assert(decreases_to!(*p => (*p)->0));
                    assert(decreases_to!(*p => content@[i as int]));
                }
                push_learn_events(&content[i], to_real, out);
                proof {
                    let more = choose|added: Seq<(String, Option<u64>)>|
                        out@ == mid + added && learn_events_of(added, packet_messages(content@[i as int]), *to_real);
                    let sub = content@.subrange(0, i as int + 1);
                    assert(sub.subrange(0, sub.len() - 1) =~= content@.subrange(0, i as int));
                    assert(sub[sub.len() - 1] == content@[i as int]);
                    lemma_learn_events_append(
                        added0,
                        messages_of_all(content@.subrange(0, i as int)),
                        more,
                        packet_messages(content@[i as int]),
                        *to_real,
                    );
                    assert(out@ =~= out0 + (added0 + more));
                }
                i = i + 1;
            }
            proof {
                assert(content@.subrange(0, content@.len() as int) =~= content@);
            }
        },
    }
}

/// The learn events of a packet: one per message, bundles flattened, each
/// with its address and its numeric first argument as a real (by
/// `to_real`), if it has one.
pub fn osc_learn_events<F: Fn(OscNumber) -> u64>(p: &OscPacketView, to_real: &F) -> (r: Vec<(String, Option<u64>)>)
    requires
        forall|n: OscNumber| to_real.requires((n,)),
    ensures
        learn_events_of(r@, packet_messages(*p), *to_real),
{
    let mut out: Vec<(String, Option<u64>)> = Vec::new();
    push_learn_events(p, to_real, &mut out);
    proof {
        let added = choose|added: Seq<(String, Option<u64>)>|
            out@ == Seq::<(String, Option<u64>)>::empty() + added && learn_events_of(added, packet_messages(*p), *to_real);
        assert(out@ =~= added);
    }
    out
}

/// The learn events of one datagram: those of the packet it decodes to,
/// or none when it does not decode.
pub fn osc_datagram_events<F: Fn(OscNumber) -> u64>(bytes: &[u8], to_real: &F) -> (r: Vec<(String, Option<u64>)>)
    requires
        forall|n: OscNumber| to_real.requires((n,)),
    ensures
        match osc_decoding(bytes@) {
            Ok(p) => learn_events_of(r@, packet_messages(p), *to_real),
            Err(_) => r@.len() == 0,
        },
{
    match decode_osc(bytes) {
        Ok(p) => osc_learn_events(&p, to_real),
        Err(_) => Vec::new(),
    }
}

// ---------------------------------------------------------------------------
// Sync replies
// ---------------------------------------------------------------------------

/// What a reply says of a sync.
#[derive(Debug, PartialEq, Eq, Structural)]
pub enum SyncedCheck {
    /// A `/synced` with this sync's id.
    Confirmed,
    /// Nothing about this sync.
    Unrelated,
    /// A `/synced` whose arguments are not a single integer.
    Malformed,
}

/// A message: `/synced` with a single integer confirms the sync with that
/// id; `/synced` with other arguments is malformed; anything else is
/// unrelated. A bundle says what its first element that is not unrelated
/// says, in order.
pub open spec fn synced_check(p: OscPacketView, sync_id: i32) -> SyncedCheck
    decreases p,
{
    match p {
        OscPacketView::Message { address, args } => if address@ != "/synced"@ {
            SyncedCheck::Unrelated
        } else if args@.len() == 1 && args@[0] is Int {
            if args@[0] == OscValue::Int(sync_id) {
                SyncedCheck::Confirmed
            } else {
                SyncedCheck::Unrelated
            }
        } else {
            SyncedCheck::Malformed
        },
        OscPacketView::Bundle(content) => bundle_check(content@, sync_id),
    }
}

pub open spec fn bundle_check(content: Seq<OscPacketView>, sync_id: i32) -> SyncedCheck
    decreases content,
{
    if content.len() == 0 {
        SyncedCheck::Unrelated
    } else {
        match synced_check(content[0], sync_id) {
            SyncedCheck::Unrelated => bundle_check(content.subrange(1, content.len() as int), sync_id),
            other => other,
        }
    }
}

/// What `reply` says of the sync with id `sync_id`.
pub fn check_synced(reply: &OscPacketView, sync_id: i32) -> (r: SyncedCheck)
    ensures
        r == synced_check(*reply, sync_id),
    decreases reply,
{
    match reply {
        OscPacketView::Message { address, args } => {
            let synced = "/synced".to_owned();
            if !address.eq(&synced) {
                SyncedCheck::Unrelated
            } else if args.len() == 1 {
                match &args[0] {
                    OscValue::Int(id) => if *id == sync_id {
                        SyncedCheck::Confirmed
                    } else {
                        SyncedCheck::Unrelated
                    },
                    _ => SyncedCheck::Malformed,
                }
            } else {
                SyncedCheck::Malformed
            }
        },
        OscPacketView::Bundle(content) => {
            let mut i: usize = 0;
            assert(content@.subrange(0, content@.len() as int) =~= content@);
            while i < content.len()
                invariant
                    i <= content@.len(),
                    *reply == OscPacketView::Bundle(*content),
                    synced_check(*reply, sync_id) == bundle_check(content@, sync_id),
                    bundle_check(content@, sync_id) == bundle_check(content@.subrange(i as int, content@.len() as int), sync_id),
                decreases content.len() - i,
            {
                let ghost rest = content@.subrange(i as int, content@.len() as int);
                assert(rest[0] == content@[i as int]);
                assert(rest.subrange(1, rest.len() as int) =~= content@.subrange(i as int + 1, content@.len() as int));
                proof {
                    assert(decreases_to!(*reply => content@[i as int]));
                }
                let c = check_synced(&content[i], sync_id);
                match c {
                    SyncedCheck::Unrelated => {},
                    _ => {
                        return c;
                    },
                }
                i = i + 1;
            }
            SyncedCheck::Unrelated
        },
    }
}

/// What a datagram from the server says of the sync with id `sync_id`, or
/// the decoder's error.
pub fn synced_in(bytes: &[u8], sync_id: i32) -> (r: Result<SyncedCheck, String>)
    ensures
        match osc_decoding(bytes@) {
            Ok(p) => r == Ok::<SyncedCheck, String>(synced_check(p, sync_id)),
            Err(e) => r matches Err(m) && m@ == "OSC decode error: "@ + e@,
        },
{
    match decode_osc(bytes) {
        Ok(p) => Ok(check_synced(&p, sync_id)),
        Err(e) => {
            let mut m = "OSC decode error: ".to_owned();
            m.append(e.as_str());
            Err(m)
        },
    }
}

} // verus!
