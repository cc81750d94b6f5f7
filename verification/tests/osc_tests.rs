use scrysynth::osc::{
    check_synced, decode_osc, encode_osc_message, osc_datagram_events, synced_in, OscNumber, OscPacketView,
    OscPlainArg, OscValue, SyncedCheck,
};

fn encode(packet: &rosc::OscPacket) -> Vec<u8> {
    rosc::encoder::encode(packet).expect("encodes")
}

fn message(addr: &str, args: Vec<rosc::OscType>) -> rosc::OscPacket {
    rosc::OscPacket::Message(rosc::OscMessage { addr: addr.to_string(), args })
}

fn bundle(content: Vec<rosc::OscPacket>) -> rosc::OscPacket {
    rosc::OscPacket::Bundle(rosc::OscBundle { timetag: rosc::OscTime::from((0, 1)), content })
}

fn to_real(n: OscNumber) -> u64 {
    match n {
        OscNumber::Int(i) => f64::from(i).to_bits(),
        OscNumber::Float(bits) => f64::from(f32::from_bits(bits)).to_bits(),
        OscNumber::Double(bits) => bits,
    }
}

#[test]
fn osc_sync_accepts_matching_synced_inside_bundle() {
    let bytes = encode(&bundle(vec![
        message("/status.reply", vec![]),
        message("/synced", vec![rosc::OscType::Int(1)]),
    ]));
    assert_eq!(synced_in(&bytes, 1), Ok(SyncedCheck::Confirmed));
    assert_eq!(synced_in(&bytes, 2), Ok(SyncedCheck::Unrelated));
}

#[test]
fn osc_sync_fails_on_malformed_synced_response() {
    let bytes = encode(&message("/synced", vec![rosc::OscType::String("not-an-int".to_string())]));
    assert_eq!(synced_in(&bytes, 1), Ok(SyncedCheck::Malformed));
}

#[test]
fn undecodable_reply_reports_the_decoder_error() {
    let result = synced_in(&[1, 2, 3], 1);
    assert!(matches!(result, Err(ref m) if m.starts_with("OSC decode error: ")));
}

#[test]
fn bundle_check_stops_at_first_malformed_reply() {
    let reply = OscPacketView::Bundle(vec![
        OscPacketView::Message { address: "/synced".to_string(), args: vec![OscValue::Other] },
        OscPacketView::Message { address: "/synced".to_string(), args: vec![OscValue::Int(1)] },
    ]);
    assert_eq!(check_synced(&reply, 1), SyncedCheck::Malformed);
}

#[test]
fn learn_events_flatten_bundles_and_read_first_numbers() {
    let bytes = encode(&bundle(vec![
        message("/fader/1", vec![rosc::OscType::Float(0.5)]),
        bundle(vec![message("/knob", vec![rosc::OscType::Int(3), rosc::OscType::Float(9.0)])]),
        message("/text", vec![rosc::OscType::String("hi".to_string())]),
    ]));
    let events = osc_datagram_events(&bytes, &to_real);
    assert_eq!(
        events,
        vec![
            ("/fader/1".to_string(), Some(0.5f64.to_bits())),
            ("/knob".to_string(), Some(3.0f64.to_bits())),
            ("/text".to_string(), None),
        ]
    );
    assert!(osc_datagram_events(&[0, 1], &to_real).is_empty());
}

#[test]
fn encoded_message_decodes_back() {
    let bytes = encode_osc_message(
        "/s_new",
        &vec![OscPlainArg::Str("scrysynth_v1_output".to_string()), OscPlainArg::Int(2001)],
    )
    .expect("encodes");
    let packet = decode_osc(&bytes).expect("decodes");
    assert_eq!(
        packet,
        OscPacketView::Message {
            address: "/s_new".to_string(),
            args: vec![OscValue::Str("scrysynth_v1_output".to_string()), OscValue::Int(2001)],
        }
    );
}
