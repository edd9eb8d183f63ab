use std::io::Read;

use base64::Engine;
use deebot_client::decompress::{decompress_7z_base64_data, repair_header};
use deebot_client::document::render_svg;
use deebot_client::error::MapError;
use deebot_client::geometry::{TracePoint, Viewbox};
use deebot_client::map_data::MapData;
use deebot_client::shapes::{MapSubset, Position};
use deebot_client::trace::process_trace_points;

/// Compresses `data` as the device does: a `.lzma` stream whose header keeps
/// the five property bytes and a four-byte size.
fn device_payload(data: &[u8]) -> String {
    let options = liblzma::stream::LzmaOptions::new_preset(6).unwrap();
    let stream = liblzma::stream::Stream::new_lzma_encoder(&options).unwrap();
    let mut encoder = liblzma::read::XzEncoder::new_stream(data, stream);
    let mut full = Vec::new();
    encoder.read_to_end(&mut full).unwrap();
    let mut payload = full[..5].to_vec();
    payload.extend_from_slice(&(data.len() as u32).to_le_bytes());
    payload.extend_from_slice(&full[13..]);
    base64::engine::general_purpose::STANDARD.encode(payload)
}

fn viewbox() -> Viewbox {
    Viewbox { min_x: -500_000, min_y: -500_000, width: 1_000_000, height: 1_000_000 }
}

#[test]
fn decompress_round_trips() {
    for text in [&b"hello, map"[..], b"", &[7u8; 1000][..], "äöü trace".as_bytes()] {
        let out = decompress_7z_base64_data(device_payload(text)).unwrap();
        assert_eq!(out, text);
    }
}

#[test]
fn decompress_rejects_invalid_base64() {
    assert_eq!(decompress_7z_base64_data("not base64!".to_string()), Err(MapError::Decode));
}

#[test]
fn decompress_rejects_short_payload() {
    assert_eq!(decompress_7z_base64_data("AAECAw==".to_string()), Err(MapError::Format));
}

#[test]
fn decompress_rejects_corrupt_stream() {
    let garbage = base64::engine::general_purpose::STANDARD.encode([0xffu8; 20]);
    assert_eq!(decompress_7z_base64_data(garbage), Err(MapError::Decompress));
}

#[test]
fn repair_inserts_four_zero_bytes() {
    let bytes: Vec<u8> = (1..=10).collect();
    assert_eq!(repair_header(&bytes), Ok(vec![1, 2, 3, 4, 5, 6, 7, 8, 0, 0, 0, 0, 9, 10]));
    assert_eq!(repair_header(&bytes[..7]), Err(MapError::Format));
    assert_eq!(repair_header(&bytes[..8]), Ok(vec![1, 2, 3, 4, 5, 6, 7, 8, 0, 0, 0, 0]));
}

#[test]
fn trace_records_decode_in_order() {
    let bytes = [0x10, 0x00, 0x00, 0x01, 0x00, 0xff, 0xff, 0x2c, 0xfe, 0x80, 0x00, 0x80, 0xff, 0x7f, 0x7f];
    let points = process_trace_points(&bytes).unwrap();
    assert_eq!(
        points,
        vec![
            TracePoint { x: 16, y: 256, connected: true },
            TracePoint { x: -1, y: -468, connected: false },
            TracePoint { x: -32768, y: 32767, connected: true },
        ]
    );
    assert_eq!(process_trace_points(&[]), Ok(vec![]));
}

#[test]
fn trace_records_reject_partial_record() {
    for len in [1usize, 4, 6, 9, 11] {
        let bytes = vec![0u8; len];
        assert_eq!(process_trace_points(&bytes), Err(MapError::MalformedRecord));
    }
}

#[test]
fn accumulator_appends_in_call_order() {
    let mut map = MapData::new();
    let first = [0x10, 0x00, 0x00, 0x01, 0x00];
    let second = [0xd5, 0xff, 0xba, 0xff, 0x80, 0x01, 0x00, 0x02, 0x00, 0x00];
    map.add_trace_points(device_payload(&first)).unwrap();
    map.add_trace_points(device_payload(&second)).unwrap();
    assert_eq!(map.add_trace_points(device_payload(&[1, 2, 3])), Err(MapError::MalformedRecord));
    let svg = map.generate_svg(viewbox(), &[], &vec![], &vec![]);
    assert!(svg.contains("d=\"M16 256m-59-326l44 72\""));
    map.clear_trace_points();
    let svg = map.generate_svg(viewbox(), &[], &vec![], &vec![]);
    assert!(!svg.contains("scale(0.2-0.2)"));
}

#[test]
fn render_is_idempotent() {
    let mut map = MapData::new();
    map.add_trace_points(device_payload(&[0x10, 0x00, 0x00, 0x01, 0x00])).unwrap();
    let subsets = vec![MapSubset { set_type: "vw".to_string(), coordinates: "[-3900,668,-2133,668]".to_string() }];
    let positions = vec![Position { position_type: "deebotPos".to_string(), x: 100, y: 100 }];
    let a = map.generate_svg(viewbox(), &[1, 2, 3], &subsets, &positions);
    let b = map.generate_svg(viewbox(), &[1, 2, 3], &subsets, &positions);
    assert_eq!(a, b);
}

#[test]
fn virtual_wall_renders_dashed_red_line() {
    let subsets = vec![MapSubset { set_type: "vw".to_string(), coordinates: "[-3900,668,-2133,668]".to_string() }];
    let svg = render_svg(viewbox(), &[], &[], &subsets, &vec![]);
    assert!(svg.contains(
        "<path d=\"M-78-13.36h35.34\" stroke=\"#f00000\" stroke-dasharray=\"4\" stroke-width=\"1.5\" vector-effect=\"non-scaling-stroke\"/>"
    ));
}

#[test]
fn document_layout() {
    let subsets = vec![MapSubset { set_type: "mw".to_string(), coordinates: "[0,0,50,0,50,50]".to_string() }];
    let positions = vec![
        Position { position_type: "chargePos".to_string(), x: 50, y: 50 },
        Position { position_type: "deebotPos".to_string(), x: 0, y: 0 },
    ];
    let trace = [TracePoint { x: 1, y: 2, connected: true }];
    let svg = render_svg(viewbox(), &[1, 2, 3], &trace, &subsets, &positions);
    assert!(!svg.contains('\n'));
    assert_eq!(
        svg,
        [
            "<svg viewBox=\"-500 -500 1000 1000\" xmlns=\"http://www.w3.org/2000/svg\">",
            "<defs><radialGradient cx=\"50%\" cy=\"50%\" fx=\"50%\" fy=\"50%\" id=\"dbg\" r=\"50%\">",
            "<stop offset=\"70%\" style=\"stop-color:#00f\"/><stop offset=\"97%\" style=\"stop-color:#00f0\"/>",
            "</radialGradient><g id=\"d\"><circle fill=\"url(#dbg)\" r=\"5\"/>",
            "<circle fill=\"blue\" r=\"3.5\" stroke=\"white\" stroke-width=\"0.5\"/></g>",
            "<g id=\"c\"><path d=\"M4-6.4C4-4.2 0 0 0 0s-4-4.2-4-6.4 1.8-4 4-4 4 1.8 4 4z\" fill=\"#ffe605\"/>",
            "<circle cy=\"-6.4\" fill=\"#fff\" r=\"2.8\"/></g></defs>",
            "<image height=\"1000\" href=\"data:image/png;base64,AQID\" style=\"image-rendering: pixelated\" width=\"1000\" x=\"-500\" y=\"-500\"/>",
            "<polygon fill=\"#ffa50030\" points=\"0 0 1 0 1 -1\" stroke=\"#ffa500\" stroke-dasharray=\"4\" stroke-width=\"1.5\" vector-effect=\"non-scaling-stroke\"/>",
            "<path d=\"M1 2\" fill=\"none\" stroke=\"#fff\" stroke-linejoin=\"round\" stroke-width=\"1.5\" transform=\"scale(0.2-0.2)\" vector-effect=\"non-scaling-stroke\"/>",
            "<use href=\"#d\" x=\"0\" y=\"0\"/><use href=\"#c\" x=\"1\" y=\"-1\"/>",
            "</svg>",
        ]
        .concat()
    );
}
