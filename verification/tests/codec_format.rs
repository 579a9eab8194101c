use attitude_pipeline::codec::{decode_round, encode_round, SimResult};
use attitude_pipeline::flush::{compress_round, file_name, restore_round};

fn record_from_floats(vals: [f32; 7]) -> SimResult {
    SimResult {
        ang_vel_x: vals[0].to_bits(),
        ang_vel_y: vals[1].to_bits(),
        ang_vel_z: vals[2].to_bits(),
        target_pitch: vals[3].to_bits(),
        target_yaw: vals[4].to_bits(),
        target_roll: vals[5].to_bits(),
        time: vals[6].to_bits(),
    }
}

#[test]
fn encode_one_record_layout() {
    let vals: [f32; 7] = [1.5, -2.25, 0.0, 3.1415927, -0.5, 0.125, 1.0 / 120.0];
    let rec = record_from_floats(vals);
    let encoded = encode_round(&vec![rec]);
    let mut expected: Vec<u8> = Vec::new();
    for v in vals.iter() {
        expected.extend(v.to_le_bytes());
    }
    assert_eq!(encoded.len(), 28);
    assert_eq!(encoded, expected);
}

#[test]
fn encode_empty_round_is_empty() {
    let encoded = encode_round(&Vec::new());
    assert!(encoded.is_empty());
    let decoded = decode_round(&encoded).unwrap();
    assert!(decoded.is_empty());
}

#[test]
fn codec_round_trip_bit_exact() {
    let mut records: Vec<SimResult> = Vec::new();
    records.push(record_from_floats([0.0, -0.0, 1.0, -1.0, 5.5, -5.5, 30.0]));
    records.push(SimResult {
        ang_vel_x: 0,
        ang_vel_y: u32::MAX,
        ang_vel_z: 1,
        target_pitch: 0x7f800000,
        target_yaw: 0x12345678,
        target_roll: 0xdeadbeef,
        time: 42,
    });
    records.push(record_from_floats([0.25, 0.5, 0.75, 1.25, 2.5, 3.75, 29.99]));
    let encoded = encode_round(&records);
    assert_eq!(encoded.len(), 28 * records.len());
    let decoded = decode_round(&encoded).unwrap();
    assert_eq!(decoded, records);
}

#[test]
fn decode_rejects_ragged_buffers() {
    assert!(decode_round(&vec![0u8; 27]).is_none());
    assert!(decode_round(&vec![0u8; 29]).is_none());
    assert!(decode_round(&vec![0u8; 1]).is_none());
    assert!(decode_round(&vec![0u8; 56]).is_some());
}

#[test]
fn compressed_round_trip_bit_exact() {
    let mut records: Vec<SimResult> = Vec::new();
    for i in 0..100u32 {
        records.push(SimResult {
            ang_vel_x: i,
            ang_vel_y: i.wrapping_mul(2654435761),
            ang_vel_z: !i,
            target_pitch: (i as f32 * 0.01).to_bits(),
            target_yaw: (-(i as f32) * 0.02).to_bits(),
            target_roll: 0,
            time: ((i as f32 + 1.0) / 120.0).to_bits(),
        });
    }
    let archive = compress_round(&records).unwrap();
    let restored = restore_round(&archive).unwrap();
    assert_eq!(restored, records);
}

#[test]
fn compressor_really_compresses() {
    let records = vec![
        SimResult {
            ang_vel_x: 0,
            ang_vel_y: 0,
            ang_vel_z: 0,
            target_pitch: 0,
            target_yaw: 0,
            target_roll: 0,
            time: 0,
        };
        100
    ];
    let raw_len = 28 * records.len();
    let archive = compress_round(&records).unwrap();
    assert!(archive.len() < raw_len);
}

#[test]
fn restore_rejects_garbage() {
    assert!(restore_round(&vec![1u8, 2, 3, 4, 5]).is_none());
}

#[test]
fn output_file_names_follow_the_index() {
    assert_eq!(file_name(0).as_str(), "0.bin");
    assert_eq!(file_name(7).as_str(), "7.bin");
    assert_eq!(file_name(907).as_str(), "907.bin");
    assert_eq!(file_name(u64::MAX).as_str(), "18446744073709551615.bin");
}
