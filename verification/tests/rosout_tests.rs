use ros2_teleop::rosout::{decode_log, i32_dec, render_log, u32_dec, LogRecord};

type WireLog = (i32, u32, u8, String, String, String, String, u32);

fn external_log(sec: i32, nanosec: u32, level: u8, name: &str, msg: &str) -> Vec<u8> {
    let rec: WireLog = (
        sec,
        nanosec,
        level,
        name.to_string(),
        msg.to_string(),
        "node.cpp".to_string(),
        "main".to_string(),
        42,
    );
    cdr::serialize::<_, _, cdr::CdrLe>(&rec, cdr::Infinite).unwrap()
}

#[test]
fn decodes_what_the_external_codec_writes() {
    let payload = external_log(10, 500, 2, "nav", "starting");
    let rec = decode_log(&payload).unwrap();
    assert_eq!(rec.sec, 10);
    assert_eq!(rec.nanosec, 500);
    assert_eq!(rec.level, 2);
    assert_eq!(rec.name, b"nav".to_vec());
    assert_eq!(rec.msg, b"starting".to_vec());
    assert_eq!(rec.file, b"node.cpp".to_vec());
    assert_eq!(rec.function, b"main".to_vec());
    assert_eq!(rec.line, 42);
}

#[test]
fn decodes_negative_seconds_and_empty_fields() {
    let rec: WireLog = (
        -7,
        0,
        255,
        String::new(),
        String::new(),
        String::new(),
        String::new(),
        0,
    );
    let payload = cdr::serialize::<_, _, cdr::CdrLe>(&rec, cdr::Infinite).unwrap();
    let decoded = decode_log(&payload).unwrap();
    assert_eq!(decoded.sec, -7);
    assert_eq!(decoded.nanosec, 0);
    assert_eq!(decoded.level, 255);
    assert_eq!(decoded.name, Vec::<u8>::new());
    assert_eq!(decoded.msg, Vec::<u8>::new());
    assert_eq!(decoded.line, 0);
}

#[test]
fn refuses_truncated_payloads() {
    let payload = external_log(10, 500, 2, "nav", "starting");
    for cut in [0, 3, 4, 12, 13, 16, payload.len() - 1] {
        assert!(decode_log(&payload[..cut]).is_none(), "cut at {}", cut);
    }
}

#[test]
fn refuses_big_endian_and_garbage() {
    let mut payload = external_log(1, 2, 3, "a", "b");
    payload[1] = 0;
    assert!(decode_log(&payload).is_none());
    assert!(decode_log(&[0, 9, 0, 0, 1, 2, 3]).is_none());
}

#[test]
fn renders_the_example_line() {
    let payload = external_log(10, 500, 2, "nav", "starting");
    let rec = decode_log(&payload).unwrap();
    let line = render_log(&rec);
    assert_eq!(String::from_utf8(line).unwrap(), "[10.500] [nav]: starting");
}

#[test]
fn renders_negative_seconds() {
    let rec = LogRecord {
        sec: -3,
        nanosec: 1,
        level: 0,
        name: b"n".to_vec(),
        msg: b"m".to_vec(),
        file: Vec::new(),
        function: Vec::new(),
        line: 0,
    };
    assert_eq!(String::from_utf8(render_log(&rec)).unwrap(), "[-3.1] [n]: m");
}

#[test]
fn decimal_digits_are_exact() {
    assert_eq!(u32_dec(0), b"0".to_vec());
    assert_eq!(u32_dec(120), b"120".to_vec());
    assert_eq!(u32_dec(u32::MAX), b"4294967295".to_vec());
    assert_eq!(i32_dec(i32::MIN), b"-2147483648".to_vec());
    assert_eq!(i32_dec(-1), b"-1".to_vec());
    assert_eq!(i32_dec(7), b"7".to_vec());
}
