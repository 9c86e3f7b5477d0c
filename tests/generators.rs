use utilix::app::App;
use utilix::hash_generator::HashGenerator;
use utilix::qr_code_generator::QRCodeGenerator;
use utilix::tool::Tool;
use utilix::uuid_generator::UuidGenerator;

fn check_uuid(s: &str, version: char) {
    let chars: Vec<char> = s.chars().collect();
    assert_eq!(chars.len(), 36, "{s}");
    for (i, c) in chars.iter().enumerate() {
        if [8, 13, 18, 23].contains(&i) {
            assert_eq!(*c, '-');
        } else {
            assert!(c.is_ascii_hexdigit() && !c.is_ascii_uppercase());
        }
    }
    assert_eq!(chars[14], version);
    assert!("89ab".contains(chars[19]));
}

#[test]
fn single_uuids_have_their_version() {
    let mut g = UuidGenerator::new();
    g.generate_v4_uuid();
    g.generate_v7_uuid();
    check_uuid(&g.generated_uuid_v4, '4');
    check_uuid(&g.generated_uuid_v7, '7');
    let first = g.generated_uuid_v4.clone();
    g.generate_v4_uuid();
    assert_ne!(first, g.generated_uuid_v4);
}

#[test]
fn multiple_uuids_come_one_per_line() {
    let mut g = UuidGenerator::new();
    g.increase_length();
    g.increase_length();
    assert_eq!(g.length, 3);
    g.generate_multiple_v4_uuids();
    g.generate_multiple_v7_uuids();
    let v4: Vec<&str> = g.generated_uuid_v4.split('\n').collect();
    let v7: Vec<&str> = g.generated_uuid_v7.split('\n').collect();
    assert_eq!(v4.len(), 3);
    assert_eq!(v7.len(), 3);
    v4.iter().for_each(|u| check_uuid(u, '4'));
    v7.iter().for_each(|u| check_uuid(u, '7'));
}

#[test]
fn uuid_clear_and_length_floor() {
    let mut g = UuidGenerator::new();
    g.decrease_length();
    assert_eq!(g.length, 1);
    g.increase_length();
    g.generate_multiple_v4_uuids();
    g.clear();
    assert!(g.generated_uuid_v4.is_empty() && g.generated_uuid_v7.is_empty());
    assert_eq!(g.length, 1);
    g.length = 0;
    g.generate_multiple_v4_uuids();
    assert!(g.generated_uuid_v4.is_empty());
}

#[test]
fn hashes_of_abc() {
    let mut h = HashGenerator::new();
    assert_eq!(h.get_sha1(), "");
    h.update_input("abc");
    assert_eq!(h.get_sha1(), "a9993e364706816aba3e25717850c26c9cd0d89d");
    assert_eq!(h.get_sha256(), "ba7816bf8f01cfea414140de5dae2223b00361a396177a9cb410ff61f20015ad");
    assert_eq!(
        h.get_sha384(),
        "cb00753f45a35e8bb5a03d699ac65007272c32ab0eded1631a8b605a43ff5bed8086072ba1e7cc2358baeca134c825a7"
    );
    assert_eq!(
        h.get_sha512(),
        "ddaf35a193617abacc417349ae20413112e6fa4e89a97ea20a9eeee64b55d39a2192992a274fc1a836ba3c23a3feebbd454d4423643ce80e2a9ac94fa54ca49f"
    );
    assert_eq!(h.generate_sha1(), h.get_sha1());
}

#[test]
fn hash_of_empty_text() {
    let mut h = HashGenerator::new();
    h.update_input("");
    assert_eq!(h.get_sha1(), "da39a3ee5e6b4b0d3255bfef95601890afd80709");
    assert_eq!(h.get_sha256().len(), 64);
}

#[test]
fn tools_cycle_in_order() {
    let mut t = Tool::Base64Encoder;
    let mut seen = Vec::new();
    for _ in 0..8 {
        seen.push(t.index());
        t = t.next();
    }
    assert_eq!(seen, vec![0, 1, 2, 3, 4, 5, 6, 7]);
    assert_eq!(t, Tool::Base64Encoder);
    assert_eq!(Tool::QRCodeGenerator.next(), Tool::UuidGenerator);
}

#[test]
fn qr_code_for_short_text() {
    let mut q = QRCodeGenerator::new();
    let hint = "No QR code generated yet, Please enter the data in the input field to create one.";
    assert_eq!(q.get_qr_string(), hint);
    q.input = "hello".to_string();
    q.generate_qr_code();
    assert!(q.qr_code.is_some());
    let drawn = q.get_qr_string();
    assert_ne!(drawn, hint);
    assert!(drawn.lines().count() > 5);
}

#[test]
fn qr_code_for_too_long_text() {
    let mut q = QRCodeGenerator::new();
    q.input = "x".repeat(8000);
    q.generate_qr_code();
    assert!(q.qr_code.is_none());
}

#[test]
fn app_starts_on_the_first_tool_and_cycles() {
    let mut app = App::new();
    assert_eq!(app.current_tool, Tool::Base64Encoder);
    assert_eq!(app.password_generator.length, 12);
    assert_eq!(app.uuid_generator.length, 1);
    assert!(app.qr_code_generator.qr_code.is_none());
    for _ in 0..7 {
        app.next_tool();
    }
    assert_eq!(app.current_tool, Tool::UuidGenerator);
    app.next_tool();
    assert_eq!(app.current_tool, Tool::Base64Encoder);
}
