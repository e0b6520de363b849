use asmhex::bytes::parse_hex_bytes;
use asmhex::bytes::render_hex;
use asmhex::config::Config;
use asmhex::config::Dialect;
use asmhex::config::WordSize;
use asmhex::errors::TranscodeError;
use asmhex::forward::forward_start;
use asmhex::reverse::DecodeEvent;
use asmhex::reverse::ReverseRun;
use asmhex::reverse::reverse_start;

fn text(s: &str) -> Vec<u8> {
    s.as_bytes().to_vec()
}

#[test]
fn parse_simple_bytes() {
    assert_eq!(parse_hex_bytes(&text("90 90 c3")), Ok(vec![0x90, 0x90, 0xc3]));
}

#[test]
fn parse_mixed_whitespace() {
    assert_eq!(parse_hex_bytes(&text(" 0a\tff\r\n5b ")), Ok(vec![0x0a, 0xff, 0x5b]));
}

#[test]
fn parse_uppercase_digits() {
    assert_eq!(parse_hex_bytes(&text("AB cD")), Ok(vec![0xab, 0xcd]));
}

#[test]
fn parse_empty_is_no_bytes() {
    assert_eq!(parse_hex_bytes(&text("")), Ok(vec![]));
    assert_eq!(parse_hex_bytes(&text(" \t\n")), Ok(vec![]));
}

#[test]
fn malformed_token_zz() {
    match reverse_start(&text("zz")) {
        Err(TranscodeError::ByteParse(t)) => assert_eq!(t, b"zz".to_vec()),
        other => panic!("expected ByteParse, got {:?}", other),
    }
}

#[test]
fn malformed_token_single_digit() {
    match reverse_start(&text("1")) {
        Err(TranscodeError::ByteParse(t)) => assert_eq!(t, b"1".to_vec()),
        other => panic!("expected ByteParse, got {:?}", other),
    }
}

#[test]
fn malformed_token_too_long() {
    match reverse_start(&text("256")) {
        Err(TranscodeError::ByteParse(t)) => assert_eq!(t, b"256".to_vec()),
        other => panic!("expected ByteParse, got {:?}", other),
    }
}

#[test]
fn malformed_token_stops_whole_parse() {
    match reverse_start(&text("90 zz c3")) {
        Err(TranscodeError::ByteParse(t)) => assert_eq!(t, b"zz".to_vec()),
        other => panic!("expected ByteParse, got {:?}", other),
    }
}

#[test]
fn reverse_of_blank_is_empty() {
    assert!(matches!(reverse_start(&text("")), Ok(v) if v.is_empty()));
    assert!(matches!(reverse_start(&text("  \n\t ")), Ok(v) if v.is_empty()));
}

#[test]
fn forward_of_blank_is_none() {
    let cfg = Config { dialect: Dialect::Intel, word_size: WordSize::W64 };
    assert_eq!(forward_start(&text(""), &cfg), None);
    assert_eq!(forward_start(&text("  \r\n \t"), &cfg), None);
}

#[test]
fn forward_prepends_intel_directive() {
    let cfg = Config { dialect: Dialect::Intel, word_size: WordSize::W64 };
    let got = forward_start(&text("mov eax, 1\nret"), &cfg).unwrap();
    assert_eq!(got, text(".intel_syntax noprefix\nmov eax, 1\nret"));
}

#[test]
fn forward_att_has_no_directive() {
    let cfg = Config { dialect: Dialect::Att, word_size: WordSize::W64 };
    let got = forward_start(&text("mov $1, %eax\nret"), &cfg).unwrap();
    assert_eq!(got, text("mov $1, %eax\nret"));
}

#[test]
fn render_hex_exact() {
    assert_eq!(render_hex(&vec![0x00, 0xff, 0x5a]), text("00 ff 5a"));
    assert_eq!(render_hex(&vec![]), text(""));
    assert_eq!(render_hex(&vec![0x07]), text("07"));
}

#[test]
fn hex_round_trip_concrete() {
    let bytes = vec![0x01, 0x00, 0xab, 0xcd, 0xef];
    let line = render_hex(&bytes);
    assert_eq!(line, text("01 00 ab cd ef"));
    assert_eq!(parse_hex_bytes(&line), Ok(bytes));
}

#[test]
fn hex_cycle_reaches_fixed_point() {
    let bytes = parse_hex_bytes(&text("0A 0b\nc3")).unwrap();
    let line1 = render_hex(&bytes);
    let line2 = render_hex(&parse_hex_bytes(&line1).unwrap());
    assert_eq!(line1, line2);
    assert_eq!(line1, text("0a 0b c3"));
}

#[test]
fn run_lists_three_instructions_in_address_order() {
    // the bytes 90 90 c3: two one-byte no-ops, then a one-byte return
    let mut run = ReverseRun::new(vec![0x90, 0x90, 0xc3]);
    let mut addresses: Vec<usize> = Vec::new();
    for line in ["nop", "nop", "ret"] {
        assert!(!run.finished());
        addresses.push(run.position());
        let step = run.step(DecodeEvent::Decoded { length: 1, line: text(line) });
        assert!(step.is_none());
    }
    assert!(run.finished());
    assert_eq!(addresses, vec![0, 1, 2]);
    assert_eq!(run.finish(), text("nop\nnop\nret\n"));
}

#[test]
fn run_hands_decoder_the_undecoded_tail() {
    let mut run = ReverseRun::new(vec![0x48, 0x31, 0xc0, 0xc3]);
    assert_eq!(run.remaining(), vec![0x48, 0x31, 0xc0, 0xc3]);
    assert!(run.step(DecodeEvent::Decoded { length: 3, line: text("xor rax, rax") }).is_none());
    assert_eq!(run.remaining(), vec![0xc3]);
    assert_eq!(run.position(), 3);
}

#[test]
fn run_end_event_yields_whole_output() {
    let mut run = ReverseRun::new(vec![0x90, 0x40]);
    assert!(run.step(DecodeEvent::Decoded { length: 1, line: text("nop") }).is_none());
    match run.step(DecodeEvent::End) {
        Some(Ok(v)) => assert_eq!(v, text("nop\n")),
        other => panic!("expected the accumulated listing, got {:?}", other),
    }
}

#[test]
fn run_failure_aborts_without_partial_output() {
    let mut run = ReverseRun::new(vec![0x90, 0x06]);
    assert!(run.step(DecodeEvent::Decoded { length: 1, line: text("nop") }).is_none());
    match run.step(DecodeEvent::Failed(text("invalid instruction"))) {
        Some(Err(TranscodeError::Decode(m))) => assert_eq!(m, text("invalid instruction")),
        other => panic!("expected Decode, got {:?}", other),
    }
}

#[test]
fn run_rejects_an_impossible_length() {
    let mut run = ReverseRun::new(vec![0x90]);
    match run.step(DecodeEvent::Decoded { length: 2, line: text("nop") }) {
        Some(Err(TranscodeError::Decode(m))) => assert_eq!(m, text("bad decode length")),
        other => panic!("expected Decode, got {:?}", other),
    }
    let mut run = ReverseRun::new(vec![0x90]);
    match run.step(DecodeEvent::Decoded { length: 0, line: text("nop") }) {
        Some(Err(TranscodeError::Decode(m))) => assert_eq!(m, text("bad decode length")),
        other => panic!("expected Decode, got {:?}", other),
    }
}

#[test]
fn config_from_flags() {
    let c = Config::from_flags(false, false);
    assert_eq!(c.dialect, Dialect::Intel);
    assert_eq!(c.word_size, WordSize::W64);
    let c = Config::from_flags(true, true);
    assert_eq!(c.dialect, Dialect::Att);
    assert_eq!(c.word_size, WordSize::W32);
}
