use laad::frameparser::FrameParser;

#[test]
fn frameparser_test_de_bytestuff_no_stuffing() {
    let parser = FrameParser::new();
    let input = vec![0x01, 0x02, 0x03];
    let output = parser.de_bytestuff(&input);
    assert_eq!(output, input);
}

#[test]
fn frameparser_test_de_bytestuff_with_stuffing() {
    let parser = FrameParser::new();
    let input = vec![0x01, 0xA9, 0x20, 0x03];
    let expected_output = vec![0x01, 0x00, 0x03];
    let output = parser.de_bytestuff(&input);
    assert_eq!(output, expected_output);
}

#[test]
fn frameparser_test_de_bytestuff_multiple_stuffing() {
    let parser = FrameParser::new();
    let input = vec![0xA9, 0x20, 0xA9, 0x21, 0xA9, 0x22];
    let expected_output = vec![0x00, 0x01, 0x02];
    let output = parser.de_bytestuff(&input);
    assert_eq!(output, expected_output);
}

#[test]
fn frameparser_test_de_bytestuff_mixed_start_end_same_value() {
    let parser = FrameParser::new();
    let input = vec![0xAA, 0xA9, 0x8a, 0xBB, 0xCC, 0x99];
    let expected_output = vec![0xAA, 0xAA, 0xBB, 0xCC, 0x99];
    let output = parser.de_bytestuff(&input);
    assert_eq!(output, expected_output);
}

#[test]
fn frameparser_test_de_bytestuff_a9_escape() {
    let parser = FrameParser::new();
    let input = vec![0xAA, 0xA9, 0x89, 0xBB, 0xCC, 0x99];
    let expected_output = vec![0xAA, 0xA9, 0xBB, 0xCC, 0x99];
    let output = parser.de_bytestuff(&input);
    assert_eq!(output, expected_output);
}

#[test]
fn frameparser_test_de_bytestuff_99_escape() {
    let parser = FrameParser::new();
    let input = vec![0xAA, 0xA9, 0xB9, 0xBB, 0xCC, 0x99];
    let expected_output = vec![0xAA, 0x99, 0xBB, 0xCC, 0x99];
    let output = parser.de_bytestuff(&input);
    assert_eq!(output, expected_output);
}

#[test]
fn frameparser_test_de_bytestuff_incomplete_stuffing() {
    let parser = FrameParser::new();
    let input = vec![0x01, 0xA9];
    let expected_output = vec![0x01];
    let output = parser.de_bytestuff(&input);
    assert_eq!(output, expected_output);
}

#[test]
fn frames_test_de_bytestuff_no_stuffing() {
    let parser = FrameParser::new();
    let input = vec![0x01, 0x02, 0x03];
    let output = parser.de_bytestuff(&input);
    assert_eq!(output, input);
}

#[test]
fn frames_test_de_bytestuff_with_stuffing() {
    let parser = FrameParser::new();
    let input = vec![0x01, 0xA9, 0x20, 0x03];
    let expected_output = vec![0x01, 0x00, 0x03];
    let output = parser.de_bytestuff(&input);
    assert_eq!(output, expected_output);
}

#[test]
fn frames_test_de_bytestuff_multiple_stuffing() {
    let parser = FrameParser::new();
    let input = vec![0xA9, 0x20, 0xA9, 0x21, 0xA9, 0x22];
    let expected_output = vec![0x00, 0x01, 0x02];
    let output = parser.de_bytestuff(&input);
    assert_eq!(output, expected_output);
}

#[test]
fn frames_test_de_bytestuff_mixed_start_end_same_value() {
    let parser = FrameParser::new();
    let input = vec![0xAA, 0xA9, 0x8a, 0xBB, 0xCC, 0x99];
    let expected_output = vec![0xAA, 0xAA, 0xBB, 0xCC, 0x99];
    let output = parser.de_bytestuff(&input);
    assert_eq!(output, expected_output);
}

#[test]
fn frames_test_de_bytestuff_a9_escape() {
    let parser = FrameParser::new();
    let input = vec![0xAA, 0xA9, 0x89, 0xBB, 0xCC, 0x99];
    let expected_output = vec![0xAA, 0xA9, 0xBB, 0xCC, 0x99];
    let output = parser.de_bytestuff(&input);
    assert_eq!(output, expected_output);
}

#[test]
fn frames_test_de_bytestuff_99_escape() {
    let parser = FrameParser::new();
    let input = vec![0xAA, 0xA9, 0xB9, 0xBB, 0xCC, 0x99];
    let expected_output = vec![0xAA, 0x99, 0xBB, 0xCC, 0x99];
    let output = parser.de_bytestuff(&input);
    assert_eq!(output, expected_output);
}

#[test]
fn frames_test_de_bytestuff_incomplete_stuffing() {
    let parser = FrameParser::new();
    let input = vec![0x01, 0xA9];
    let expected_output = vec![0x01];
    let output = parser.de_bytestuff(&input);
    assert_eq!(output, expected_output);
}
