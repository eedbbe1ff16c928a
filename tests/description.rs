use fuzzer::description::{
    encode_description, finish_description_arg, parse_description, strip_description_arg,
    DescriptionError, RegionDescription,
};

fn handle(text: &str) -> [u8; 20] {
    let mut h = [0u8; 20];
    h[..text.len()].copy_from_slice(text.as_bytes());
    h
}

#[test]
fn description_round_trip() {
    let d = RegionDescription { handle: handle("/libafl_12_34"), length: 4096 };
    let text = encode_description(&d);
    assert_eq!(parse_description(&text), Ok(d));
}

#[test]
fn description_text_form() {
    let d = RegionDescription { handle: handle("3"), length: 16 };
    assert_eq!(
        encode_description(&d),
        "{\"size\":16,\"id\":{\"id\":[51,0,0,0,0,0,0,0,0,0,0,0,0,0,0,0,0,0,0,0]}}"
    );
}

#[test]
fn malformed_description_is_refused() {
    assert_eq!(parse_description("not json"), Err(DescriptionError::Malformed));
    assert_eq!(parse_description("{\"size\":1}"), Err(DescriptionError::Malformed));
}

#[test]
fn strip_removes_exactly_the_last_argument() {
    let d = RegionDescription { handle: handle("7"), length: 10 };
    let text = encode_description(&d);
    let mut args = vec!["base64".to_string(), "-d".to_string(), text];
    let before = args.len();
    assert_eq!(strip_description_arg(&mut args), Ok(d));
    assert_eq!(args.len(), before - 1);
    assert_eq!(args, vec!["base64".to_string(), "-d".to_string()]);
}

#[test]
fn strip_without_description_argument() {
    let mut args = vec!["base64".to_string()];
    assert_eq!(strip_description_arg(&mut args), Err(DescriptionError::Missing));
    assert_eq!(args.len(), 1);
    let mut none: Vec<String> = Vec::new();
    assert_eq!(strip_description_arg(&mut none), Err(DescriptionError::Missing));
}

#[test]
fn strip_with_malformed_description_keeps_arguments() {
    let mut args = vec!["base64".to_string(), "-d".to_string()];
    assert_eq!(strip_description_arg(&mut args), Err(DescriptionError::Malformed));
    assert_eq!(args.len(), 2);
}

#[test]
fn finish_with_parsed_values() {
    let d = RegionDescription { handle: handle("9"), length: 1 };
    let mut args = vec!["p".to_string(), "x".to_string()];
    assert_eq!(finish_description_arg(&mut args, Some(d)), Ok(d));
    assert_eq!(args, vec!["p".to_string()]);
    let mut args = vec!["p".to_string(), "x".to_string()];
    assert_eq!(finish_description_arg(&mut args, None), Err(DescriptionError::Malformed));
    assert_eq!(args.len(), 2);
}
