use wavemorse::codec::{decode, encode, parse_args, Direction};

#[test]
fn encode_test() {
    let message = "hello";
    let morse = encode(&message);
    assert_eq!(morse.unwrap(), ".... . .-.. .-.. ---");

    let message = "1";
    let morse = encode(&message);
    assert_eq!(morse.unwrap(), ".----");

    let message = "hello there";
    let morse = encode(&message);
    assert_eq!(morse.unwrap(), ".... . .-.. .-.. --- / - .... . .-. .");
}

#[test]
fn decode_test() {
    let message = ".... . .-.. .-.. ---";
    let human = decode(&message);
    assert_eq!("hello", human.unwrap());

    let message = ".... . .-.. .-.. --- / - .... . .-. .";
    let human = decode(&message);
    assert_eq!("hello there", human.unwrap());

    let message = ".----";
    let human = decode(&message);
    assert_eq!(human.unwrap(), "1");
}

#[test]
fn direction_parse_test() {
    assert!(Direction::from_str("message").is_err());
    assert_eq!(Direction::From, Direction::from_str("from").unwrap());
    assert_eq!(Direction::To, Direction::from_str("to").unwrap());
}

#[test]
fn decoder_parse_args_test() {
    let args = [
        "prog_name".to_string(),
        "from".to_string(),
        "message".to_string(),
    ];
    let cfg = parse_args(&args);
    assert!(cfg.is_ok());
    let cfg = cfg.unwrap();
    assert_eq!(cfg.direction, Direction::From);
    assert_eq!(cfg.message, "message");

    let args = vec!["Not long enough".to_string()];
    let cfg = parse_args(&args);
    assert!(cfg.is_err());

    let args = vec!["some name".to_string(), "some thing else".to_string()];
    let cfg = parse_args(&args);
    assert!(cfg.is_err());

    let args = vec![
        "some name".to_string(),
        "to".to_string(),
        "dir".to_string(),
        "Extra".to_string(),
    ];
    let cfg = parse_args(&args);
    assert_eq!(cfg.unwrap().message, "dir Extra");

    let args = vec![
        "prog_name".to_string(),
        "to".to_string(),
        "message".to_string(),
    ];
    let cfg = parse_args(&args);
    assert!(cfg.is_ok());
    let cfg = cfg.unwrap();
    assert_eq!(cfg.direction, Direction::To);
    assert_eq!(cfg.message, "message");
}

#[test]
fn encode_rejects_unencodable() {
    assert!(encode("héllo").is_none());
    assert!(encode("a_b").is_none());
    assert_eq!(encode("").unwrap(), "");
}

#[test]
fn decode_rejects_unknown_token() {
    assert!(decode("........").is_none());
    assert!(decode(".- x").is_none());
    assert_eq!(decode("").unwrap(), "");
    assert_eq!(decode("   ").unwrap(), "");
}

#[test]
fn codec_round_trip() {
    let original = "verus proves 42";
    let wire = encode(original).unwrap();
    assert_eq!(decode(&wire).unwrap(), original);
}

#[test]
fn encode_folds_case() {
    assert_eq!(encode("SOS").unwrap(), encode("sos").unwrap());
}
