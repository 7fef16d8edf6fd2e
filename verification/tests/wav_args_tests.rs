use wavemorse::wav::{parse_args, Config, ConfigParseError};

#[test]
fn wave_reader_parse_args_test() {
    let args = ["Progname".to_string()];
    let cfg = parse_args(&args);
    assert!(cfg.is_err());

    let args = ["Progname".to_string(), "arg".to_string()];
    let cfg = parse_args(&args).unwrap();
    assert_eq!(&args[1], &cfg.fname);
    assert_eq!(args[1], cfg.fname);

    let args = ["one".to_string(), "arg".to_string(), "extra".to_string()];
    let cfg = parse_args(&args);
    assert!(cfg.is_err());
}

#[test]
fn parse_args_test_not_enough() {
    let args = vec!["Progname".to_string()];
    let cfg = Config::try_from(args.as_slice());

    assert_eq!(cfg.err().unwrap(), ConfigParseError::NotEnoughArgs);
}

#[test]
fn parse_args_test_just_right() {
    let args = vec!["Progname".to_string(), "arg".to_string()];
    let cfg = Config::try_from(args.as_slice()).unwrap();
    assert_eq!(&args[1], &cfg.fname);
    assert_eq!(args[1], cfg.fname);
}

#[test]
fn parse_args_test_too_many() {
    let args = vec!["one".to_string(), "arg".to_string(), "extra".to_string()];
    let cfg = Config::try_from(args.as_slice());
    assert_eq!(cfg.err().unwrap(), ConfigParseError::TooManyArgs);
}
