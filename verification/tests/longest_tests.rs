use wavemorse::longest::{greatest, parse_args};

#[test]
fn longest_left() {
    let l = "one";
    let r = "second";
    let result = greatest(l, r).unwrap_or("failure");
    assert_eq!(result, "second");
}

#[test]
fn longest_right() {
    let l = "one";
    let r = "seconds";
    let result = greatest(r, l).unwrap_or("failure");
    assert_eq!("seconds", result);
}

#[test]
fn equal() {
    let l = "one";
    let r = "two";
    let result = greatest(l, r);
    assert_eq!(None, result);
}

#[test]
fn longest_parse_args() {
    let args = vec!["first".to_string(), "second word".to_string()];
    let cfg = parse_args(&args).unwrap();
    assert_eq!(cfg.first, "first");
    assert_eq!(cfg.second, "second word");

    let one = vec!["only".to_string()];
    assert!(parse_args(&one).is_err());
}
