use wavemorse::classifier::parse;
use wavemorse::morse::Symbol;

#[test]
fn parse_short() {
    let mut data: [i16; 2000] = [0; 2000];
    let thresh = 100;
    for d in &mut data[100..601] {
        *d = thresh + 1;
    }
    let symbols = parse(&data, thresh);
    assert_eq!(vec![Symbol::Short], symbols.unwrap());
}

#[test]
fn parse_long() {
    let mut data: [i16; 2000] = [0; 2000];
    let thresh = 100;
    for d in &mut data[100..1601] {
        *d = thresh + 1;
    }
    let symbols = parse(&data, thresh);
    assert_eq!(vec![Symbol::Long], symbols.unwrap());
}

#[test]
fn parse_longs() {
    let mut data: [i16; 5000] = [0; 5000];
    let thresh = 100;
    for d in &mut data[100..1601] {
        *d = thresh + 1;
    }

    for d in &mut data[2300..3802] {
        *d = thresh + 1;
    }
    let symbols = parse(&data, thresh);
    assert_eq!(vec![Symbol::Long, Symbol::Long], symbols.unwrap());
}

#[test]
fn parse_mixed() {
    let mut data: [i16; 5000] = [0; 5000];
    let thresh = 100;
    for d in &mut data[100..601] {
        *d = thresh + 1;
    }

    for d in &mut data[2300..3802] {
        *d = thresh + 1;
    }
    let symbols = parse(&data, thresh);
    assert_eq!(vec![Symbol::Short, Symbol::Long], symbols.unwrap());
}

#[test]
fn parse_mixed_lengths() {
    let mut data: [i16; 5000] = [0; 5000];
    let thresh = 100;
    for d in &mut data[100..1601] {
        *d = thresh + 1;
    }

    for d in &mut data[2300..2802] {
        *d = -(thresh + 1);
    }
    let symbols = parse(&data, thresh);
    assert_eq!(vec![Symbol::Long, Symbol::Short], symbols.unwrap());
}

#[test]
fn parse_shorts() {
    let mut data: [i16; 2000] = [0; 2000];
    let thresh = 100;
    for d in &mut data[100..601] {
        *d = thresh + 1;
    }
    for d in &mut data[1100..1601] {
        *d = thresh + 1;
    }
    let symbols = parse(&data, thresh);
    assert_eq!(vec![Symbol::Short, Symbol::Short], symbols.unwrap());
}

#[test]
fn parse_shorts_from_neg() {
    let mut data: [i16; 2000] = [0; 2000];
    let thresh = 100;
    for d in &mut data[100..601] {
        *d = -(thresh + 1);
    }
    for d in &mut data[1100..1601] {
        *d = -(thresh + 1);
    }
    let symbols = parse(&data, thresh);
    assert_eq!(vec![Symbol::Short, Symbol::Short], symbols.unwrap());
}

#[test]
fn parse_shorts_from_mixed() {
    let mut data: [i16; 2000] = [0; 2000];
    let thresh = 100;
    for d in &mut data[100..501] {
        *d = -(thresh + 1);
    }
    for d in &mut data[500..601] {
        *d = thresh + 1;
    }
    for d in &mut data[1100..1601] {
        *d = -(thresh + 1);
    }
    let symbols = parse(&data, thresh);
    assert_eq!(vec![Symbol::Short, Symbol::Short], symbols.unwrap());
}

#[test]
fn parse_nothing_is_none() {
    let data: [i16; 2000] = [0; 2000];
    assert!(parse(&data, 100).is_none());
}

#[test]
fn parse_discards_noise_blips() {
    // A 50-sample blip is far below the 400-sample dot floor.
    let mut data: [i16; 2000] = [0; 2000];
    let thresh = 100;
    for d in &mut data[100..150] {
        *d = thresh + 1;
    }
    assert!(parse(&data, thresh).is_none());
}

#[test]
fn parse_treats_most_negative_as_loud() {
    let mut data: [i16; 2000] = [0; 2000];
    for d in &mut data[100..601] {
        *d = i16::MIN;
    }
    let symbols = parse(&data, i16::MAX);
    assert_eq!(vec![Symbol::Short], symbols.unwrap());
}
