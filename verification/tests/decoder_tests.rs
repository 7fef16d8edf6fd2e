use wavemorse::decoder::parse;

#[test]
fn parse_e() {
    // Short is 60ms
    // Long is 180 ms
    // Gap between is 60ms
    // For a short you'd expect to see ~500 samples greater than the threshold
    // For a gap you'd expect to see   ~500 samples lower than the threshold
    // For a long you'd expect to see  ~1500 samples greater than the threshold
    let mut data: [i16; 2000] = [0; 2000];
    let thresh = 100;
    for d in &mut data[100..601] {
        *d = thresh + 1;
    }
    let symbols = parse(&data, thresh);
    assert_eq!("e", symbols);
}

#[test]
fn parse_j() {
    // j is .--- with runs of roughly 500, 1900, 2000 and 2000 samples
    let mut data: [i16; 10000] = [0; 10000];
    let thresh = 100;
    for d in &mut data[100..601] {
        *d = thresh + 1;
    }
    for d in &mut data[1101..3000] {
        *d = thresh + 1;
    }
    for d in &mut data[3501..5500] {
        *d = thresh + 1;
    }
    for d in &mut data[6001..8000] {
        *d = thresh + 1;
    }
    let symbols = parse(&data, thresh);
    assert_eq!("j", symbols);
}

#[test]
fn parse_je() {
    // j as above, then a letter gap, then a lone short for e
    let mut data: [i16; 15000] = [0; 15000];
    let thresh = 100;
    for d in &mut data[100..601] {
        *d = thresh + 1;
    }
    for d in &mut data[1101..3000] {
        *d = thresh + 1;
    }
    for d in &mut data[3501..5500] {
        *d = thresh + 1;
    }
    for d in &mut data[6000..8000] {
        *d = thresh + 1;
    }
    for d in &mut data[10001..10500] {
        *d = thresh + 1;
    }
    let symbols = parse(&data, thresh);
    assert_eq!("j e", symbols);
}

#[test]
fn parse_t() {
    // One long run of 1501 loud samples decodes to a single dash.
    let mut data: [i16; 2000] = [0; 2000];
    let thresh = 100;
    for d in &mut data[100..1601] {
        *d = thresh + 1;
    }
    let symbols = parse(&data, thresh);
    assert_eq!("t", symbols);
}

#[test]
fn parse_twice_gives_identical_output() {
    let mut data: [i16; 15000] = [0; 15000];
    let thresh = 100;
    for d in &mut data[100..601] {
        *d = thresh + 1;
    }
    for d in &mut data[2000..4000] {
        *d = thresh + 1;
    }
    let first = parse(&data, thresh);
    let second = parse(&data, thresh);
    assert_eq!(first, second);
}

#[test]
fn parse_has_no_trailing_whitespace() {
    // The stream ends deep inside a silence long enough for a word
    // gap, yet the output carries no trailing separator.
    let mut data: [i16; 12000] = [0; 12000];
    let thresh = 100;
    for d in &mut data[100..601] {
        *d = thresh + 1;
    }
    let text = parse(&data, thresh);
    assert_eq!("e", text);
    assert!(!text.ends_with(' '));
    assert_eq!(text, text.trim_end());
}

#[test]
fn parse_unknown_group_degrades_to_question_mark() {
    // Seven dots name no letter or digit, so the group decodes to ?.
    let mut data: [i16; 16000] = [0; 16000];
    let thresh = 100;
    let mut start = 100;
    for _ in 0..7 {
        for d in &mut data[start..start + 501] {
            *d = thresh + 1;
        }
        start += 1000;
    }
    let text = parse(&data, thresh);
    assert_eq!("?", text);
}

#[test]
fn parse_empty_stream_is_empty_text() {
    let data: [i16; 0] = [];
    assert_eq!("", parse(&data, 100));
}
