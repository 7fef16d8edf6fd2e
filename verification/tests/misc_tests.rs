use wavemorse::cache::{workout_choice, Cacher, Muter, Shoe, Workout};
use wavemorse::calc::{apply_op, get_number};
use wavemorse::chunks::{join, lefts, pair_up, rights};
use wavemorse::enums::{maybe_does_it, MyOption};
use wavemorse::generics::{find_max, generic_max, generic_ref_max, Point, Summary};
use wavemorse::morse::{decode, Symbol};
use wavemorse::user_config::UserConfig;

#[test]
fn morse_table_lookups() {
    assert_eq!(decode(&[Symbol::Short]), "e");
    assert_eq!(decode(&[Symbol::Long]), "t");
    assert_eq!(decode(&[Symbol::Space]), " ");
    assert_eq!(
        decode(&[Symbol::Short, Symbol::Long, Symbol::Long, Symbol::Long]),
        "j"
    );
    assert_eq!(
        decode(&[Symbol::Long, Symbol::Long, Symbol::Long, Symbol::Long, Symbol::Long]),
        "0"
    );
    assert_eq!(
        decode(&[
            Symbol::Long,
            Symbol::Short,
            Symbol::Long,
            Symbol::Short,
            Symbol::Long,
            Symbol::Long
        ]),
        "!"
    );
}

#[test]
fn morse_unknown_sequences_are_question_marks() {
    assert_eq!(decode(&[]), "?");
    assert_eq!(decode(&[Symbol::Space, Symbol::Space]), "?");
    assert_eq!(
        decode(&[Symbol::Short, Symbol::Short, Symbol::Long, Symbol::Long]),
        "?"
    );
    assert_eq!(decode(&[Symbol::Short; 7]), "?");
}

#[test]
fn symbol_classification_thresholds() {
    assert!(Symbol::try_from(400).is_err());
    assert_eq!(Symbol::try_from(401).unwrap(), Symbol::Short);
    assert_eq!(Symbol::try_from(1200).unwrap(), Symbol::Short);
    assert_eq!(Symbol::try_from(1201).unwrap(), Symbol::Long);
    assert_eq!(Symbol::try_from(0).is_err(), true);
}

#[test]
fn symbol_notation_matches_codes() {
    assert_eq!(Symbol::Short.notation(), ".");
    assert_eq!(Symbol::Long.notation(), "-");
    assert_eq!(Symbol::Space.notation(), "/");
}

#[test]
fn numbers_parse_like_std() {
    for input in ["0", "42", "+42", "4294967295", "4294967296", "", "+", "-1", "1x", " 1"] {
        assert_eq!(get_number(input), input.parse::<u32>().ok(), "input {input:?}");
    }
}

#[test]
fn operations_apply() {
    assert_eq!(apply_op("+", 2, 3), Some(5));
    assert_eq!(apply_op("-", 7, 3), Some(4));
    assert_eq!(apply_op("*", 6, 7), Some(42));
    assert_eq!(apply_op("/", 9, 2), Some(4));
    assert_eq!(apply_op("%", 9, 2), None);
}

#[test]
fn pairs_split_and_join() {
    let data: Vec<u8> = vec![0, 1, 2, 3, 4, 5, 6, 7, 8, 9];
    assert_eq!(pair_up(&data), vec![(0, 1), (2, 3), (4, 5), (6, 7), (8, 9)]);
    assert_eq!(lefts(&data), vec![(0, 1), (4, 5), (8, 9)]);
    assert_eq!(rights(&data), vec![(2, 3), (6, 7)]);

    let left: Vec<u16> = lefts(&data).iter().map(|&(a, b)| join(&[a, b])).collect();
    let right: Vec<u16> = rights(&data).iter().map(|&(a, b)| join(&[a, b])).collect();
    assert_eq!(left, vec![0x0001, 0x0405, 0x0809]);
    assert_eq!(right, vec![0x0203, 0x0607]);
    assert_eq!(join(&[7]), 0);
}

#[test]
fn user_config_parses_frames() {
    let none = vec!["prog".to_string()];
    assert_eq!(UserConfig::try_from(&none).unwrap(), UserConfig { fpb: 0 });
    assert_eq!(UserConfig::default(), UserConfig { fpb: 0 });

    let good = vec!["prog".to_string(), "256".to_string()];
    assert_eq!(UserConfig::try_from(&good).unwrap(), UserConfig { fpb: 256 });

    let bad = vec!["prog".to_string(), "many".to_string()];
    assert!(UserConfig::try_from(&bad).is_err());

    let extra = vec!["p".to_string(), "1".to_string(), "2".to_string()];
    assert!(UserConfig::try_from(&extra).is_err());
}

#[test]
fn cacher_remembers_answers() {
    let mut cacher = Cacher::new(|x: u64| x * 2);
    assert_eq!(cacher.value(10), 20);
    assert_eq!(cacher.value(10), 20);
    assert_eq!(cacher.value(3), 6);
}

#[test]
fn muter_applies_function() {
    let mut m = Muter::new(|x: u64| x + 1);
    assert_eq!(m.get(41), 42);
}

#[test]
fn shoes_have_small_sizes() {
    for _ in 0..50 {
        let shoe = Shoe::new("Nike");
        assert_eq!(shoe.make, "Nike");
        assert!(shoe.size < 20);
    }
}

#[test]
fn workouts_follow_the_rules() {
    assert_eq!(workout_choice(10, 8), Workout::Exercises);
    assert_eq!(workout_choice(25, 3), Workout::Break);
    assert_eq!(workout_choice(25, 8), Workout::Running);
}

#[test]
fn my_option_holds_values() {
    let success = maybe_does_it("Hello", true);
    assert_eq!(*success.underlying_ref(), "Hello");
    assert_eq!(success.underlying(), "Hello");

    let failure: MyOption<&str> = maybe_does_it("world", false);
    assert!(matches!(failure, MyOption::Nothing(_)));
}

#[test]
fn maxima_agree() {
    let numbers = vec![4, 5, 6, 10, 3, 4, 5, 3, 2];
    assert_eq!(find_max(&numbers), 10);
    assert_eq!(generic_max(&numbers), 10);
    assert_eq!(*generic_ref_max(&numbers), 10);

    let words = vec!["pear", "apple", "zucchini"];
    assert_eq!(generic_max(&words), "zucchini");
}

#[test]
fn points_swap_halves() {
    let p = Point { x: 1u8, y: "old" };
    let q = Point { x: 'c', y: 9i64 };
    let swapped = p.swap(q);
    assert_eq!(swapped.x, 1u8);
    assert_eq!(swapped.y, 9i64);
}

#[test]
fn summaries_read_as_expected() {
    let p = Point { x: 0u8, y: 0u8 };
    assert_eq!(p.summarise(), "I'm a point!");
    assert_eq!(p.defaulted_fn(), "I've overriden the defaulted behaviour");
    assert_eq!(p.something_else(), "Im a type: I'm a point!");
    assert_eq!(7i32.summarise(), "I'm in i32");
    assert_eq!(7i32.defaulted_fn(), "Defaulted");
}

#[test]
fn docs_add_adds_one() {
    assert_eq!(wavemorse::docs::add(4), 5);
}
