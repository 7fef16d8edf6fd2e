use wavemorse::minigrep::{isearch, search, Config};

#[test]
fn one_result() {
    let query = "duct";
    let contents = "\
Rust:
safe, fast, productive.
Pick three.";

    assert_eq!(vec!["safe, fast, productive."], search(query, contents));
}

#[test]
fn case_insensitive() {
    let query = "DuCt";
    let contents = "\
Rust: 
safe, fast, productive.
Pick three.";
    assert_eq!(vec!["safe, fast, productive."], isearch(query, contents));
}

#[test]
fn search_multiple_lines() {
    let contents = "alpha\nbeta\nalphabet\ngamma";
    assert_eq!(vec!["alpha", "alphabet"], search("alpha", contents));
    assert_eq!(Vec::<&str>::new(), search("delta", contents));
}

#[test]
fn search_strips_carriage_returns() {
    let contents = "one\r\ntwo\r\nthree";
    assert_eq!(vec!["two"], search("tw", contents));
}

#[test]
fn search_empty_query_keeps_all_lines() {
    let contents = "a\nb";
    assert_eq!(vec!["a", "b"], search("", contents));
}

#[test]
fn isearch_folds_both_sides() {
    let contents = "LOUD NOISES\nquiet words";
    assert_eq!(vec!["LOUD NOISES"], isearch("loud", contents));
}

#[test]
fn config_new_wants_three_args() {
    let args = vec!["prog".to_string(), "needle".to_string(), "file.txt".to_string()];
    let cfg = Config::new(&args, true).unwrap();
    assert_eq!(cfg.search_for, "needle");
    assert_eq!(cfg.fname, "file.txt");
    assert!(cfg.case_sensitive);

    let too_few = vec!["prog".to_string()];
    assert!(Config::new(&too_few, false).is_err());
}
