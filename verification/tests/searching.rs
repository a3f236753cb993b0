use handles::search::{search, search_case_insensitive, Config};

#[test]
fn case_sensitive() {
    let query = "duct";
    let contents = "\
Rust:
safe, fast, productive.
Pick three.
Duck tape.";

    assert_eq!(vec!["safe, fast, productive."], search(query, contents));
}

#[test]
fn case_insensitive() {
    let query = "rUsT";
    let contents = "\
Rust:
safe, fast, productive.
Pick three.
Trust me.";

    assert_eq!(vec!["Rust:", "Trust me."], search_case_insensitive(query, contents));
}

#[test]
fn empty_query_matches_every_line() {
    let contents = "one\ntwo\nthree";
    assert_eq!(vec!["one", "two", "three"], search("", contents));
}

#[test]
fn empty_text_has_no_lines() {
    assert!(search("anything", "").is_empty());
    assert!(search_case_insensitive("anything", "").is_empty());
}

#[test]
fn final_line_ending_opens_no_empty_line() {
    assert_eq!(vec!["a", "b"], search("", "a\nb\n"));
}

#[test]
fn carriage_returns_are_stripped_at_line_ends() {
    let contents = "alpha\r\nbeta\r\ngamma";
    assert_eq!(vec!["alpha", "beta", "gamma"], search("", contents));
    assert_eq!(vec!["beta"], search("bet", contents));
}

#[test]
fn unmatched_query_finds_nothing() {
    let contents = "\
Rust:
safe, fast, productive.";
    assert!(search("zebra", contents).is_empty());
}

#[test]
fn config_requires_three_arguments() {
    let args = vec![String::from("prog"), String::from("query")];
    assert!(matches!(Config::build(&args, false), Err("Not enough arguments.")));

    let args = vec![String::from("prog"), String::from("needle"), String::from("hay.txt")];
    let config = Config::build(&args, true).expect("three arguments suffice");
    assert_eq!(config.query, "needle");
    assert_eq!(config.file_path, "hay.txt");
    assert!(config.ignore_case);
}
