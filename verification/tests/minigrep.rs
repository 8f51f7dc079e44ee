use lessons::minigrep::search;
use lessons::minigrep::search_case_insensitive;
use lessons::minigrep::Config;

#[test]
fn one_result() {
    let query = "duct";
    let contents = "\
Rust:
Safe, fast, productive.
Pick three.
Duct tape.";

    assert_eq!(
        vec!["Safe, fast, productive."],
        search(query, contents)
    )
}

#[test]
fn case_insensitive() {
    let query = "rUsT";
    let contents = "\
Rust:
safe, fast, productive.
Pick three.
Trust me.";

    assert_eq!(
        vec!["Rust:", "Trust me."],
        search_case_insensitive(query, contents)
    );
}

fn args(list: &[&str]) -> Vec<String> {
    list.iter().map(|s| s.to_string()).collect()
}

#[test]
fn config_missing_query() {
    let r = Config::new(&args(&["minigrep"]), false);
    assert_eq!(Err(String::from("Didn't get a query string.")), r.map(|_| ()));
}

#[test]
fn config_missing_filename_and_arguments() {
    let r = Config::new(&args(&["minigrep", "needle"]), false);
    assert_eq!(
        Err(String::from("Didn't get a file name or argument list.")),
        r.map(|_| ())
    );
}

#[test]
fn config_missing_filename_after_flags() {
    let r = Config::new(&args(&["minigrep", "needle", "-i"]), false);
    assert_eq!(Err(String::from("Didn't get a file name.")), r.map(|_| ()));
}

#[test]
fn config_invalid_flag() {
    let r = Config::new(&args(&["minigrep", "needle", "-x", "poem.txt"]), false);
    assert_eq!(Err(String::from("Invalid argument: x")), r.map(|_| ()));
}

#[test]
fn config_with_case_insensitive_flag() {
    let c = Config::new(&args(&["minigrep", "needle", "-i", "poem.txt"]), false).unwrap();
    assert_eq!("needle", c.query);
    assert_eq!("poem.txt", c.filename);
    assert!(!c.case_sensitive);
}

#[test]
fn config_without_flags() {
    let c = Config::new(&args(&["minigrep", "needle", "poem.txt"]), false).unwrap();
    assert_eq!("needle", c.query);
    assert_eq!("poem.txt", c.filename);
    assert!(c.case_sensitive);
}

#[test]
fn config_env_controls_case() {
    let c = Config::new(&args(&["minigrep", "needle", "poem.txt"]), true).unwrap();
    assert!(!c.case_sensitive);
}

#[test]
fn search_empty_query_matches_every_line() {
    assert_eq!(vec!["a", "b"], search("", "a\nb"));
}

#[test]
fn search_handles_crlf_lines() {
    assert_eq!(vec!["one"], search("on", "one\r\ntwo\r\n"));
}
