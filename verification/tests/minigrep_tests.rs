use book_examples::minigrep;
use book_examples::minigrep2;

#[test]
fn case_sensitive() {
    let query = "duct";
    let contents = "\
Rust:
safe, fast, productive.
Pick three.
Duct tape.";

    assert_eq!(vec!["safe, fast, productive."], minigrep::search(query, contents));
}

#[test]
fn case_insensitive() {
    let query = "rUsT";
    let contents = "\
Rust:
safe, fast, productive.
Pick three.
Trust me.";

    assert_eq!(
        vec!["Rust:", "Trust me."],
        minigrep::search_case_insensitive(query, contents)
    );
}

#[test]
fn lib_case_sensitive() {
    let query = "duct";
    let contents = "\
Rust:
safe, fast, productive.
Pick three.
Duct tape.";

    assert_eq!(vec!["safe, fast, productive."], minigrep2::search(query, contents));
}

#[test]
fn lib_case_insensitive() {
    let query = "rUsT";
    let contents = "\
Rust:
safe, fast, productive.
Pick three.
Trust me.";

    assert_eq!(
        vec!["Rust:", "Trust me."],
        minigrep2::search_case_insensitive(query, contents)
    );
}

#[test]
fn search_empty_contents() {
    let found: Vec<&str> = minigrep::search("abc", "");
    assert!(found.is_empty());
}

#[test]
fn search_empty_query_matches_every_line() {
    assert_eq!(vec!["one", "two"], minigrep::search("", "one\ntwo"));
}

#[test]
fn search_handles_crlf_line_endings() {
    assert_eq!(vec!["b line"], minigrep::search("b", "a line\r\nb line\r\n"));
}

#[test]
fn search_keeps_line_order() {
    let contents = "first match\nnothing here\nsecond match";
    assert_eq!(vec!["first match", "second match"], minigrep::search("match", contents));
}

#[test]
fn config_new_rejects_short_argument_lists() {
    let args = vec![String::from("minigrep"), String::from("query")];
    let err = minigrep::Config::new(&args, true).unwrap_err();
    assert_eq!("not enough arguments", err);
}

#[test]
fn config_new_reads_query_and_filename() {
    let args = vec![
        String::from("minigrep"),
        String::from("needle"),
        String::from("haystack.txt"),
    ];
    let config = minigrep::Config::new(&args, false).unwrap();
    assert_eq!("needle", config.query);
    assert_eq!("haystack.txt", config.filename);
    assert!(!config.case_sensitive);
}

#[test]
fn config2_new_reports_each_missing_argument() {
    let none = vec![String::from("minigrep2")];
    assert_eq!(
        "Didn't get a query string",
        minigrep2::Config::new(&none, true).unwrap_err()
    );
    let one = vec![String::from("minigrep2"), String::from("query")];
    assert_eq!(
        "Didn't get a file name",
        minigrep2::Config::new(&one, true).unwrap_err()
    );
}

#[test]
fn matching_lines_honours_case_flag() {
    let args = vec![
        String::from("prog"),
        String::from("rUsT"),
        String::from("poem.txt"),
    ];
    let contents = "Rust:\nTrust me.";
    let sensitive = minigrep::Config::new(&args, true).unwrap();
    let found: Vec<&str> = minigrep::matching_lines(&sensitive, contents);
    assert!(found.is_empty());
    let insensitive = minigrep::Config::new(&args, false).unwrap();
    assert_eq!(vec!["Rust:", "Trust me."], minigrep::matching_lines(&insensitive, contents));
}

#[test]
fn matching_lines2_honours_case_flag() {
    let args = vec![
        String::from("prog"),
        String::from("Duct"),
        String::from("poem.txt"),
    ];
    let contents = "Duct tape.\nproductive.";
    let sensitive = minigrep2::Config::new(&args, true).unwrap();
    assert_eq!(vec!["Duct tape."], minigrep2::matching_lines(&sensitive, contents));
    let insensitive = minigrep2::Config::new(&args, false).unwrap();
    assert_eq!(
        vec!["Duct tape.", "productive."],
        minigrep2::matching_lines(&insensitive, contents)
    );
}
