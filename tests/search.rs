use rust_book::search::{contains, search, search_case_insensitive, search_with, select_lines, Config};

#[test]
fn case_sensitive() {
    let query = "duct";
    let contents = "\
Rust:
safe, fast, productive.
Pick three.
Duct tape.";

    assert_eq!(vec!["safe, fast, productive."], search(query, contents));
}

#[test]
fn case_insensitive() {
    let query = "rUsT";
    let contents = "\
Rust:
safe, fast, productive.
Pick three.
Trust me.";

    assert_eq!(
        vec!["Rust:", "Trust me."],
        search_case_insensitive(query, contents)
    );
}

#[test]
fn search_strips_line_terminators() {
    let contents = "one fish\r\ntwo fish\n\nred fish\n";
    assert_eq!(search("fish", contents), vec!["one fish", "two fish", "red fish"]);
    assert_eq!(search("", contents), vec!["one fish", "two fish", "", "red fish"]);
    assert_eq!(search("x", ""), Vec::<&str>::new());
    assert_eq!(search("\r", "a\rb"), vec!["a\rb"]);
}

#[test]
fn contains_finds_runs() {
    assert!(contains("productive", "duct"));
    assert!(contains("abc", ""));
    assert!(!contains("ab", "abc"));
    assert!(!contains("Duct", "duct"));
}

#[test]
fn config_build_reads_query_and_path() {
    let args = vec!["prog".to_string(), "to".to_string(), "poem.txt".to_string()];
    let config = Config::build(args, true).ok().unwrap();
    assert_eq!(config.query, "to");
    assert_eq!(config.file_path, "poem.txt");
    assert!(config.case_sensitive);
}

#[test]
fn config_build_reports_missing_arguments() {
    assert_eq!(
        Config::build(vec!["prog".to_string()], false).err(),
        Some("Didn't get a query string")
    );
    assert_eq!(
        Config::build(vec!["prog".to_string(), "to".to_string()], false).err(),
        Some("Didn't get a file path")
    );
}

#[test]
fn select_lines_goes_by_folded_text() {
    let lines = vec!["Rust:", "safe", "Trust me."];
    let folded = vec!["rust:".to_string(), "safe".to_string(), "trust me.".to_string()];
    assert_eq!(select_lines(&lines, &folded, "rust"), vec!["Rust:", "Trust me."]);
    // The folded texts decide, not the lines themselves.
    let unchanged = vec!["Rust:".to_string(), "safe".to_string(), "Trust me.".to_string()];
    assert_eq!(select_lines(&lines, &unchanged, "rust"), vec!["Trust me."]);
    assert_eq!(select_lines(&lines, &folded, "zzz"), Vec::<&str>::new());
}

#[test]
fn search_with_follows_the_config() {
    let contents = "Rust:\nTrust me.";
    let args = || vec!["prog".to_string(), "rUsT".to_string(), "f".to_string()];
    let sensitive = Config::build(args(), true).ok().unwrap();
    assert_eq!(search_with(&sensitive, contents), Vec::<&str>::new());
    let insensitive = Config::build(args(), false).ok().unwrap();
    assert_eq!(search_with(&insensitive, contents), vec!["Rust:", "Trust me."]);
}
