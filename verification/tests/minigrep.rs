use snake_game::minigrep::{contains, run, search, search_case_insensitive, Config};

#[test]
fn case_sensitive() {
    let query = String::from("duct");
    let contents = "\
Rust:
safe, fast, productive.
Pick three.
Duct tape.";

    assert_eq!(vec!["safe, fast, productive."], search(query, contents))
}

#[test]
fn case_insensitive() {
    let query = String::from("rUsT");
    let contents = "\
Rust:
safe, fast, productive.
Pick three.
Trust me.";

    assert_eq!(
        vec!["Rust:", "Trust me."],
        search_case_insensitive(query, contents)
    );
}

#[test]
fn indented_lines_keep_their_blanks() {
    let contents = "\
  Rust:
  safe, fast, productive.
  Pick three.
  Duct tape.";
    assert_eq!(
        search(String::from("duct"), contents),
        vec!["  safe, fast, productive."]
    );
    assert_eq!(search(String::from("  Pick"), contents), vec!["  Pick three."]);
    assert_eq!(search(String::from(" Rust"), contents), Vec::<&str>::new());
}

#[test]
fn indented_lines_keep_their_blanks_whatever_the_case() {
    let contents = "\
  Rust:
  safe, fast, productive.
  Pick three.
  Trust me.";
    assert_eq!(
        search_case_insensitive(String::from("rUsT"), contents),
        vec!["Rust:", "  Trust me."]
    );
}

#[test]
fn search_keeps_lines_as_they_stand() {
    let contents = "  one\r\n two \n\nthree\r";
    assert_eq!(search(String::from("o"), contents), vec!["  one", " two "]);
    assert_eq!(search(String::from("three"), contents), vec!["three\r"]);
    assert_eq!(search(String::from("\r"), contents), vec!["three\r"]);
}

#[test]
fn empty_query_matches_every_line() {
    let contents = "a\n\nb\n";
    assert_eq!(search(String::new(), contents), vec!["a", "", "b"]);
    assert_eq!(search_case_insensitive(String::new(), contents), vec!["a", "", "b"]);
}

#[test]
fn empty_text_has_no_lines() {
    assert_eq!(search(String::from("a"), ""), Vec::<&str>::new());
    assert_eq!(search(String::new(), ""), Vec::<&str>::new());
    assert_eq!(search(String::new(), "\n"), vec![""]);
}

#[test]
fn search_agrees_with_the_standard_library() {
    let texts = ["", "\n", "a", "a\n", "a\r\n", "a\r", "\r\n\r\n", "ab\ncd\r\nef", "x\n\ny\n\n", "\r", "é\r\nü\n"];
    for text in texts {
        let expected: Vec<&str> = text.lines().collect();
        assert_eq!(search(String::new(), text), expected);
    }
}

#[test]
fn search_finds_a_query_at_either_end() {
    let contents = "abc\nbcd\ncde";
    assert_eq!(search(String::from("c"), contents), vec!["abc", "bcd", "cde"]);
    assert_eq!(search(String::from("ab"), contents), vec!["abc"]);
    assert_eq!(search(String::from("de"), contents), vec!["cde"]);
    assert_eq!(search(String::from("abcd"), contents), Vec::<&str>::new());
}

#[test]
fn search_works_beyond_ascii() {
    let contents = "Grüße\nÄRGER\nnichts";
    assert_eq!(search(String::from("üß"), contents), vec!["Grüße"]);
    assert_eq!(search_case_insensitive(String::from("ärger"), contents), vec!["ÄRGER"]);
    assert_eq!(search(String::from("ärger"), contents), Vec::<&str>::new());
}

#[test]
fn case_insensitive_folds_both_sides() {
    let contents = "ABC\nabc\nAbC\nxyz";
    assert_eq!(search_case_insensitive(String::from("aBc"), contents), vec!["ABC", "abc", "AbC"]);
    assert_eq!(search(String::from("aBc"), contents), Vec::<&str>::new());
}

#[test]
fn contains_finds_unbroken_pieces_only() {
    assert!(contains("trust me.", "rust"));
    assert!(contains("rust", "rust"));
    assert!(contains("rust", ""));
    assert!(contains("", ""));
    assert!(!contains("", "a"));
    assert!(!contains("rus", "rust"));
    assert!(!contains("r-u-s-t", "rust"));
    assert!(contains("aab", "ab"));
    assert!(!contains("Rust", "rust"));
}

#[test]
fn config_takes_the_first_two_arguments() {
    let args = vec![String::from("needle"), String::from("poem.txt"), String::from("more")];
    let config = Config::new(args, true).ok().unwrap();
    assert_eq!(config.query, "needle");
    assert_eq!(config.file_name, "poem.txt");
    assert!(config.sensitive);
}

#[test]
fn config_needs_a_query() {
    assert_eq!(Config::new(Vec::new(), false).err(), Some("Didn't get a query string"));
}

#[test]
fn config_needs_a_file_name() {
    assert_eq!(
        Config::new(vec![String::from("needle")], false).err(),
        Some("Didn't get a file name")
    );
}

#[test]
fn run_follows_the_configuration() {
    let contents = "Rust:\nTrust me.\nrust";
    let exact = Config { query: String::from("rust"), file_name: String::new(), sensitive: true };
    let folded = Config { query: String::from("RUST"), file_name: String::new(), sensitive: false };
    assert_eq!(run(&exact, contents), vec!["Trust me.", "rust"]);
    assert_eq!(run(&folded, contents), vec!["Rust:", "Trust me.", "rust"]);
}
