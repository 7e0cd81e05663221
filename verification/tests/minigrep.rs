use rustyflame::minigrep::{
    search_line, search_line_case_insensitive, search_line_case_sensitive, search_line_core,
    CaseSensitive, Config,
};

#[test]
fn case_sensitive_match_one() {
    let query = "duct";
    let contents = "\
        Rust : 
        safe, fast, productive.
        , pick three.
        Duct tape";

    assert_eq!(
        vec!["safe, fast, productive."],
        search_line(query, contents, CaseSensitive::Yes)
            .iter()
            .map(|fstr| fstr.trim_start_matches(" "))
            .collect::<Vec<&str>>()
    )
}

#[test]
fn case_sensitive_match_none() {
    let query = "monomorphization";
    let contents = "\
        Rust : 
        safe, fast, productive.
        , pick three.";

    assert_eq!(
        Vec::<&str>::new(),
        search_line(query, contents, CaseSensitive::Yes)
            .iter()
            .map(|fstr| fstr.trim_start_matches(" "))
            .collect::<Vec<&str>>()
    )
}

#[test]
fn case_insensitive_match_one() {
    let query = "trUst";
    let contents = "\
        Rust :
        safe, fast, productive.
        , pick three.
        Trust me";

    assert_eq!(
        vec!["Trust me"],
        search_line(query, contents, CaseSensitive::No)
            .iter()
            .map(|fstr| fstr.trim_start_matches(" "))
            .collect::<Vec<&str>>()
    )
}

#[test]
fn case_insensitive_match_two() {
    let query = "rUst";
    let contents = "\
        Rust :
        safe, fast, productive.
        , pick three.
        Trust me";

    assert_eq!(
        vec!["Rust :", "Trust me"],
        search_line(query, contents, CaseSensitive::No)
            .iter()
            .map(|fstr| fstr.trim_start_matches(" "))
            .collect::<Vec<&str>>()
    )
}

#[test]
fn lines_end_at_line_feeds_and_lose_their_carriage_return() {
    let contents = "one\r\ntwo\n\nthree\r";
    let all = search_line_core(contents, |_| true);
    assert_eq!(all, vec!["one", "two", "", "three\r"]);
    assert_eq!(search_line_core("", |_| true), Vec::<&str>::new());
    assert_eq!(search_line_core("a\n", |_| true), vec!["a"]);
}

#[test]
fn only_matching_lines_are_kept_in_order() {
    let contents = "ab\ncd\nabc\nxaby";
    assert_eq!(search_line_case_sensitive("ab", contents), vec!["ab", "abc", "xaby"]);
    assert_eq!(search_line_case_sensitive("AB", contents), Vec::<&str>::new());
    assert_eq!(search_line_case_insensitive("AB", contents), vec!["ab", "abc", "xaby"]);
    assert_eq!(search_line_case_sensitive("", contents), vec!["ab", "cd", "abc", "xaby"]);
}

#[test]
fn config_takes_query_and_file_name() {
    let args = vec![
        String::from("minigrep"),
        String::from("needle"),
        String::from("haystack.txt"),
        String::from("ignored"),
    ];
    let config = Config::new(&args, CaseSensitive::No).unwrap();
    assert_eq!(config.query, "needle");
    assert_eq!(config.filename, "haystack.txt");
    assert_eq!(config.case_sensitive, CaseSensitive::No);
}

#[test]
fn config_says_what_is_missing() {
    let none: Vec<String> = vec![];
    assert_eq!(Config::new(&none, CaseSensitive::Yes).err(), Some("No query defined"));
    let one = vec![String::from("minigrep")];
    assert_eq!(Config::new(&one, CaseSensitive::Yes).err(), Some("No query defined"));
    let two = vec![String::from("minigrep"), String::from("needle")];
    assert_eq!(Config::new(&two, CaseSensitive::Yes).err(), Some("No file defined"));
}
