use manufacturers::cli::{plan, usage, Command};

fn args(list: &[&str]) -> Vec<String> {
    list.iter().map(|s| s.to_string()).collect()
}

#[test]
fn no_keyword_asks_for_usage() {
    let list = args(&["vinfo"]);
    match plan(&list) {
        Command::Usage(line) => assert_eq!(line, "Usage: vinfo search term"),
        Command::Search(keyword) => panic!("unexpected search for {keyword}"),
    }
}

#[test]
fn keyword_asks_for_search() {
    let list = args(&["vinfo", "Tesla"]);
    match plan(&list) {
        Command::Search(keyword) => assert_eq!(keyword, "Tesla"),
        Command::Usage(line) => panic!("unexpected usage: {line}"),
    }
}

#[test]
fn keyword_is_taken_as_it_stands() {
    let list = args(&["vinfo", "  General Motors "]);
    match plan(&list) {
        Command::Search(keyword) => assert_eq!(keyword, "  General Motors "),
        Command::Usage(line) => panic!("unexpected usage: {line}"),
    }
    let list = args(&["vinfo", ""]);
    match plan(&list) {
        Command::Search(keyword) => assert_eq!(keyword, ""),
        Command::Usage(line) => panic!("unexpected usage: {line}"),
    }
}

#[test]
fn further_arguments_are_ignored() {
    let list = args(&["vinfo", "General", "Motors"]);
    match plan(&list) {
        Command::Search(keyword) => assert_eq!(keyword, "General"),
        Command::Usage(line) => panic!("unexpected usage: {line}"),
    }
}

#[test]
fn usage_names_the_program() {
    assert_eq!(usage("./target/debug/vinfo"), "Usage: ./target/debug/vinfo search term");
    assert_eq!(usage(""), "Usage:  search term");
}
