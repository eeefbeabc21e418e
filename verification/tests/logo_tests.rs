use audiosource::logo::{default_logo_text, logo_lines};

#[test]
fn default_logo_when_nothing_is_set() {
    let out = logo_lines(&None, &None, 200, 50);
    assert_eq!(out.len(), 5);
    // every line filled up to the widest one, trailing spaces of the first
    // line cut before that
    assert!(out.iter().all(|l| l.chars().count() == 59));
    assert_eq!(out[0].trim_end(), "                   ___");
    assert_eq!(out[4], "\\__,_/\\__,_/\\__,_/_/\\____/____/\\____/\\__,_/_/   \\___/\\___/ ");
    assert!(default_logo_text().starts_with("                   ___"));
}

#[test]
fn config_art_comes_first_then_the_file() {
    let cfg = Some("AB".to_string());
    let file = Some("xyz\nw".to_string());
    assert_eq!(logo_lines(&cfg, &file, 10, 10), vec!["AB"]);
    assert_eq!(logo_lines(&None, &file, 10, 10), vec!["xyz", "w  "]);
    // blank art counts as none
    let blank = Some("  \n ".to_string());
    assert_eq!(logo_lines(&blank, &file, 10, 10), vec!["xyz", "w  "]);
    assert_eq!(logo_lines(&blank, &blank, 200, 50).len(), 5);
}

#[test]
fn trailing_whitespace_and_uneven_lines() {
    let file = Some("ab   \nabcd\t\nc\r\n".to_string());
    assert_eq!(logo_lines(&None, &file, 80, 80), vec!["ab  ", "abcd", "c   "]);
}

#[test]
fn art_is_cut_to_the_space() {
    let file = Some("abcdef\nghijkl\nmnopqr".to_string());
    assert_eq!(logo_lines(&None, &file, 3, 2), vec!["abc", "ghi"]);
    assert!(logo_lines(&None, &file, 3, 0).is_empty());
    assert_eq!(logo_lines(&None, &file, 0, 1), vec![""]);
}
