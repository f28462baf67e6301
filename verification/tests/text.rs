use termboard::text::{find_char, split_command, split_words, str_eq};

#[test]
fn find_char_gives_the_first_space() {
    assert_eq!(find_char("echo hello world", ' '), 4);
    assert_eq!(find_char(" x", ' '), 0);
}

#[test]
fn find_char_gives_the_length_when_absent() {
    assert_eq!(find_char("echo", ' '), 4);
    assert_eq!(find_char("", ' '), 0);
}

#[test]
fn find_char_counts_characters_not_bytes() {
    assert_eq!(find_char("é è", ' '), 1);
}

#[test]
fn split_command_parts_name_and_tail() {
    let (name, tail) = split_command("echo hello world");
    assert_eq!(name, "echo");
    assert_eq!(tail, "hello world");
}

#[test]
fn split_command_without_space_has_empty_tail() {
    let (name, tail) = split_command("ls");
    assert_eq!(name, "ls");
    assert_eq!(tail, "");
}

#[test]
fn split_command_keeps_further_spaces_in_the_tail() {
    let (name, tail) = split_command("a  b ");
    assert_eq!(name, "a");
    assert_eq!(tail, " b ");
}

#[test]
fn split_command_of_empty_text() {
    let (name, tail) = split_command("");
    assert_eq!(name, "");
    assert_eq!(tail, "");
}

#[test]
fn split_words_splits_at_every_space() {
    assert_eq!(split_words("echo hello world"), vec!["echo", "hello", "world"]);
}

#[test]
fn split_words_keeps_empty_pieces() {
    assert_eq!(split_words("a  b "), vec!["a", "", "b", ""]);
    assert_eq!(split_words(""), vec![""]);
    assert_eq!(split_words(" "), vec!["", ""]);
}

#[test]
fn split_words_agrees_with_std_split() {
    let samples = ["nosuchbinary --flag", "x", " lead", "trail ", "a b c d e"];
    for s in samples {
        let expected: Vec<String> = s.split(' ').map(|p| p.to_string()).collect();
        assert_eq!(split_words(s), expected);
    }
}

#[test]
fn str_eq_compares_contents() {
    assert!(str_eq("command", "command"));
    assert!(!str_eq("command", "normal"));
    assert!(!str_eq("", ":"));
}
