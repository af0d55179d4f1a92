use topaz::config::{parse_config, ConfigStore, Configuration};
use topaz::text::{chars_of, find_in};

fn value_of<'a>(config: &'a Configuration, key: &str) -> Option<&'a str> {
    config.get(key).map(|value| value.as_str())
}

#[test]
fn last_of_two_lines_with_one_key_wins() {
    let config = parse_config("file=/tmp/a.mp4\n# comment\nbad line\nfile=/tmp/b.mp4");
    assert_eq!(config.len(), 1);
    assert_eq!(value_of(&config, "file"), Some("/tmp/b.mp4"));
    assert_eq!(config.file().map(|f| f.as_str()), Some("/tmp/b.mp4"));
}

#[test]
fn empty_text_has_no_entries() {
    let config = parse_config("");
    assert!(config.is_empty());
    assert_eq!(config.len(), 0);
    assert!(!config.contains_key("file"));
    assert_eq!(config.file(), None);
}

#[test]
fn single_pair_is_read_as_written() {
    let config = parse_config("file=/media/x.mp4");
    assert!(!config.is_empty());
    assert_eq!(config.len(), 1);
    assert_eq!(value_of(&config, "file"), Some("/media/x.mp4"));
}

#[test]
fn trailing_newline_adds_nothing() {
    let config = parse_config("file=/media/x.mp4\n");
    assert_eq!(config.len(), 1);
    assert_eq!(value_of(&config, "file"), Some("/media/x.mp4"));
}

#[test]
fn blank_and_comment_lines_are_skipped() {
    let config = parse_config("\n\n# only a comment\n#\nfile=a\n\n");
    assert_eq!(config.len(), 1);
    assert_eq!(value_of(&config, "file"), Some("a"));
}

#[test]
fn line_without_equals_is_skipped() {
    let config = parse_config("bad line\nanother");
    assert_eq!(config.len(), 0);
}

#[test]
fn comment_is_cut_off_the_value() {
    let config = parse_config("file=/tmp/a.mp4# the wallpaper");
    assert_eq!(value_of(&config, "file"), Some("/tmp/a.mp4"));
}

#[test]
fn nothing_is_trimmed() {
    let config = parse_config(" file = /tmp/a.mp4 # the wallpaper");
    assert_eq!(config.len(), 1);
    assert_eq!(value_of(&config, " file "), Some(" /tmp/a.mp4 "));
    assert!(!config.contains_key("file"));
}

#[test]
fn equals_after_the_comment_sign_does_not_count() {
    let config = parse_config("file#=/tmp/a.mp4");
    assert_eq!(config.len(), 0);
}

#[test]
fn value_is_cut_at_the_first_equals_only() {
    let config = parse_config("opts=a=b=c");
    assert_eq!(config.len(), 1);
    assert_eq!(value_of(&config, "opts"), Some("a=b=c"));
}

#[test]
fn empty_key_is_skipped() {
    let config = parse_config("=/tmp/a.mp4");
    assert_eq!(config.len(), 0);
}

#[test]
fn empty_value_is_skipped() {
    let config = parse_config("file=\nfile=# nothing\nother=1");
    assert_eq!(config.len(), 1);
    assert!(!config.contains_key("file"));
    assert_eq!(value_of(&config, "other"), Some("1"));
}

#[test]
fn unknown_keys_are_kept() {
    let config = parse_config("file=/tmp/a.mp4\nvolume=3\nmode=loop");
    assert_eq!(config.len(), 3);
    assert_eq!(value_of(&config, "volume"), Some("3"));
    assert_eq!(value_of(&config, "mode"), Some("loop"));
    assert_eq!(value_of(&config, "missing"), None);
}

#[test]
fn carriage_return_stays_in_the_value() {
    let config = parse_config("file=a\r\nnext=b");
    assert_eq!(value_of(&config, "file"), Some("a\r"));
    assert_eq!(value_of(&config, "next"), Some("b"));
}

#[test]
fn text_beyond_ascii_is_cut_by_characters() {
    let config = parse_config("dätei=/größe/ü.mp4# kömmentar\nfile=日本語");
    assert_eq!(config.len(), 2);
    assert_eq!(value_of(&config, "dätei"), Some("/größe/ü.mp4"));
    assert_eq!(value_of(&config, "file"), Some("日本語"));
}

#[test]
fn one_more_line_replaces_the_value_of_its_key() {
    let before = parse_config("a=1\nb=2");
    let after = parse_config("a=1\nb=2\na=3");
    assert_eq!(value_of(&before, "a"), Some("1"));
    assert_eq!(value_of(&after, "a"), Some("3"));
    assert_eq!(value_of(&after, "b"), Some("2"));
    assert_eq!(after.len(), 2);
}

#[test]
fn configuration_insert_replaces() {
    let mut config = Configuration::new();
    assert_eq!(config.len(), 0);
    config.insert("file".to_string(), "a".to_string());
    config.insert("file".to_string(), "b".to_string());
    config.insert("other".to_string(), "c".to_string());
    assert_eq!(config.len(), 2);
    assert_eq!(value_of(&config, "file"), Some("b"));
    assert!(config.contains_key("other"));
}

#[test]
fn store_load_rebuilds_the_snapshot_in_full() {
    let mut store = ConfigStore::new("/home/u/.config/topaz/topaz.conf".to_string());
    assert_eq!(store.path().as_str(), "/home/u/.config/topaz/topaz.conf");
    assert_eq!(store.snapshot().len(), 0);
    store.load("file=a\nvolume=3");
    assert_eq!(store.snapshot().len(), 2);
    store.load("mode=loop");
    assert_eq!(store.snapshot().len(), 1);
    assert_eq!(value_of(store.snapshot(), "mode"), Some("loop"));
    assert!(!store.snapshot().contains_key("file"));
    assert_eq!(store.path().as_str(), "/home/u/.config/topaz/topaz.conf");
}

#[test]
fn chars_of_gives_the_characters_in_order() {
    assert_eq!(chars_of("a=ü"), vec!['a', '=', 'ü']);
    assert_eq!(chars_of(""), Vec::<char>::new());
}

#[test]
fn find_in_gives_the_first_position_or_the_end() {
    let chars = chars_of("ab=cd=e");
    assert_eq!(find_in(&chars, 0, 7, '='), 2);
    assert_eq!(find_in(&chars, 3, 7, '='), 5);
    assert_eq!(find_in(&chars, 3, 5, '='), 5);
    assert_eq!(find_in(&chars, 0, 7, '#'), 7);
    assert_eq!(find_in(&chars, 2, 2, '='), 2);
}
