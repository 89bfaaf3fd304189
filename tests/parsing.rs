use lrcparser::lrcparser::{tag_key_of, TagKey};
use lrcparser::pattern::small_decimal;
use lrcparser::{LRCParser, ParseWarning};

fn parse(text: &str) -> LRCParser {
    let mut p = LRCParser::new(String::from(text));
    p.parse();
    p
}

fn assert_all_default(p: &LRCParser) {
    assert_eq!(p.get_song_title(), "");
    assert_eq!(p.get_song_artist(), "");
    assert_eq!(p.get_song_album(), "");
    assert_eq!(p.get_song_author(), "");
    assert_eq!(p.get_song_lyricist(), "");
    assert_eq!(p.get_song_length_minutes(), 0);
    assert_eq!(p.get_song_length_seconds(), 0);
    assert_eq!(p.get_lrc_author(), "");
    assert_eq!(p.get_lrc_tool(), "");
    assert_eq!(p.get_lyrics_lines_count(), 0);
}

#[test]
fn new_parser_knows_nothing() {
    let p = LRCParser::new(String::from("[ti: Hello]"));
    assert_all_default(&p);
    assert!(p.get_warnings().is_empty());
}

#[test]
fn unmatched_text_gives_defaults() {
    let p = parse("hello\nno tags here\n[unterminated: x\n\n1:23 plain");
    assert_all_default(&p);
    assert!(p.get_warnings().is_empty());
}

#[test]
fn empty_text_gives_defaults() {
    let p = parse("");
    assert_all_default(&p);
    assert!(p.get_warnings().is_empty());
}

#[test]
fn lyric_lines_are_counted() {
    let p = parse("[00:01.00]one\n[00:02.50]two\nnot a lyric\n[01:10.99]\n[99:59.99]last");
    assert_eq!(p.get_lyrics_lines_count(), 4);
    assert_eq!(p.get_song_title(), "");
}

#[test]
fn malformed_timestamps_are_not_counted() {
    let p = parse("[0:01.00]one\n[00:1.00]two\n[00:01:00]three\n[00:01.0]four");
    assert_eq!(p.get_lyrics_lines_count(), 0);
}

#[test]
fn title_only() {
    let p = parse("[ti: Hello]");
    assert_eq!(p.get_song_title(), "Hello");
    assert_eq!(p.get_song_artist(), "");
    assert_eq!(p.get_song_album(), "");
    assert_eq!(p.get_song_author(), "");
    assert_eq!(p.get_song_lyricist(), "");
    assert_eq!(p.get_song_length_minutes(), 0);
    assert_eq!(p.get_song_length_seconds(), 0);
    assert_eq!(p.get_lrc_author(), "");
    assert_eq!(p.get_lrc_tool(), "");
    assert_eq!(p.get_lyrics_lines_count(), 0);
}

#[test]
fn last_title_wins() {
    let p = parse("[ti: A]\n[ti: B]");
    assert_eq!(p.get_song_title(), "B");
}

#[test]
fn last_title_wins_across_other_lines() {
    let p = parse("[ti: A]\n[00:01.00]x\n[ar: C]\n[ti: B]\n[al: D]");
    assert_eq!(p.get_song_title(), "B");
    assert_eq!(p.get_song_artist(), "C");
    assert_eq!(p.get_song_album(), "D");
}

#[test]
fn length_is_split_into_minutes_and_seconds() {
    let p = parse("[length: 3:45]");
    assert_eq!(p.get_song_length_minutes(), 3);
    assert_eq!(p.get_song_length_seconds(), 45);
    assert!(p.get_warnings().is_empty());
}

#[test]
fn invalid_length_warns_and_keeps_default() {
    let p = parse("[length: notanumber]");
    assert_eq!(p.get_song_length_minutes(), 0);
    assert_eq!(p.get_song_length_seconds(), 0);
    assert_eq!(p.get_warnings(), &vec![ParseWarning::InvalidLength]);
}

#[test]
fn invalid_length_keeps_earlier_length() {
    let p = parse("[length: 1:05]\n[length: 1:2:3:]");
    assert_eq!(p.get_song_length_minutes(), 1);
    assert_eq!(p.get_song_length_seconds(), 5);
    assert_eq!(p.get_warnings(), &vec![ParseWarning::InvalidLength]);
}

#[test]
fn length_seconds_over_sixty_carry() {
    let p = parse("[length: 2:75]");
    assert_eq!(p.get_song_length_minutes(), 3);
    assert_eq!(p.get_song_length_seconds(), 15);
}

#[test]
fn length_takes_the_last_digits() {
    let p = parse("[length: 123:45]");
    assert_eq!(p.get_song_length_minutes(), 23);
    assert_eq!(p.get_song_length_seconds(), 45);
}

#[test]
fn largest_length() {
    let p = parse("[length: 99:99]");
    assert_eq!(p.get_song_length_minutes(), 100);
    assert_eq!(p.get_song_length_seconds(), 39);
}

#[test]
fn comment_lines_are_ignored() {
    let p = parse("; [ti: Ignored]\n# [00:01.00]not counted\n#[ar: Nobody]");
    assert_all_default(&p);
    assert!(p.get_warnings().is_empty());
}

#[test]
fn unknown_tag_only_warns() {
    let p = parse("[xx: foo]");
    assert_all_default(&p);
    assert_eq!(p.get_warnings(), &vec![ParseWarning::UnknownTag(String::from("xx"))]);
}

#[test]
fn re_then_tool_gives_tool() {
    let p = parse("[re: toolA]\n[tool: toolB]");
    assert_eq!(p.get_lrc_tool(), "toolB");
}

#[test]
fn tool_then_re_gives_re() {
    let p = parse("[tool: toolB]\n[re: toolA]");
    assert_eq!(p.get_lrc_tool(), "toolA");
}

#[test]
fn end_to_end_sample() {
    let text = "[ti: Sample Song]\n[ar: Sample Artist]\n[length: 2:30]\n[00:01.00]First line\n[00:05.00]Second line\n";
    let p = parse(text);
    assert_eq!(p.get_song_title(), "Sample Song");
    assert_eq!(p.get_song_artist(), "Sample Artist");
    assert_eq!(p.get_song_length_minutes(), 2);
    assert_eq!(p.get_song_length_seconds(), 30);
    assert_eq!(p.get_lyrics_lines_count(), 2);
    assert_eq!(p.get_song_album(), "");
    assert_eq!(p.get_song_author(), "");
    assert_eq!(p.get_song_lyricist(), "");
    assert_eq!(p.get_lrc_author(), "");
    assert_eq!(p.get_lrc_tool(), "");
    assert!(p.get_warnings().is_empty());
}

#[test]
fn every_known_key_sets_its_field() {
    let p = parse("[ti: T]\n[ar: Ar]\n[al: Al]\n[au: Au]\n[lr: Lr]\n[by: By]\n[re: Re]");
    assert_eq!(p.get_song_title(), "T");
    assert_eq!(p.get_song_artist(), "Ar");
    assert_eq!(p.get_song_album(), "Al");
    assert_eq!(p.get_song_author(), "Au");
    assert_eq!(p.get_song_lyricist(), "Lr");
    assert_eq!(p.get_lrc_author(), "By");
    assert_eq!(p.get_lrc_tool(), "Re");
}

#[test]
fn tag_without_space_after_colon() {
    let p = parse("[ar:Artist]");
    assert_eq!(p.get_song_artist(), "Artist");
}

#[test]
fn tag_value_keeps_later_colons_and_brackets() {
    let p = parse("[ti:  a: [b]]");
    assert_eq!(p.get_song_title(), "a: [b]");
}

#[test]
fn tag_value_of_spaces_keeps_one() {
    let p = parse("[ti:   ]");
    assert_eq!(p.get_song_title(), " ");
}

#[test]
fn tag_may_follow_other_text() {
    let p = parse("xx [al: Mid]");
    assert_eq!(p.get_song_album(), "Mid");
}

#[test]
fn carriage_returns_stop_matching() {
    let p = parse("[ti: Hello]\r\n[00:01.00]x\r\n");
    assert_eq!(p.get_song_title(), "");
    assert_eq!(p.get_lyrics_lines_count(), 1);
}

#[test]
fn warnings_come_in_line_order() {
    let p = parse("[zz: 1]\n[length: x]\n[yy: 2]");
    assert_eq!(
        p.get_warnings(),
        &vec![
            ParseWarning::UnknownTag(String::from("zz")),
            ParseWarning::InvalidLength,
            ParseWarning::UnknownTag(String::from("yy")),
        ]
    );
}

#[test]
fn tag_keys_map_to_fields() {
    assert_eq!(tag_key_of("ti"), TagKey::Title);
    assert_eq!(tag_key_of("re"), TagKey::Tool);
    assert_eq!(tag_key_of("tool"), TagKey::Tool);
    assert_eq!(tag_key_of("length"), TagKey::Length);
    assert_eq!(tag_key_of("TI"), TagKey::Unknown);
    assert_eq!(tag_key_of(""), TagKey::Unknown);
}

#[test]
fn small_decimal_values() {
    assert_eq!(small_decimal("7"), 7);
    assert_eq!(small_decimal("07"), 7);
    assert_eq!(small_decimal("59"), 59);
}
