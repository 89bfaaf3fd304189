//! Laws of the parser, stated over the model that `LRCParser::parse` is
//! verified against: after `new(text)` and `parse()`, the parser's view is
//! `parsed(text)`, which reads the lines of `text` one by one.

use vstd::prelude::*;
use crate::lrcparser::{
    apply_tag, empty_info, is_comment, parsed, read_line, read_lines, tag_key, SongInfo,
    TagKey, WarningModel,
};
use crate::pattern::{is_lyric_line, split_on_newline, tag_groups};

verus! {

/// The line is read as a tag line: not a comment, not a lyric line, and the
/// tag pattern matches it.
pub open spec fn tag_of_line(line: Seq<char>) -> Option<(Seq<char>, Seq<char>)> {
    if !is_comment(line) && !is_lyric_line(line) {
        tag_groups(line)
    } else {
        None
    }
}

pub open spec fn tag_name(line: Seq<char>) -> Seq<char> {
    match tag_of_line(line) {
        Some((key, _)) => key,
        None => Seq::empty(),
    }
}

pub open spec fn tag_value(line: Seq<char>) -> Seq<char> {
    match tag_of_line(line) {
        Some((_, value)) => value,
        None => Seq::empty(),
    }
}

/// The line is counted as a lyric line.
pub open spec fn counts_as_lyric(line: Seq<char>) -> bool {
    !is_comment(line) && is_lyric_line(line)
}

/// The number of lines that are counted as lyric lines.
pub open spec fn lyric_line_total(lines: Seq<Seq<char>>) -> nat
    decreases lines.len(),
{
    if lines.len() == 0 {
        0
    } else {
        lyric_line_total(lines.drop_last()) + if counts_as_lyric(lines.last()) {
            1nat
        } else {
            0nat
        }
    }
}

/// The text field that tags of kind `k` write; empty for the other kinds.
pub open spec fn text_field(info: SongInfo, k: TagKey) -> Seq<char> {
    match k {
        TagKey::Title => info.title,
        TagKey::Artist => info.artist,
        TagKey::Album => info.album,
        TagKey::Author => info.author,
        TagKey::Lyricist => info.lyricist,
        TagKey::LrcAuthor => info.lrc_author,
        TagKey::Tool => info.tool,
        _ => Seq::empty(),
    }
}

pub open spec fn is_text_key(k: TagKey) -> bool {
    k != TagKey::Length && k != TagKey::Unknown
}

/// The value that the line writes into the text field of kind `k`, if any.
pub open spec fn value_for(line: Seq<char>, k: TagKey) -> Option<Seq<char>> {
    match tag_of_line(line) {
        Some((key, value)) => if tag_key(key) == k {
            Some(value)
        } else {
            None
        },
        None => None,
    }
}

/// A line that neither pattern matches leaves everything as it was.
pub proof fn lemma_unmatched_lines_change_nothing(info: SongInfo, lines: Seq<Seq<char>>)
    requires
        forall|j: int|
            0 <= j < lines.len() ==> !is_lyric_line(#[trigger] lines[j]) && tag_groups(
                lines[j],
            ) is None,
    ensures
        read_lines(info, lines) == info,
    decreases lines.len(),
{
    if lines.len() > 0 {
        let init = lines.drop_last();
        assert forall|j: int| 0 <= j < init.len() implies !is_lyric_line(#[trigger] init[j])
            && tag_groups(init[j]) is None by {
            assert(init[j] == lines[j]);
        }
        lemma_unmatched_lines_change_nothing(info, init);
        assert(lines.last() == lines[lines.len() - 1]);
    }
}

/// A text in which no line matches the lyric pattern or the tag pattern
/// parses to the defaults: empty texts, zero duration, no lyric lines, and
/// no warnings.
pub proof fn law_unmatched_text_gives_defaults(text: Seq<char>)
    requires
        forall|j: int|
            0 <= j < split_on_newline(text).len() ==> !is_lyric_line(
                #[trigger] split_on_newline(text)[j],
            ) && tag_groups(split_on_newline(text)[j]) is None,
    ensures
        parsed(text) == empty_info(),
{
    lemma_unmatched_lines_change_nothing(empty_info(), split_on_newline(text));
}

/// Reading lines adds the number of lyric lines among them to the counter,
/// as long as the counter does not reach its largest value.
pub proof fn lemma_lyric_lines_counted(info: SongInfo, lines: Seq<Seq<char>>)
    requires
        info.lyric_lines + lyric_line_total(lines) <= u64::MAX,
    ensures
        read_lines(info, lines).lyric_lines == info.lyric_lines + lyric_line_total(lines),
    decreases lines.len(),
{
    if lines.len() > 0 {
        lemma_lyric_lines_counted(info, lines.drop_last());
        let before = read_lines(info, lines.drop_last());
        let line = lines.last();
        if !is_comment(line) && !is_lyric_line(line) {
            if let Some((key, value)) = tag_groups(line) {
                assert(apply_tag(before, key, value).lyric_lines == before.lyric_lines);
            }
        }
    }
}

/// After parsing, the lyric line count is the number of lines that match
/// the lyric pattern and are not comments (below the counter's largest value).
pub proof fn law_lyric_line_count(text: Seq<char>)
    requires
        lyric_line_total(split_on_newline(text)) <= u64::MAX,
    ensures
        parsed(text).lyric_lines == lyric_line_total(split_on_newline(text)),
{
    lemma_lyric_lines_counted(empty_info(), split_on_newline(text));
}

/// Reading one line changes the text field of kind `k` only if the line is
/// a tag of that kind.
pub proof fn lemma_other_lines_keep_field(info: SongInfo, line: Seq<char>, k: TagKey)
    requires
        is_text_key(k),
    ensures
        value_for(line, k) matches Some(v) ==> text_field(read_line(info, line), k) == v,
        value_for(line, k) is None ==> text_field(read_line(info, line), k) == text_field(
            info,
            k,
        ),
{
}

/// Last write wins: when line `j` is a tag of kind `k` and no later line is,
/// the field holds line `j`'s value, whatever came before.
pub proof fn law_last_write_wins(info: SongInfo, lines: Seq<Seq<char>>, j: int, k: TagKey)
    requires
        is_text_key(k),
        0 <= j < lines.len(),
        value_for(lines[j], k) is Some,
        forall|m: int| j < m < lines.len() ==> value_for(#[trigger] lines[m], k) is None,
    ensures
        text_field(read_lines(info, lines), k) == value_for(lines[j], k)->0,
    decreases lines.len(),
{
    let init = lines.drop_last();
    lemma_other_lines_keep_field(read_lines(info, init), lines.last(), k);
    if j < lines.len() - 1 {
        assert forall|m: int| j < m < init.len() implies value_for(#[trigger] init[m], k)
            is None by {
            assert(init[m] == lines[m]);
        }
        assert(init[j] == lines[j]);
        law_last_write_wins(info, init, j, k);
        assert(value_for(lines[lines.len() - 1], k) is None);
    }
}

/// The keys `re` and `tool` both name the tool field.
pub proof fn lemma_tool_keys()
    ensures
        tag_key("re"@) == TagKey::Tool,
        tag_key("tool"@) == TagKey::Tool,
{
    reveal_strlit("ti");
    reveal_strlit("ar");
    reveal_strlit("al");
    reveal_strlit("au");
    reveal_strlit("lr");
    reveal_strlit("length");
    reveal_strlit("by");
    reveal_strlit("re");
    reveal_strlit("tool");
    assert("re"@[0] != "ti"@[0] && "re"@[0] != "ar"@[0] && "re"@[0] != "al"@[0]);
    assert("re"@[0] != "au"@[0] && "re"@[0] != "lr"@[0] && "re"@[0] != "by"@[0]);
    assert("re"@.len() != "length"@.len() && "tool"@.len() != "length"@.len());
    assert("tool"@.len() != "ti"@.len() && "tool"@.len() != "by"@.len());
}

/// `re` and `tool` write the same field: of a `re` tag line followed by a
/// `tool` tag line the second wins, and the other way round.
pub proof fn law_re_and_tool_share_a_field(
    info: SongInfo,
    re_line: Seq<char>,
    tool_line: Seq<char>,
)
    requires
        tag_of_line(re_line) matches Some((key, _)) && key == "re"@,
        tag_of_line(tool_line) matches Some((key, _)) && key == "tool"@,
    ensures
        read_lines(info, seq![re_line, tool_line]).tool == tag_value(tool_line),
        read_lines(info, seq![tool_line, re_line]).tool == tag_value(re_line),
{
    lemma_tool_keys();
    let a = seq![re_line, tool_line];
    let b = seq![tool_line, re_line];
    assert(a.drop_last() =~= seq![re_line]);
    assert(b.drop_last() =~= seq![tool_line]);
    assert(seq![re_line].drop_last() =~= Seq::<Seq<char>>::empty());
    assert(seq![tool_line].drop_last() =~= Seq::<Seq<char>>::empty());
    assert(a.last() == tool_line);
    assert(b.last() == re_line);
    assert(value_for(tool_line, TagKey::Tool) is Some);
    assert(value_for(re_line, TagKey::Tool) is Some);
    lemma_other_lines_keep_field(read_lines(info, seq![re_line]), tool_line, TagKey::Tool);
    lemma_other_lines_keep_field(read_lines(info, seq![tool_line]), re_line, TagKey::Tool);
}

/// A comment line anywhere in the input has no effect: reading the lines
/// without it gives the same result.
pub proof fn law_comment_lines_ignored(info: SongInfo, lines: Seq<Seq<char>>, j: int)
    requires
        0 <= j < lines.len(),
        is_comment(lines[j]),
    ensures
        read_lines(info, lines) == read_lines(info, lines.remove(j)),
    decreases lines.len(),
{
    if j == lines.len() - 1 {
        assert(lines.remove(j) =~= lines.drop_last());
    } else {
        let init = lines.drop_last();
        assert(init[j] == lines[j]);
        law_comment_lines_ignored(info, init, j);
        assert(lines.remove(j).drop_last() =~= init.remove(j));
        assert(lines.remove(j).last() == lines.last());
    }
}

/// An unknown tag changes no field and adds one warning that names its key.
pub proof fn law_unknown_tag_only_warns(info: SongInfo, line: Seq<char>)
    requires
        tag_of_line(line) matches Some((key, _)) && tag_key(key) == TagKey::Unknown,
    ensures
        read_line(info, line) == (SongInfo {
            warnings: info.warnings.push(WarningModel::UnknownTag(tag_name(line))),
            ..info
        }),
{
}

} // verus!
