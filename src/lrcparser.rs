//! The LRC parser: classifies each line of the input as a comment, a lyric
//! line, a tag line or something to ignore, and keeps the song's metadata
//! and the number of lyric lines.

use vstd::prelude::*;
use crate::pattern::{
    compile, decimal_value, first_two_groups, is_lyric_line, leftmost, lemma_find_from,
    lemma_leftmost, length_groups, length_match_at, lines_view, regex_compiles, small_decimal,
    split_lines, split_on_newline, tag_groups, LinePattern, PatternKind, LENGTH_SOURCE,
    LYRIC_SOURCE, TAG_SOURCE,
};

verus! {

/// Something the parser noticed and skipped; parsing always goes on.
#[derive(Clone, Debug, PartialEq, Eq)]
pub enum ParseWarning {
    /// A tag whose key is none of the known ones.
    UnknownTag(String),
    /// A `length` tag whose value is not `m:s` with one or two digits each.
    InvalidLength,
}

pub enum WarningModel {
    UnknownTag(Seq<char>),
    InvalidLength,
}

impl View for ParseWarning {
    type V = WarningModel;

    open spec fn view(&self) -> WarningModel {
        match self {
            ParseWarning::UnknownTag(k) => WarningModel::UnknownTag(k@),
            ParseWarning::InvalidLength => WarningModel::InvalidLength,
        }
    }
}

pub open spec fn warnings_view(v: Seq<ParseWarning>) -> Seq<WarningModel> {
    v.map_values(|w: ParseWarning| w@)
}

/// What the parser knows of the song.
pub struct SongInfo {
    pub title: Seq<char>,
    pub artist: Seq<char>,
    pub album: Seq<char>,
    pub author: Seq<char>,
    pub lyricist: Seq<char>,
    /// The duration in seconds.
    pub length: nat,
    pub lrc_author: Seq<char>,
    pub tool: Seq<char>,
    pub lyric_lines: nat,
    pub warnings: Seq<WarningModel>,
}

/// Nothing known yet: empty texts, zero duration, no lyric lines.
pub open spec fn empty_info() -> SongInfo {
    SongInfo {
        title: Seq::empty(),
        artist: Seq::empty(),
        album: Seq::empty(),
        author: Seq::empty(),
        lyricist: Seq::empty(),
        length: 0,
        lrc_author: Seq::empty(),
        tool: Seq::empty(),
        lyric_lines: 0,
        warnings: Seq::empty(),
    }
}

/// The metadata field that a tag key writes.
#[derive(Clone, Copy, Debug, PartialEq, Eq)]
pub enum TagKey {
    Title,
    Artist,
    Album,
    Author,
    Lyricist,
    Length,
    LrcAuthor,
    Tool,
    Unknown,
}

pub open spec fn tag_key(key: Seq<char>) -> TagKey {
    if key == "ti"@ {
        TagKey::Title
    } else if key == "ar"@ {
        TagKey::Artist
    } else if key == "al"@ {
        TagKey::Album
    } else if key == "au"@ {
        TagKey::Author
    } else if key == "lr"@ {
        TagKey::Lyricist
    } else if key == "length"@ {
        TagKey::Length
    } else if key == "by"@ {
        TagKey::LrcAuthor
    } else if key == "re"@ || key == "tool"@ {
        TagKey::Tool
    } else {
        TagKey::Unknown
    }
}

/// The duration in seconds that a `length` value gives, if it is well formed.
pub open spec fn duration_of(value: Seq<char>) -> Option<nat> {
    match length_groups(value) {
        Some((m, s)) => Some(decimal_value(m) * 60 + decimal_value(s)),
        None => None,
    }
}

/// The effect of one tag on what is known.
pub open spec fn apply_tag(info: SongInfo, key: Seq<char>, value: Seq<char>) -> SongInfo {
    match tag_key(key) {
        TagKey::Title => SongInfo { title: value, ..info },
        TagKey::Artist => SongInfo { artist: value, ..info },
        TagKey::Album => SongInfo { album: value, ..info },
        TagKey::Author => SongInfo { author: value, ..info },
        TagKey::Lyricist => SongInfo { lyricist: value, ..info },
        TagKey::Length => match duration_of(value) {
            Some(d) => SongInfo { length: d, ..info },
            None => SongInfo { warnings: info.warnings.push(WarningModel::InvalidLength), ..info },
        },
        TagKey::LrcAuthor => SongInfo { lrc_author: value, ..info },
        TagKey::Tool => SongInfo { tool: value, ..info },
        TagKey::Unknown => SongInfo {
            warnings: info.warnings.push(WarningModel::UnknownTag(key)),
            ..info
        },
    }
}

/// A line that begins with `#` or `;`.
pub open spec fn is_comment(line: Seq<char>) -> bool {
    line.len() > 0 && (line[0] == '#' || line[0] == ';')
}

/// The lyric line counter goes up by one, and stays at its largest value.
pub open spec fn counted_once_more(n: nat) -> nat {
    if n < u64::MAX {
        n + 1
    } else {
        n
    }
}

/// The effect of one line: a comment is skipped, a lyric line is counted,
/// a tag line is applied, anything else is skipped.
pub open spec fn read_line(info: SongInfo, line: Seq<char>) -> SongInfo {
    if is_comment(line) {
        info
    } else if is_lyric_line(line) {
        SongInfo { lyric_lines: counted_once_more(info.lyric_lines), ..info }
    } else {
        match tag_groups(line) {
            Some((key, value)) => apply_tag(info, key, value),
            None => info,
        }
    }
}

/// The effect of the lines, in order.
pub open spec fn read_lines(info: SongInfo, lines: Seq<Seq<char>>) -> SongInfo
    decreases lines.len(),
{
    if lines.len() == 0 {
        info
    } else {
        read_line(read_lines(info, lines.drop_last()), lines.last())
    }
}

/// The three patterns compile; a fact of the regex engine, not of the input.
pub open spec fn patterns_compile() -> bool {
    regex_compiles(LYRIC_SOURCE@) && regex_compiles(TAG_SOURCE@) && regex_compiles(
        LENGTH_SOURCE@,
    )
}

/// What parsing `text` on a fresh parser yields.
pub open spec fn parsed(text: Seq<char>) -> SongInfo {
    read_lines(empty_info(), split_on_newline(text))
}

/// Whether the text `a` equals the text `b`.
fn same_text(a: &str, b: &str) -> (r: bool)
    ensures
        r == (a@ == b@),
{
    let n = a.unicode_len();
    if n != b.unicode_len() {
        return false;
    }
    let mut i: usize = 0;
    while i < n
        invariant
            i <= n,
            n == a@.len(),
            n == b@.len(),
            forall|j: int| 0 <= j < i ==> a@[j] == b@[j],
        decreases n - i,
    {
        if a.get_char(i) != b.get_char(i) {
            return false;
        }
        i = i + 1;
    }
    assert(a@ =~= b@);
    true
}

/// The field that the tag key `key` writes.
pub fn tag_key_of(key: &str) -> (r: TagKey)
    ensures
        r == tag_key(key@),
{
    if same_text(key, "ti") {
        TagKey::Title
    } else if same_text(key, "ar") {
        TagKey::Artist
    } else if same_text(key, "al") {
        TagKey::Album
    } else if same_text(key, "au") {
        TagKey::Author
    } else if same_text(key, "lr") {
        TagKey::Lyricist
    } else if same_text(key, "length") {
        TagKey::Length
    } else if same_text(key, "by") {
        TagKey::LrcAuthor
    } else if same_text(key, "re") || same_text(key, "tool") {
        TagKey::Tool
    } else {
        TagKey::Unknown
    }
}

/// The duration in seconds that a `length` value gives, if it is well formed.
fn duration_from(length_pattern: &LinePattern, value: &str) -> (r: Option<u32>)
    requires
        length_pattern.kind() == PatternKind::Length,
    ensures
        match duration_of(value@) {
            Some(d) => r == Some(d as u32) && d <= u32::MAX,
            None => r is None,
        },
{
    match first_two_groups(length_pattern, value) {
        Some((m, s)) => {
            proof {
                let v = value@;
                lemma_leftmost(|i: int| length_match_at(v, i), 0, v.len() as int);
                let i = leftmost(|i: int| length_match_at(v, i), 0, v.len() as int)->0;
                lemma_find_from(v, ':', i);
                assert(length_match_at(v, i));
            }
            let minutes = small_decimal(m.as_str());
            let seconds = small_decimal(s.as_str());
            Some(minutes * 60 + seconds)
        },
        None => None,
    }
}

/// An LRC parser over one text: build it with `new`, call `parse` once, then
/// read the fields.
pub struct LRCParser {
    text: String,
    song_title: String,
    artist: String,
    album: String,
    author: String,
    lyricist: String,
    length: u32,
    lrc_author: String,
    tool: String,
    lyrics_lines_count: u64,
    warnings: Vec<ParseWarning>,
}

impl View for LRCParser {
    type V = SongInfo;

    closed spec fn view(&self) -> SongInfo {
        SongInfo {
            title: self.song_title@,
            artist: self.artist@,
            album: self.album@,
            author: self.author@,
            lyricist: self.lyricist@,
            length: self.length as nat,
            lrc_author: self.lrc_author@,
            tool: self.tool@,
            lyric_lines: self.lyrics_lines_count as nat,
            warnings: warnings_view(self.warnings@),
        }
    }
}

impl LRCParser {
    /// The text that this parser reads.
    pub closed spec fn text(&self) -> Seq<char> {
        self.text@
    }

    /// A parser over `_text` that knows nothing yet.
    pub fn new(_text: String) -> (r: LRCParser)
        ensures
            r.text() == _text@,
            r@ == empty_info(),
    {
        let r = LRCParser {
            text: _text,
            song_title: String::new(),
            artist: String::new(),
            album: String::new(),
            author: String::new(),
            lyricist: String::new(),
            length: 0,
            lrc_author: String::new(),
            tool: String::new(),
            lyrics_lines_count: 0,
            warnings: Vec::new(),
        };
        assert(warnings_view(r.warnings@) =~= Seq::empty());
        r
    }

    pub fn get_song_title(&self) -> (r: &String)
        ensures
            r@ == self@.title,
    {
        &self.song_title
    }

    pub fn get_song_artist(&self) -> (r: &String)
        ensures
            r@ == self@.artist,
    {
        &self.artist
    }

    pub fn get_song_album(&self) -> (r: &String)
        ensures
            r@ == self@.album,
    {
        &self.album
    }

    pub fn get_song_author(&self) -> (r: &String)
        ensures
            r@ == self@.author,
    {
        &self.author
    }

    pub fn get_song_lyricist(&self) -> (r: &String)
        ensures
            r@ == self@.lyricist,
    {
        &self.lyricist
    }

    /// The seconds past the whole minutes of the duration.
    pub fn get_song_length_seconds(&self) -> (r: i32)
        ensures
            r as int == self@.length % 60,
    {
        (self.length % 60) as i32
    }

    /// The whole minutes of the duration.
    pub fn get_song_length_minutes(&self) -> (r: i32)
        ensures
            r as int == self@.length / 60,
    {
        (self.length / 60) as i32
    }

    pub fn get_lrc_author(&self) -> (r: &String)
        ensures
            r@ == self@.lrc_author,
    {
        &self.lrc_author
    }

    pub fn get_lrc_tool(&self) -> (r: &String)
        ensures
            r@ == self@.tool,
    {
        &self.tool
    }

    pub fn get_lyrics_lines_count(&self) -> (r: u64)
        ensures
            r as nat == self@.lyric_lines,
    {
        self.lyrics_lines_count
    }

    /// What parsing noticed and skipped, in the order of the lines.
    pub fn get_warnings(&self) -> (r: &Vec<ParseWarning>)
        ensures
            warnings_view(r@) == self@.warnings,
    {
        &self.warnings
    }

    fn warn(&mut self, w: ParseWarning)
        ensures
            final(self)@ == (SongInfo { warnings: old(self)@.warnings.push(w@), ..old(self)@ }),
            final(self).text() == old(self).text(),
    {
        self.warnings.push(w);
        assert(warnings_view(self.warnings@) =~= warnings_view(old(self).warnings@).push(w@));
    }

    fn do_tag(&mut self, length_pattern: &LinePattern, tag_name: String, value: String)
        requires
            length_pattern.kind() == PatternKind::Length,
        ensures
            final(self)@ == apply_tag(old(self)@, tag_name@, value@),
            final(self).text() == old(self).text(),
    {
        match tag_key_of(tag_name.as_str()) {
            TagKey::Title => self.song_title = value,
            TagKey::Artist => self.artist = value,
            TagKey::Album => self.album = value,
            TagKey::Author => self.author = value,
            TagKey::Lyricist => self.lyricist = value,
            TagKey::Length => match duration_from(length_pattern, value.as_str()) {
                Some(d) => self.length = d,
                None => self.warn(ParseWarning::InvalidLength),
            },
            TagKey::LrcAuthor => self.lrc_author = value,
            TagKey::Tool => self.tool = value,
            TagKey::Unknown => self.warn(ParseWarning::UnknownTag(tag_name)),
        }
    }

    fn read_line(
        &mut self,
        lyric_pattern: &LinePattern,
        tag_pattern: &LinePattern,
        length_pattern: &LinePattern,
        line: &str,
    )
        requires
            lyric_pattern.kind() == PatternKind::LyricLine,
            tag_pattern.kind() == PatternKind::Tag,
            length_pattern.kind() == PatternKind::Length,
        ensures
            final(self)@ == read_line(old(self)@, line@),
            final(self).text() == old(self).text(),
    {
        if line.unicode_len() > 0 {
            let first = line.get_char(0);
            if first == '#' || first == ';' {
                return;
            }
        }
        if first_two_groups(lyric_pattern, line).is_some() {
            self.lyrics_lines_count = self.lyrics_lines_count.saturating_add(1);
        } else if let Some((key, value)) = first_two_groups(tag_pattern, line) {
            self.do_tag(length_pattern, key, value);
        }
    }

    /// Reads the text line by line and keeps what it finds. Comments and
    /// lines that are neither lyric lines nor tags are skipped; unknown tags
    /// and malformed durations are recorded as warnings. Meant to be called
    /// once: a second call reads the text again over what the first found.
    pub fn parse(&mut self)
        ensures
            final(self).text() == old(self).text(),
            patterns_compile() ==> final(self)@ == read_lines(
                old(self)@,
                split_on_newline(old(self).text()),
            ),
            !patterns_compile() ==> final(self)@ == old(self)@,
    {
        let lyric_pattern = match compile(PatternKind::LyricLine, PatternKind::LyricLine.source_text()) {
            Some(p) => p,
            None => return,
        };
        let tag_pattern = match compile(PatternKind::Tag, PatternKind::Tag.source_text()) {
            Some(p) => p,
            None => return,
        };
        let length_pattern = match compile(PatternKind::Length, PatternKind::Length.source_text()) {
            Some(p) => p,
            None => return,
        };
        let lines = split_lines(self.text.as_str());
        let ghost all = lines_view(lines@);
        let mut i: usize = 0;
        while i < lines.len()
            invariant
                i <= lines@.len(),
                all == lines_view(lines@),
                all == split_on_newline(old(self).text()),
                self.text() == old(self).text(),
                self@ == read_lines(old(self)@, all.take(i as int)),
                lyric_pattern.kind() == PatternKind::LyricLine,
                tag_pattern.kind() == PatternKind::Tag,
                length_pattern.kind() == PatternKind::Length,
            decreases lines@.len() - i,
        {
            self.read_line(&lyric_pattern, &tag_pattern, &length_pattern, lines[i].as_str());
            assert(all.take(i + 1).drop_last() =~= all.take(i as int));
            i = i + 1;
        }
        assert(all.take(i as int) =~= all);
    }
}

} // verus!
