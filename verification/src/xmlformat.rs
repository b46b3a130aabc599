//! The domain model of an exported list and the field formatters that turn
//! its values into their exact XML text.
//!
//! Every formatter has a character-level specification: the `ensures` of the
//! executable function states the precise sequence of characters returned,
//! through the spec functions defined here.

use vstd::prelude::*;
use vstd::string::*;
use crate::numtext::dec_str;
use crate::numtext::push_char;
use crate::numtext::u64_to_string;

verus! {

/// The user's progress state for one media item.
#[derive(PartialEq, Eq, Structural, Copy, Clone, Debug)]
pub enum Status {
    CURRENT,
    PLANNING,
    COMPLETED,
    DROPPED,
    PAUSED,
    REPEATING,
}

/// The form a media item was published in. `UNKNOWN` stands for an absent
/// format and renders as the string `Unknown`.
#[derive(PartialEq, Eq, Structural, Copy, Clone, Debug)]
#[allow(non_camel_case_types)]
pub enum Format {
    TV,
    TV_SHORT,
    MOVIE,
    SPECIAL,
    OVA,
    ONA,
    MUSIC,
    MANGA,
    NOVEL,
    ONE_SHOT,
    UNKNOWN,
}

/// A fuzzy date: any component may be absent and renders as a placeholder.
#[derive(PartialEq, Eq, Structural, Copy, Clone, Debug)]
pub struct Date {
    pub year: Option<u16>,
    pub month: Option<u8>,
    pub day: Option<u8>,
}

/// The romanized title of a media item.
#[derive(Clone, Debug, PartialEq)]
pub struct Title {
    pub romaji: String,
}

/// One media item as the source service describes it. `idMal` is the
/// identifier in the import target's own database; when it is absent the
/// item has no known mapping there.
#[derive(Clone, Debug, PartialEq)]
#[allow(non_snake_case)]
pub struct Media {
    pub idMal: Option<u64>,
    pub isAdult: bool,
    pub title: Title,
    pub format: Option<Format>,
    pub episodes: Option<u64>,
    pub chapters: Option<u64>,
    pub volumes: Option<u64>,
}

/// One (status, count) pair of the user's aggregate statistics.
#[derive(PartialEq, Eq, Structural, Copy, Clone, Debug)]
pub struct StatusEntry {
    pub status: Status,
    pub count: u32,
}

/// One entry of the user's list. `customLists` is the ordered mapping from
/// custom-list name to membership; `score` holds the decimal rendering of
/// the user's score exactly as the source reported it.
#[derive(Clone, Debug, PartialEq)]
#[allow(non_snake_case)]
pub struct MediaEntry {
    pub status: Status,
    pub repeat: u32,
    pub progress: u32,
    pub progressVolumes: Option<u32>,
    pub customLists: Vec<(String, bool)>,
    pub hiddenFromStatusLists: bool,
    pub startedAt: Date,
    pub completedAt: Date,
    pub score: String,
    pub notes: Option<String>,
    pub media: Media,
}

/// One fetched group of entries: either a standard status list or one
/// user-defined custom list.
#[derive(Clone, Debug)]
#[allow(non_snake_case)]
pub struct MediaListGroup {
    pub entries: Vec<MediaEntry>,
    pub isCustomList: bool,
}

/// The user's aggregate statistics for one media kind: a total count and
/// the per-status counts, not guaranteed to cover every status.
#[derive(Clone, Debug)]
pub struct UserStatistics {
    pub count: u64,
    pub statuses: Vec<StatusEntry>,
}

/// Which kind of list is being exported.
#[derive(PartialEq, Eq, Structural, Copy, Clone, Debug)]
pub enum ListType {
    Anime,
    Manga,
}

// ---------------------------------------------------------------------------
// XML escaping
// ---------------------------------------------------------------------------

/// What one character of tag content becomes in XML text: the five special
/// characters turn into their entities, every other character stays itself.
pub open spec fn escape_char(c: char) -> Seq<char> {
    if c == '&' {
        "&amp;"@
    } else if c == '<' {
        "&lt;"@
    } else if c == '>' {
        "&gt;"@
    } else if c == '\'' {
        "&apos;"@
    } else if c == '"' {
        "&quot;"@
    } else {
        seq![c]
    }
}

/// The XML escaping of a whole text: each character replaced independently.
pub open spec fn escape_str(s: Seq<char>) -> Seq<char>
    decreases s.len(),
{
    if s.len() == 0 {
        Seq::<char>::empty()
    } else {
        escape_str(s.drop_last()) + escape_char(s.last())
    }
}

/// Escapes the five XML special characters, ampersand included, so that
/// already-written text can stand inside a tag.
pub fn xml_str(input: &str) -> (r: String)
    ensures
        r@ == escape_str(input@),
{
    let n = input.unicode_len();
    let mut out = String::new();
    let mut i: usize = 0;
    while i < n
        invariant
            i <= n,
            n == input@.len(),
            out@ == escape_str(input@.take(i as int)),
        decreases n - i,
    {
        let c = input.get_char(i);
        if c == '&' {
            out.append("&amp;");
        } else if c == '<' {
            out.append("&lt;");
        } else if c == '>' {
            out.append("&gt;");
        } else if c == '\'' {
            out.append("&apos;");
        } else if c == '"' {
            out.append("&quot;");
        } else {
            push_char(&mut out, c);
        }
        proof {
            assert(input@.take(i + 1).drop_last() =~= input@.take(i as int));
            assert(input@.take(i + 1).last() == input@[i as int]);
        }
        i = i + 1;
    }
    proof {
        assert(input@.take(n as int) =~= input@);
    }
    out
}

// ---------------------------------------------------------------------------
// Tag wrapping
// ---------------------------------------------------------------------------

/// `n` tab characters.
pub open spec fn tabs(n: nat) -> Seq<char>
    decreases n,
{
    if n == 0 {
        Seq::<char>::empty()
    } else {
        tabs((n - 1) as nat) + "\t"@
    }
}

/// How many tabs an indentation argument asks for: absent or negative
/// values mean none.
pub open spec fn indent_count(indent: Option<i8>) -> nat {
    match indent {
        None => 0,
        Some(i) => if i <= 0 {
            0
        } else {
            i as nat
        },
    }
}

/// One complete tag line: tabs, the opening tag, the escaped contents, the
/// closing tag, and a newline. Opaque so that a record's many tags stay
/// compact terms; reveal it where the characters themselves matter.
#[verifier::opaque]
pub open spec fn xml_tag_spec(indent: Option<i8>, tag: Seq<char>, contents: Seq<char>) -> Seq<
    char,
> {
    tabs(indent_count(indent)) + "<"@ + tag + ">"@ + escape_str(contents) + "</"@ + tag + ">\n"@
}

/// Wraps `contents` (escaped) in `<tag>...</tag>` at the given indentation,
/// ending with a newline.
pub fn xml_tag(indent: Option<i8>, tag: &str, contents: &str) -> (r: String)
    ensures
        r@ == xml_tag_spec(indent, tag@, contents@),
{
    proof {
        reveal(xml_tag_spec);
    }
    let mut xml = String::new();
    let k: i8 = match indent {
        Some(i) => i,
        None => 0,
    };
    let mut j: i8 = 0;
    while j < k
        invariant
            0 <= j,
            j <= (if k > 0 { k } else { 0i8 }),
            xml@ == tabs(j as nat),
        decreases k - j,
    {
        xml.append("\t");
        j = j + 1;
    }
    proof {
        assert(xml@ == tabs(indent_count(indent)));
    }
    xml.append("<");
    xml.append(tag);
    xml.append(">");
    let escaped = xml_str(contents);
    xml.append(escaped.as_str());
    xml.append("</");
    xml.append(tag);
    xml.append(">\n");
    xml
}

// ---------------------------------------------------------------------------
// Simple value formatters
// ---------------------------------------------------------------------------

/// The site vocabulary for a status on an anime list. `REPEATING` renders as
/// `Completed`; the rewatch flag is carried separately.
pub open spec fn status_text_spec(s: Status) -> Seq<char> {
    match s {
        Status::CURRENT => "Watching"@,
        Status::PLANNING => "Plan to Watch"@,
        Status::COMPLETED => "Completed"@,
        Status::DROPPED => "Dropped"@,
        Status::PAUSED => "On-Hold"@,
        Status::REPEATING => "Completed"@,
    }
}

/// The manga vocabulary: `CURRENT` and `PLANNING` have reading words, every
/// other status falls through to the general mapping.
pub open spec fn status_text_manga_spec(s: Status) -> Seq<char> {
    match s {
        Status::CURRENT => "Reading"@,
        Status::PLANNING => "Plan to Read"@,
        _ => status_text_spec(s),
    }
}

/// A format renders as its literal name, `UNKNOWN` as `Unknown`.
pub open spec fn format_text_spec(f: Format) -> Seq<char> {
    match f {
        Format::TV => "TV"@,
        Format::TV_SHORT => "TV_SHORT"@,
        Format::MOVIE => "MOVIE"@,
        Format::SPECIAL => "SPECIAL"@,
        Format::OVA => "OVA"@,
        Format::ONA => "ONA"@,
        Format::MUSIC => "MUSIC"@,
        Format::MANGA => "MANGA"@,
        Format::NOVEL => "NOVEL"@,
        Format::ONE_SHOT => "ONE_SHOT"@,
        Format::UNKNOWN => "Unknown"@,
    }
}

/// A date renders as `year-month-day` with absent components as `0000` or
/// `00` placeholders and present components in plain decimal, unpadded.
pub open spec fn date_text_spec(d: Date) -> Seq<char> {
    (match d.year {
        Some(y) => dec_str(y as nat),
        None => "0000"@,
    }) + "-"@ + (match d.month {
        Some(m) => dec_str(m as nat),
        None => "00"@,
    }) + "-"@ + (match d.day {
        Some(dd) => dec_str(dd as nat),
        None => "00"@,
    })
}

/// An absent optional text renders as the empty string.
pub open spec fn opt_str_spec(s: Option<String>) -> Seq<char> {
    match s {
        None => Seq::<char>::empty(),
        Some(c) => c@,
    }
}

/// An absent optional count renders as zero.
pub open spec fn u64_or_zero(o: Option<u64>) -> u64 {
    match o {
        Some(v) => v,
        None => 0u64,
    }
}

/// An absent optional count renders as zero.
pub open spec fn u32_or_zero(o: Option<u32>) -> u32 {
    match o {
        Some(v) => v,
        None => 0u32,
    }
}

/// An absent format stands for `UNKNOWN`.
pub open spec fn format_or_unknown(o: Option<Format>) -> Format {
    match o {
        Some(f) => f,
        None => Format::UNKNOWN,
    }
}

impl Status {
    /// The site vocabulary for this status, per `status_text_spec`.
    pub fn to_string(&self) -> (r: String)
        ensures
            r@ == status_text_spec(*self),
    {
        match self {
            Status::CURRENT => String::from_str("Watching"),
            Status::PLANNING => String::from_str("Plan to Watch"),
            Status::COMPLETED => String::from_str("Completed"),
            Status::DROPPED => String::from_str("Dropped"),
            Status::PAUSED => String::from_str("On-Hold"),
            Status::REPEATING => String::from_str("Completed"),
        }
    }
}

/// The manga vocabulary for a status, per `status_text_manga_spec`.
pub fn to_string_manga(status: Status) -> (r: String)
    ensures
        r@ == status_text_manga_spec(status),
{
    match status {
        Status::CURRENT => String::from_str("Reading"),
        Status::PLANNING => String::from_str("Plan to Read"),
        _ => status.to_string(),
    }
}

impl Format {
    /// The literal name of this format, per `format_text_spec`.
    pub fn to_string(&self) -> (r: String)
        ensures
            r@ == format_text_spec(*self),
    {
        match self {
            Format::TV => String::from_str("TV"),
            Format::TV_SHORT => String::from_str("TV_SHORT"),
            Format::MOVIE => String::from_str("MOVIE"),
            Format::SPECIAL => String::from_str("SPECIAL"),
            Format::OVA => String::from_str("OVA"),
            Format::ONA => String::from_str("ONA"),
            Format::MUSIC => String::from_str("MUSIC"),
            Format::MANGA => String::from_str("MANGA"),
            Format::NOVEL => String::from_str("NOVEL"),
            Format::ONE_SHOT => String::from_str("ONE_SHOT"),
            Format::UNKNOWN => String::from_str("Unknown"),
        }
    }
}

impl Date {
    /// Renders this date per `date_text_spec`.
    pub fn to_string(&self) -> (r: String)
        ensures
            r@ == date_text_spec(*self),
    {
        let mut buffer = String::new();
        match self.year {
            Some(y) => {
                let t = u64_to_string(y as u64);
                buffer.append(t.as_str());
            },
            None => buffer.append("0000"),
        }
        buffer.append("-");
        match self.month {
            Some(m) => {
                let t = u64_to_string(m as u64);
                buffer.append(t.as_str());
            },
            None => buffer.append("00"),
        }
        buffer.append("-");
        match self.day {
            Some(d) => {
                let t = u64_to_string(d as u64);
                buffer.append(t.as_str());
            },
            None => buffer.append("00"),
        }
        buffer
    }
}

/// The text of an optional note: the note itself, or empty when absent.
pub fn string_option_unwrap(string: Option<String>) -> (r: String)
    ensures
        r@ == opt_str_spec(string),
{
    match string {
        None => String::new(),
        Some(content) => content,
    }
}

// ---------------------------------------------------------------------------
// Custom-list tags
// ---------------------------------------------------------------------------

/// The comma-and-space-joined names whose membership flag is true, in the
/// mapping's own order. `first` says whether no name has been written yet.
pub open spec fn tags_join(l: Seq<(String, bool)>, first: bool) -> Seq<char>
    decreases l.len(),
{
    if l.len() == 0 {
        Seq::<char>::empty()
    } else if l[0].1 {
        (if first {
            l[0].0@
        } else {
            ", "@ + l[0].0@
        }) + tags_join(l.drop_first(), false)
    } else {
        tags_join(l.drop_first(), first)
    }
}

/// The tag text of a custom-list mapping: the member names joined by `, `.
pub open spec fn tags_spec(l: Seq<(String, bool)>) -> Seq<char> {
    tags_join(l, true)
}

/// Joins the names mapped to true with `, `, keeping the mapping's order and
/// dropping the names mapped to false.
pub fn lists_to_tags(custom_lists: &Vec<(String, bool)>) -> (r: String)
    ensures
        r@ == tags_spec(custom_lists@),
{
    let ghost all = custom_lists@;
    let mut out = String::new();
    let mut first: bool = true;
    let mut i: usize = 0;
    proof {
        assert(all.skip(0) =~= all);
        assert(Seq::<char>::empty() + tags_join(all, true) =~= tags_join(all, true));
    }
    while i < custom_lists.len()
        invariant
            i <= all.len(),
            all == custom_lists@,
            tags_spec(all) == out@ + tags_join(all.skip(i as int), first),
        decreases all.len() - i,
    {
        proof {
            assert(all.skip(i as int).drop_first() =~= all.skip(i + 1));
            assert(all.skip(i as int)[0] == all[i as int]);
        }
        let p = &custom_lists[i];
        let ghost out0 = out@;
        if p.1 {
            if first {
                out.append(p.0.as_str());
                first = false;
                proof {
                    vstd::seq_lib::lemma_concat_associative(
                        out0,
                        p.0@,
                        tags_join(all.skip(i + 1), false),
                    );
                }
            } else {
                out.append(", ");
                out.append(p.0.as_str());
                proof {
                    vstd::seq_lib::lemma_concat_associative(out0, ", "@, p.0@);
                    vstd::seq_lib::lemma_concat_associative(
                        out0,
                        ", "@ + p.0@,
                        tags_join(all.skip(i + 1), false),
                    );
                }
            }
        }
        i = i + 1;
    }
    proof {
        assert(all.skip(all.len() as int) =~= Seq::<(String, bool)>::empty());
        assert(out@ + Seq::<char>::empty() =~= out@);
    }
    out
}

// ---------------------------------------------------------------------------
// Header builder
// ---------------------------------------------------------------------------

/// The count recorded for a status: the first matching pair's count, or zero
/// when the statistics do not mention the status.
pub open spec fn status_count_spec(statuses: Seq<StatusEntry>, s: Status) -> u32
    decreases statuses.len(),
{
    if statuses.len() == 0 {
        0u32
    } else if statuses[0].status == s {
        statuses[0].count
    } else {
        status_count_spec(statuses.drop_first(), s)
    }
}

/// Looks a status up in the statistics, defaulting to zero when absent.
pub fn status_count(statuses: &Vec<StatusEntry>, s: Status) -> (c: u32)
    ensures
        c == status_count_spec(statuses@, s),
{
    let ghost all = statuses@;
    let mut i: usize = 0;
    proof {
        assert(all.skip(0) =~= all);
    }
    while i < statuses.len()
        invariant
            i <= all.len(),
            all == statuses@,
            status_count_spec(all, s) == status_count_spec(all.skip(i as int), s),
        decreases all.len() - i,
    {
        proof {
            assert(all.skip(i as int).drop_first() =~= all.skip(i + 1));
            assert(all.skip(i as int)[0] == all[i as int]);
        }
        if statuses[i].status == s {
            return statuses[i].count;
        }
        i = i + 1;
    }
    proof {
        assert(all.skip(all.len() as int) =~= Seq::<StatusEntry>::empty());
    }
    0
}

/// The combined watching (or reading) total: entries currently in progress
/// plus entries being repeated.
pub open spec fn in_progress_total(stats: UserStatistics) -> int {
    status_count_spec(stats.statuses@, Status::CURRENT) + status_count_spec(
        stats.statuses@,
        Status::REPEATING,
    )
}

/// The `<myinfo>` summary block for an anime list, in its fixed field order.
pub open spec fn anime_header_spec(stats: UserStatistics, id: u64, name: Seq<char>) -> Seq<char> {
    xml_tag_spec(Some(2i8), "user_id"@, dec_str(id as nat)) + xml_tag_spec(
        Some(2i8),
        "user_name"@,
        name,
    ) + xml_tag_spec(Some(2i8), "user_export_type"@, "1"@) + xml_tag_spec(
        Some(2i8),
        "user_total_anime"@,
        dec_str(stats.count as nat),
    ) + xml_tag_spec(Some(2i8), "user_total_watching"@, dec_str(in_progress_total(stats) as nat))
        + xml_tag_spec(
        Some(2i8),
        "user_total_completed"@,
        dec_str(status_count_spec(stats.statuses@, Status::COMPLETED) as nat),
    ) + xml_tag_spec(
        Some(2i8),
        "user_total_onhold"@,
        dec_str(status_count_spec(stats.statuses@, Status::PAUSED) as nat),
    ) + xml_tag_spec(
        Some(2i8),
        "user_total_dropped"@,
        dec_str(status_count_spec(stats.statuses@, Status::DROPPED) as nat),
    ) + xml_tag_spec(
        Some(2i8),
        "user_total_plantowatch"@,
        dec_str(status_count_spec(stats.statuses@, Status::PLANNING) as nat),
    )
}

/// The `<myinfo>` summary block for a manga list, in its fixed field order.
pub open spec fn manga_header_spec(stats: UserStatistics, id: u64, name: Seq<char>) -> Seq<char> {
    xml_tag_spec(Some(2i8), "user_id"@, dec_str(id as nat)) + xml_tag_spec(
        Some(2i8),
        "user_name"@,
        name,
    ) + xml_tag_spec(Some(2i8), "user_export_type"@, "2"@) + xml_tag_spec(
        Some(2i8),
        "user_total_manga"@,
        dec_str(stats.count as nat),
    ) + xml_tag_spec(Some(2i8), "user_total_reading"@, dec_str(in_progress_total(stats) as nat))
        + xml_tag_spec(
        Some(2i8),
        "user_total_completed"@,
        dec_str(status_count_spec(stats.statuses@, Status::COMPLETED) as nat),
    ) + xml_tag_spec(
        Some(2i8),
        "user_total_onhold"@,
        dec_str(status_count_spec(stats.statuses@, Status::PAUSED) as nat),
    ) + xml_tag_spec(
        Some(2i8),
        "user_total_dropped"@,
        dec_str(status_count_spec(stats.statuses@, Status::DROPPED) as nat),
    ) + xml_tag_spec(
        Some(2i8),
        "user_total_plantoread"@,
        dec_str(status_count_spec(stats.statuses@, Status::PLANNING) as nat),
    )
}

/// Builds the anime summary block: user identity, export type 1, and the
/// per-status totals with absent statuses counted as zero.
pub fn xml_animeheader(stats: UserStatistics, id: u64, name: String) -> (r: String)
    ensures
        r@ == anime_header_spec(stats, id, name@),
{
    let watching: u64 = status_count(&stats.statuses, Status::CURRENT) as u64 + status_count(
        &stats.statuses,
        Status::REPEATING,
    ) as u64;
    let mut header = String::new();
    let t = xml_tag(Some(2), "user_id", u64_to_string(id).as_str());
    header.append(t.as_str());
    let t = xml_tag(Some(2), "user_name", name.as_str());
    header.append(t.as_str());
    let t = xml_tag(Some(2), "user_export_type", "1");
    header.append(t.as_str());
    let t = xml_tag(Some(2), "user_total_anime", u64_to_string(stats.count).as_str());
    header.append(t.as_str());
    let t = xml_tag(Some(2), "user_total_watching", u64_to_string(watching).as_str());
    header.append(t.as_str());
    let t = xml_tag(
        Some(2),
        "user_total_completed",
        u64_to_string(status_count(&stats.statuses, Status::COMPLETED) as u64).as_str(),
    );
    header.append(t.as_str());
    let t = xml_tag(
        Some(2),
        "user_total_onhold",
        u64_to_string(status_count(&stats.statuses, Status::PAUSED) as u64).as_str(),
    );
    header.append(t.as_str());
    let t = xml_tag(
        Some(2),
        "user_total_dropped",
        u64_to_string(status_count(&stats.statuses, Status::DROPPED) as u64).as_str(),
    );
    header.append(t.as_str());
    let t = xml_tag(
        Some(2),
        "user_total_plantowatch",
        u64_to_string(status_count(&stats.statuses, Status::PLANNING) as u64).as_str(),
    );
    header.append(t.as_str());
    header
}

/// Builds the manga summary block: user identity, export type 2, and the
/// per-status totals with absent statuses counted as zero.
pub fn xml_mangaheader(stats: UserStatistics, id: u64, name: String) -> (r: String)
    ensures
        r@ == manga_header_spec(stats, id, name@),
{
    let reading: u64 = status_count(&stats.statuses, Status::CURRENT) as u64 + status_count(
        &stats.statuses,
        Status::REPEATING,
    ) as u64;
    let mut header = String::new();
    let t = xml_tag(Some(2), "user_id", u64_to_string(id).as_str());
    header.append(t.as_str());
    let t = xml_tag(Some(2), "user_name", name.as_str());
    header.append(t.as_str());
    let t = xml_tag(Some(2), "user_export_type", "2");
    header.append(t.as_str());
    let t = xml_tag(Some(2), "user_total_manga", u64_to_string(stats.count).as_str());
    header.append(t.as_str());
    let t = xml_tag(Some(2), "user_total_reading", u64_to_string(reading).as_str());
    header.append(t.as_str());
    let t = xml_tag(
        Some(2),
        "user_total_completed",
        u64_to_string(status_count(&stats.statuses, Status::COMPLETED) as u64).as_str(),
    );
    header.append(t.as_str());
    let t = xml_tag(
        Some(2),
        "user_total_onhold",
        u64_to_string(status_count(&stats.statuses, Status::PAUSED) as u64).as_str(),
    );
    header.append(t.as_str());
    let t = xml_tag(
        Some(2),
        "user_total_dropped",
        u64_to_string(status_count(&stats.statuses, Status::DROPPED) as u64).as_str(),
    );
    header.append(t.as_str());
    let t = xml_tag(
        Some(2),
        "user_total_plantoread",
        u64_to_string(status_count(&stats.statuses, Status::PLANNING) as u64).as_str(),
    );
    header.append(t.as_str());
    header
}

// ---------------------------------------------------------------------------
// Entry serializer
// ---------------------------------------------------------------------------

/// The rewatching flag tag: `1` while repeating, else `0`.
pub open spec fn rewatching_tag_spec(e: MediaEntry) -> Seq<char> {
    if e.status == Status::REPEATING {
        xml_tag_spec(Some(2i8), "my_rewatching"@, "1"@)
    } else {
        xml_tag_spec(Some(2i8), "my_rewatching"@, "0"@)
    }
}

/// The rewatch-progress tag. The import schema spells the tag name
/// differently in the two cases (`my_rewatchin_ep` while repeating,
/// `my_rewatching_ep` otherwise); both spellings are reproduced verbatim.
pub open spec fn rewatching_ep_tag_spec(e: MediaEntry) -> Seq<char> {
    if e.status == Status::REPEATING {
        xml_tag_spec(Some(2i8), "my_rewatchin_ep"@, dec_str(e.progress as nat))
    } else {
        xml_tag_spec(Some(2i8), "my_rewatching_ep"@, "0"@)
    }
}

/// The rereading flag tag of a manga record, rendered as the literal words
/// `YES` and `NO` rather than numerals.
pub open spec fn rereading_tag_spec(e: MediaEntry) -> Seq<char> {
    if e.status == Status::REPEATING {
        xml_tag_spec(Some(2i8), "my_rereading"@, "YES"@)
    } else {
        xml_tag_spec(Some(2i8), "my_rereading"@, "NO"@)
    }
}

/// The update-on-import tag: `1` when updating is enabled, else `0`.
pub open spec fn update_tag_spec(update: bool) -> Seq<char> {
    if update {
        xml_tag_spec(Some(2i8), "update_on_import"@, "1"@)
    } else {
        xml_tag_spec(Some(2i8), "update_on_import"@, "0"@)
    }
}

/// The inner `<anime>...</anime>` block of one entry, in the import
/// format's fixed field order.
pub open spec fn anime_body_spec(e: MediaEntry, update: bool) -> Seq<char> {
    "\t<anime>\n"@ + xml_tag_spec(
        Some(2i8),
        "series_animedb_id"@,
        dec_str(u64_or_zero(e.media.idMal) as nat),
    ) + xml_tag_spec(Some(2i8), "series_title"@, e.media.title.romaji@) + xml_tag_spec(
        Some(2i8),
        "series_type"@,
        format_text_spec(format_or_unknown(e.media.format)),
    ) + xml_tag_spec(Some(2i8), "series_episodes"@, dec_str(u64_or_zero(e.media.episodes) as nat))
        + xml_tag_spec(Some(2i8), "my_id"@, "0"@) + xml_tag_spec(
        Some(2i8),
        "my_watched_episodes"@,
        dec_str(e.progress as nat),
    ) + xml_tag_spec(Some(2i8), "my_start_date"@, date_text_spec(e.startedAt)) + xml_tag_spec(
        Some(2i8),
        "my_finish_date"@,
        date_text_spec(e.completedAt),
    ) + xml_tag_spec(Some(2i8), "my_rated"@, ""@) + xml_tag_spec(
        Some(2i8),
        "my_score"@,
        e.score@,
    ) + xml_tag_spec(Some(2i8), "my_dvd"@, ""@) + xml_tag_spec(Some(2i8), "my_storage"@, ""@) + xml_tag_spec(Some(2i8), "my_status"@, status_text_spec(e.status)) + xml_tag_spec(
        Some(2i8),
        "my_comments"@,
        opt_str_spec(e.notes),
    ) + xml_tag_spec(Some(2i8), "my_times_watched"@, dec_str(e.repeat as nat)) + xml_tag_spec(Some(2i8), "my_rewatch_value"@, ""@) + xml_tag_spec(Some(2i8), "my_priority"@, ""@) + xml_tag_spec(
        Some(2i8),
        "my_tags"@,
        tags_spec(e.customLists@),
    ) + rewatching_tag_spec(e) + rewatching_ep_tag_spec(e) + xml_tag_spec(
        Some(2i8),
        "my_discuss"@,
        "1"@,
    ) + xml_tag_spec(Some(2i8), "my_sns"@, "default"@) + update_tag_spec(update) + "\t</anime>"@
}

/// One full anime record: the inner block, wrapped in an XML comment when
/// the entry has no identifier in the import target's database.
pub open spec fn xml_anime_spec(e: MediaEntry, update: bool) -> Seq<char> {
    if e.media.idMal is None {
        "<!--\n"@ + anime_body_spec(e, update) + "\n-->\n"@
    } else {
        anime_body_spec(e, update)
    }
}

#[verifier::rlimit(80)]
fn anime_body(e: &MediaEntry, update: bool) -> (r: String)
    ensures
        r@ == anime_body_spec(*e, update),
{
    let mut x = String::from_str("\t<anime>\n");
    let id = match e.media.idMal {
        Some(v) => v,
        None => 0,
    };
    let t = xml_tag(Some(2), "series_animedb_id", u64_to_string(id).as_str());
    x.append(t.as_str());
    let t = xml_tag(Some(2), "series_title", e.media.title.romaji.as_str());
    x.append(t.as_str());
    let fmt = match e.media.format {
        Some(f) => f,
        None => Format::UNKNOWN,
    };
    let t = xml_tag(Some(2), "series_type", fmt.to_string().as_str());
    x.append(t.as_str());
    let episodes = match e.media.episodes {
        Some(v) => v,
        None => 0,
    };
    let t = xml_tag(Some(2), "series_episodes", u64_to_string(episodes).as_str());
    x.append(t.as_str());
    let t = xml_tag(Some(2), "my_id", "0");
    x.append(t.as_str());
    let t = xml_tag(Some(2), "my_watched_episodes", u64_to_string(e.progress as u64).as_str());
    x.append(t.as_str());
    let t = xml_tag(Some(2), "my_start_date", e.startedAt.to_string().as_str());
    x.append(t.as_str());
    let t = xml_tag(Some(2), "my_finish_date", e.completedAt.to_string().as_str());
    x.append(t.as_str());
    let t = xml_tag(Some(2), "my_rated", "");
    x.append(t.as_str());
    let t = xml_tag(Some(2), "my_score", e.score.as_str());
    x.append(t.as_str());
    let t = xml_tag(Some(2), "my_dvd", "");
    x.append(t.as_str());
    let t = xml_tag(Some(2), "my_storage", "");
    x.append(t.as_str());
    let t = xml_tag(Some(2), "my_status", e.status.to_string().as_str());
    x.append(t.as_str());
    let notes = match &e.notes {
        None => String::new(),
        Some(c) => c.clone(),
    };
    let t = xml_tag(Some(2), "my_comments", notes.as_str());
    x.append(t.as_str());
    let t = xml_tag(Some(2), "my_times_watched", u64_to_string(e.repeat as u64).as_str());
    x.append(t.as_str());
    let t = xml_tag(Some(2), "my_rewatch_value", "");
    x.append(t.as_str());
    let t = xml_tag(Some(2), "my_priority", "");
    x.append(t.as_str());
    let t = xml_tag(Some(2), "my_tags", lists_to_tags(&e.customLists).as_str());
    x.append(t.as_str());
    let repeating = e.status == Status::REPEATING;
    let t = xml_tag(Some(2), "my_rewatching", if repeating { "1" } else { "0" });
    x.append(t.as_str());
    let ep = u64_to_string(e.progress as u64);
    let t = xml_tag(
        Some(2),
        if repeating { "my_rewatchin_ep" } else { "my_rewatching_ep" },
        if repeating { ep.as_str() } else { "0" },
    );
    x.append(t.as_str());
    let t = xml_tag(Some(2), "my_discuss", "1");
    x.append(t.as_str());
    let t = xml_tag(Some(2), "my_sns", "default");
    x.append(t.as_str());
    let t = xml_tag(Some(2), "update_on_import", if update { "1" } else { "0" });
    x.append(t.as_str());
    x.append("\t</anime>");
    x
}

/// Renders one anime entry as its complete record, commenting the whole
/// block out when the entry has no identifier in the import database.
pub fn xml_anime(anime_entry: &MediaEntry, update: bool) -> (r: String)
    ensures
        r@ == xml_anime_spec(*anime_entry, update),
{
    let has_id = anime_entry.media.idMal.is_some();
    let body = anime_body(anime_entry, update);
    if has_id {
        body
    } else {
        let mut xmlout = String::from_str("<!--\n");
        xmlout.append(body.as_str());
        xmlout.append("\n-->\n");
        xmlout
    }
}

/// The inner `<manga>...</manga>` block of one entry, in the import
/// format's fixed field order.
pub open spec fn manga_body_spec(e: MediaEntry, update: bool) -> Seq<char> {
    "\t<manga>\n"@ + xml_tag_spec(
        Some(2i8),
        "manga_mangadb_id"@,
        dec_str(u64_or_zero(e.media.idMal) as nat),
    ) + xml_tag_spec(Some(2i8), "manga_title"@, e.media.title.romaji@) + xml_tag_spec(
        Some(2i8),
        "manga_volumes"@,
        dec_str(u64_or_zero(e.media.volumes) as nat),
    ) + xml_tag_spec(Some(2i8), "manga_chapters"@, dec_str(u64_or_zero(e.media.chapters) as nat))
        + xml_tag_spec(Some(2i8), "my_id"@, "0"@) + xml_tag_spec(
        Some(2i8),
        "my_read_volumes"@,
        dec_str(u32_or_zero(e.progressVolumes) as nat),
    ) + xml_tag_spec(Some(2i8), "my_read_chapters"@, dec_str(e.progress as nat)) + xml_tag_spec(
        Some(2i8),
        "my_start_date"@,
        date_text_spec(e.startedAt),
    ) + xml_tag_spec(Some(2i8), "my_finish_date"@, date_text_spec(e.completedAt)) + xml_tag_spec(Some(2i8), "my_scanalation_group"@, ""@) + xml_tag_spec(Some(2i8), "my_score"@, e.score@) + xml_tag_spec(Some(2i8), "my_storage"@, ""@) + xml_tag_spec(Some(2i8), "my_retail_volumes"@, "0"@) + xml_tag_spec(
        Some(2i8),
        "my_status"@,
        status_text_manga_spec(e.status),
    ) + xml_tag_spec(Some(2i8), "my_comments"@, opt_str_spec(e.notes)) + xml_tag_spec(
        Some(2i8),
        "my_times_read"@,
        dec_str(e.repeat as nat),
    ) + xml_tag_spec(Some(2i8), "my_tags"@, tags_spec(e.customLists@)) + xml_tag_spec(Some(2i8), "my_priority"@, ""@) + xml_tag_spec(Some(2i8), "my_reread_value"@, ""@) + rereading_tag_spec(e)
        + xml_tag_spec(Some(2i8), "my_discuss"@, "YES"@) + xml_tag_spec(
        Some(2i8),
        "my_sns"@,
        "default"@,
    ) + update_tag_spec(update) + "\t</manga>"@
}

/// One full manga record: the inner block, wrapped in an XML comment when
/// the entry has no identifier in the import target's database.
pub open spec fn xml_manga_spec(e: MediaEntry, update: bool) -> Seq<char> {
    if e.media.idMal is None {
        "<!--\n"@ + manga_body_spec(e, update) + "\n-->\n"@
    } else {
        manga_body_spec(e, update)
    }
}

#[verifier::rlimit(80)]
fn manga_body(e: &MediaEntry, update: bool) -> (r: String)
    ensures
        r@ == manga_body_spec(*e, update),
{
    let mut x = String::from_str("\t<manga>\n");
    let id = match e.media.idMal {
        Some(v) => v,
        None => 0,
    };
    let t = xml_tag(Some(2), "manga_mangadb_id", u64_to_string(id).as_str());
    x.append(t.as_str());
    let t = xml_tag(Some(2), "manga_title", e.media.title.romaji.as_str());
    x.append(t.as_str());
    let volumes = match e.media.volumes {
        Some(v) => v,
        None => 0,
    };
    let t = xml_tag(Some(2), "manga_volumes", u64_to_string(volumes).as_str());
    x.append(t.as_str());
    let chapters = match e.media.chapters {
        Some(v) => v,
        None => 0,
    };
    let t = xml_tag(Some(2), "manga_chapters", u64_to_string(chapters).as_str());
    x.append(t.as_str());
    let t = xml_tag(Some(2), "my_id", "0");
    x.append(t.as_str());
    let read_volumes = match e.progressVolumes {
        Some(v) => v,
        None => 0,
    };
    let t = xml_tag(Some(2), "my_read_volumes", u64_to_string(read_volumes as u64).as_str());
    x.append(t.as_str());
    let t = xml_tag(Some(2), "my_read_chapters", u64_to_string(e.progress as u64).as_str());
    x.append(t.as_str());
    let t = xml_tag(Some(2), "my_start_date", e.startedAt.to_string().as_str());
    x.append(t.as_str());
    let t = xml_tag(Some(2), "my_finish_date", e.completedAt.to_string().as_str());
    x.append(t.as_str());
    let t = xml_tag(Some(2), "my_scanalation_group", "");
    x.append(t.as_str());
    let t = xml_tag(Some(2), "my_score", e.score.as_str());
    x.append(t.as_str());
    let t = xml_tag(Some(2), "my_storage", "");
    x.append(t.as_str());
    let t = xml_tag(Some(2), "my_retail_volumes", "0");
    x.append(t.as_str());
    let t = xml_tag(Some(2), "my_status", to_string_manga(e.status).as_str());
    x.append(t.as_str());
    let notes = match &e.notes {
        None => String::new(),
        Some(c) => c.clone(),
    };
    let t = xml_tag(Some(2), "my_comments", notes.as_str());
    x.append(t.as_str());
    let t = xml_tag(Some(2), "my_times_read", u64_to_string(e.repeat as u64).as_str());
    x.append(t.as_str());
    let t = xml_tag(Some(2), "my_tags", lists_to_tags(&e.customLists).as_str());
    x.append(t.as_str());
    let t = xml_tag(Some(2), "my_priority", "");
    x.append(t.as_str());
    let t = xml_tag(Some(2), "my_reread_value", "");
    x.append(t.as_str());
    let repeating = e.status == Status::REPEATING;
    let t = xml_tag(Some(2), "my_rereading", if repeating { "YES" } else { "NO" });
    x.append(t.as_str());
    let t = xml_tag(Some(2), "my_discuss", "YES");
    x.append(t.as_str());
    let t = xml_tag(Some(2), "my_sns", "default");
    x.append(t.as_str());
    let t = xml_tag(Some(2), "update_on_import", if update { "1" } else { "0" });
    x.append(t.as_str());
    x.append("\t</manga>");
    x
}

/// Renders one manga entry as its complete record, commenting the whole
/// block out when the entry has no identifier in the import database.
pub fn xml_manga(manga_entry: &MediaEntry, update: bool) -> (r: String)
    ensures
        r@ == xml_manga_spec(*manga_entry, update),
{
    let has_id = manga_entry.media.idMal.is_some();
    let body = manga_body(manga_entry, update);
    if has_id {
        body
    } else {
        let mut xmlout = String::from_str("<!--\n");
        xmlout.append(body.as_str());
        xmlout.append("\n-->\n");
        xmlout
    }
}

// ---------------------------------------------------------------------------
// Laws
// ---------------------------------------------------------------------------

/// A date with every component present renders as `year-month-day`, each
/// component in plain decimal; a single-digit month or day keeps its single
/// digit, with no zero padding.
pub proof fn lemma_date_text_full(d: Date, y: u16, m: u8, dd: u8)
    requires
        d.year == Some(y),
        d.month == Some(m),
        d.day == Some(dd),
    ensures
        date_text_spec(d) == dec_str(y as nat) + "-"@ + dec_str(m as nat) + "-"@ + dec_str(
            dd as nat,
        ),
        m < 10 ==> dec_str(m as nat).len() == 1,
        dd < 10 ==> dec_str(dd as nat).len() == 1,
{
    if m < 10 {
        crate::numtext::lemma_dec_str_single_digit(m as nat);
    }
    if dd < 10 {
        crate::numtext::lemma_dec_str_single_digit(dd as nat);
    }
}

/// A date with every component absent renders as the full placeholder
/// `0000-00-00`; no component is ever skipped.
pub proof fn lemma_date_text_absent(d: Date)
    requires
        d.year is None,
        d.month is None,
        d.day is None,
    ensures
        date_text_spec(d) == "0000-00-00"@,
{
    reveal_strlit("0000");
    reveal_strlit("-");
    reveal_strlit("00");
    reveal_strlit("0000-00-00");
    assert("0000"@ + "-"@ + "00"@ + "-"@ + "00"@ =~= "0000-00-00"@);
}

/// The characters that XML escaping rewrites into entities.
pub open spec fn is_xml_special(c: char) -> bool {
    c == '&' || c == '<' || c == '>' || c == '\'' || c == '"'
}

/// Escaping leaves text without special characters unchanged, so for such
/// text one application is enough and a second one changes nothing. Text
/// that does hold a special character must be escaped exactly once: the
/// escaped form holds `&` again, which another application would rewrite.
pub proof fn lemma_escape_plain_text(s: Seq<char>)
    requires
        forall|i: int| 0 <= i < s.len() ==> !is_xml_special(#[trigger] s[i]),
    ensures
        escape_str(s) == s,
    decreases s.len(),
{
    if s.len() == 0 {
        assert(escape_str(s) =~= s);
    } else {
        assert(forall|i: int|
            0 <= i < s.drop_last().len() ==> #[trigger] s.drop_last()[i] == s[i]);
        lemma_escape_plain_text(s.drop_last());
        assert(!is_xml_special(s.last()));
        assert(escape_char(s.last()) == seq![s.last()]);
        assert(s.drop_last() + seq![s.last()] =~= s);
    }
}

/// Escaped text is safe to stand inside a tag: no raw `<`, `>`, quote or
/// apostrophe remains anywhere in it.
pub proof fn lemma_escape_no_markup(s: Seq<char>, i: int)
    requires
        0 <= i < escape_str(s).len(),
    ensures
        escape_str(s)[i] != '<',
        escape_str(s)[i] != '>',
        escape_str(s)[i] != '\'',
        escape_str(s)[i] != '"',
    decreases s.len(),
{
    reveal_strlit("&amp;");
    reveal_strlit("&lt;");
    reveal_strlit("&gt;");
    reveal_strlit("&apos;");
    reveal_strlit("&quot;");
    if s.len() > 0 {
        let prefix = escape_str(s.drop_last());
        let block = escape_char(s.last());
        if i < prefix.len() {
            lemma_escape_no_markup(s.drop_last(), i);
            assert(escape_str(s)[i] == prefix[i]);
        } else {
            assert(escape_str(s)[i] == block[i - prefix.len()]);
        }
    }
}

/// A record is wrapped in XML comment delimiters exactly when its entry has
/// no identifier in the import database; with an identifier present the
/// record is the bare block, with no surrounding comment.
pub proof fn lemma_absent_id_commented(e: MediaEntry, update: bool)
    ensures
        e.media.idMal is None ==> xml_anime_spec(e, update) == "<!--\n"@ + anime_body_spec(
            e,
            update,
        ) + "\n-->\n"@,
        e.media.idMal is None ==> xml_manga_spec(e, update) == "<!--\n"@ + manga_body_spec(
            e,
            update,
        ) + "\n-->\n"@,
        e.media.idMal is Some ==> xml_anime_spec(e, update) == anime_body_spec(e, update),
        e.media.idMal is Some ==> xml_manga_spec(e, update) == manga_body_spec(e, update),
{
}

} // verus!
