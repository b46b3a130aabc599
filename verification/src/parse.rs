//! Domain-model construction: turning loosely-typed fetched records into
//! typed list entries, rejecting records that lack a structurally required
//! field or carry an enumeration value outside the service's vocabulary.

use vstd::prelude::*;
use vstd::string::*;
use crate::xmlformat::Date;
use crate::xmlformat::Format;
use crate::xmlformat::Media;
use crate::xmlformat::MediaEntry;
use crate::xmlformat::Status;
use crate::xmlformat::Title;

verus! {

/// Why a fetched record could not become a list entry. Each variant names
/// the offending field or value.
#[derive(PartialEq, Eq, Structural, Copy, Clone, Debug)]
pub enum ParseError {
    MissingStatus,
    UnrecognizedStatus,
    UnrecognizedFormat,
    MissingRepeat,
    MissingProgress,
    MissingHidden,
    MissingScore,
    MissingMedia,
    MissingIsAdult,
    MissingTitle,
}

/// The text of each error, naming the offending field.
pub open spec fn parse_error_text_spec(e: ParseError) -> Seq<char> {
    match e {
        ParseError::MissingStatus => "required field is absent: status"@,
        ParseError::UnrecognizedStatus => "unrecognized enum value in field: status"@,
        ParseError::UnrecognizedFormat => "unrecognized enum value in field: format"@,
        ParseError::MissingRepeat => "required field is absent: repeat"@,
        ParseError::MissingProgress => "required field is absent: progress"@,
        ParseError::MissingHidden => "required field is absent: hiddenFromStatusLists"@,
        ParseError::MissingScore => "required field is absent: score"@,
        ParseError::MissingMedia => "required field is absent: media"@,
        ParseError::MissingIsAdult => "required field is absent: media.isAdult"@,
        ParseError::MissingTitle => "required field is absent: media.title.romaji"@,
    }
}

impl ParseError {
    /// A message naming the offending field, for reporting the failed export.
    pub fn message(&self) -> (r: String)
        ensures
            r@ == parse_error_text_spec(*self),
    {
        match self {
            ParseError::MissingStatus => String::from_str("required field is absent: status"),
            ParseError::UnrecognizedStatus => String::from_str(
                "unrecognized enum value in field: status",
            ),
            ParseError::UnrecognizedFormat => String::from_str(
                "unrecognized enum value in field: format",
            ),
            ParseError::MissingRepeat => String::from_str("required field is absent: repeat"),
            ParseError::MissingProgress => String::from_str("required field is absent: progress"),
            ParseError::MissingHidden => String::from_str(
                "required field is absent: hiddenFromStatusLists",
            ),
            ParseError::MissingScore => String::from_str("required field is absent: score"),
            ParseError::MissingMedia => String::from_str("required field is absent: media"),
            ParseError::MissingIsAdult => String::from_str(
                "required field is absent: media.isAdult",
            ),
            ParseError::MissingTitle => String::from_str(
                "required field is absent: media.title.romaji",
            ),
        }
    }
}

/// Relies on `str`'s `PartialEq`: two string slices are equal exactly when
/// their character sequences are.
#[verifier::external_body]
fn str_eq(a: &str, b: &str) -> (r: bool)
    ensures
        r == (a@ == b@),
{
    a == b
}

/// Which status a response word denotes; every other word is an error.
pub open spec fn status_of_text(s: Seq<char>) -> Result<Status, ParseError> {
    if s == "CURRENT"@ {
        Ok(Status::CURRENT)
    } else if s == "PLANNING"@ {
        Ok(Status::PLANNING)
    } else if s == "COMPLETED"@ {
        Ok(Status::COMPLETED)
    } else if s == "DROPPED"@ {
        Ok(Status::DROPPED)
    } else if s == "PAUSED"@ {
        Ok(Status::PAUSED)
    } else if s == "REPEATING"@ {
        Ok(Status::REPEATING)
    } else {
        Err(ParseError::UnrecognizedStatus)
    }
}

/// Recognizes a status word of the service's vocabulary.
pub fn parse_status(s: &str) -> (r: Result<Status, ParseError>)
    ensures
        r == status_of_text(s@),
{
    if str_eq(s, "CURRENT") {
        Ok(Status::CURRENT)
    } else if str_eq(s, "PLANNING") {
        Ok(Status::PLANNING)
    } else if str_eq(s, "COMPLETED") {
        Ok(Status::COMPLETED)
    } else if str_eq(s, "DROPPED") {
        Ok(Status::DROPPED)
    } else if str_eq(s, "PAUSED") {
        Ok(Status::PAUSED)
    } else if str_eq(s, "REPEATING") {
        Ok(Status::REPEATING)
    } else {
        Err(ParseError::UnrecognizedStatus)
    }
}

/// Which format a response word denotes; every other word is an error.
pub open spec fn format_of_text(s: Seq<char>) -> Result<Format, ParseError> {
    if s == "TV"@ {
        Ok(Format::TV)
    } else if s == "TV_SHORT"@ {
        Ok(Format::TV_SHORT)
    } else if s == "MOVIE"@ {
        Ok(Format::MOVIE)
    } else if s == "SPECIAL"@ {
        Ok(Format::SPECIAL)
    } else if s == "OVA"@ {
        Ok(Format::OVA)
    } else if s == "ONA"@ {
        Ok(Format::ONA)
    } else if s == "MUSIC"@ {
        Ok(Format::MUSIC)
    } else if s == "MANGA"@ {
        Ok(Format::MANGA)
    } else if s == "NOVEL"@ {
        Ok(Format::NOVEL)
    } else if s == "ONE_SHOT"@ {
        Ok(Format::ONE_SHOT)
    } else if s == "UNKNOWN"@ {
        Ok(Format::UNKNOWN)
    } else {
        Err(ParseError::UnrecognizedFormat)
    }
}

/// Recognizes a format word of the service's vocabulary.
pub fn parse_format(s: &str) -> (r: Result<Format, ParseError>)
    ensures
        r == format_of_text(s@),
{
    if str_eq(s, "TV") {
        Ok(Format::TV)
    } else if str_eq(s, "TV_SHORT") {
        Ok(Format::TV_SHORT)
    } else if str_eq(s, "MOVIE") {
        Ok(Format::MOVIE)
    } else if str_eq(s, "SPECIAL") {
        Ok(Format::SPECIAL)
    } else if str_eq(s, "OVA") {
        Ok(Format::OVA)
    } else if str_eq(s, "ONA") {
        Ok(Format::ONA)
    } else if str_eq(s, "MUSIC") {
        Ok(Format::MUSIC)
    } else if str_eq(s, "MANGA") {
        Ok(Format::MANGA)
    } else if str_eq(s, "NOVEL") {
        Ok(Format::NOVEL)
    } else if str_eq(s, "ONE_SHOT") {
        Ok(Format::ONE_SHOT)
    } else if str_eq(s, "UNKNOWN") {
        Ok(Format::UNKNOWN)
    } else {
        Err(ParseError::UnrecognizedFormat)
    }
}

/// A media record as fetched: every field optional, enumerations still words.
#[derive(Clone, Debug)]
#[allow(non_snake_case)]
pub struct RawMedia {
    pub idMal: Option<u64>,
    pub isAdult: Option<bool>,
    pub title: Option<String>,
    pub format: Option<String>,
    pub episodes: Option<u64>,
    pub chapters: Option<u64>,
    pub volumes: Option<u64>,
}

/// A list entry as fetched: every field optional where the response may
/// omit it, enumerations still words, the score already rendered as text.
#[derive(Clone, Debug)]
#[allow(non_snake_case)]
pub struct RawEntry {
    pub status: Option<String>,
    pub repeat: Option<u32>,
    pub progress: Option<u32>,
    pub progressVolumes: Option<u32>,
    pub customLists: Vec<(String, bool)>,
    pub hiddenFromStatusLists: Option<bool>,
    pub startedAt: Date,
    pub completedAt: Date,
    pub score: Option<String>,
    pub notes: Option<String>,
    pub media: Option<RawMedia>,
}

/// What a raw media record becomes: its typed value, or the first error in
/// field order. An absent format is tolerated; an unrecognized one is not.
pub open spec fn parse_media_spec(m: RawMedia) -> Result<Media, ParseError> {
    match m.isAdult {
        None => Err(ParseError::MissingIsAdult),
        Some(adult) => match m.title {
            None => Err(ParseError::MissingTitle),
            Some(romaji) => match m.format {
                None => Ok(
                    Media {
                        idMal: m.idMal,
                        isAdult: adult,
                        title: Title { romaji },
                        format: None,
                        episodes: m.episodes,
                        chapters: m.chapters,
                        volumes: m.volumes,
                    },
                ),
                Some(f) => match format_of_text(f@) {
                    Err(e) => Err(e),
                    Ok(fmt) => Ok(
                        Media {
                            idMal: m.idMal,
                            isAdult: adult,
                            title: Title { romaji },
                            format: Some(fmt),
                            episodes: m.episodes,
                            chapters: m.chapters,
                            volumes: m.volumes,
                        },
                    ),
                },
            },
        },
    }
}

/// Turns a raw media record into its typed value, per `parse_media_spec`.
pub fn parse_media(m: RawMedia) -> (r: Result<Media, ParseError>)
    ensures
        r == parse_media_spec(m),
{
    let adult = match m.isAdult {
        None => {
            return Err(ParseError::MissingIsAdult);
        },
        Some(a) => a,
    };
    let romaji = match m.title {
        None => {
            return Err(ParseError::MissingTitle);
        },
        Some(t) => t,
    };
    let format = match m.format {
        None => None,
        Some(f) => match parse_format(f.as_str()) {
            Err(e) => {
                return Err(e);
            },
            Ok(fmt) => Some(fmt),
        },
    };
    Ok(
        Media {
            idMal: m.idMal,
            isAdult: adult,
            title: Title { romaji },
            format,
            episodes: m.episodes,
            chapters: m.chapters,
            volumes: m.volumes,
        },
    )
}

/// What a raw record becomes: a typed list entry, or the first error in
/// field order. Optional fields (identifier, date components, notes, volume
/// progress) pass through; structurally required fields must be present.
pub open spec fn parse_entry_spec(raw: RawEntry) -> Result<MediaEntry, ParseError> {
    match raw.status {
        None => Err(ParseError::MissingStatus),
        Some(st) => match status_of_text(st@) {
            Err(e) => Err(e),
            Ok(status) => match raw.repeat {
                None => Err(ParseError::MissingRepeat),
                Some(repeat) => match raw.progress {
                    None => Err(ParseError::MissingProgress),
                    Some(progress) => match raw.hiddenFromStatusLists {
                        None => Err(ParseError::MissingHidden),
                        Some(hidden) => match raw.score {
                            None => Err(ParseError::MissingScore),
                            Some(score) => match raw.media {
                                None => Err(ParseError::MissingMedia),
                                Some(m) => match parse_media_spec(m) {
                                    Err(e) => Err(e),
                                    Ok(media) => Ok(
                                        MediaEntry {
                                            status,
                                            repeat,
                                            progress,
                                            progressVolumes: raw.progressVolumes,
                                            customLists: raw.customLists,
                                            hiddenFromStatusLists: hidden,
                                            startedAt: raw.startedAt,
                                            completedAt: raw.completedAt,
                                            score,
                                            notes: raw.notes,
                                            media,
                                        },
                                    ),
                                },
                            },
                        },
                    },
                },
            },
        },
    }
}

/// Turns one raw fetched record into a typed list entry, per
/// `parse_entry_spec`.
pub fn parse_list_entry(raw: RawEntry) -> (r: Result<MediaEntry, ParseError>)
    ensures
        r == parse_entry_spec(raw),
{
    let st = match raw.status {
        None => {
            return Err(ParseError::MissingStatus);
        },
        Some(s) => s,
    };
    let status = match parse_status(st.as_str()) {
        Err(e) => {
            return Err(e);
        },
        Ok(s) => s,
    };
    let repeat = match raw.repeat {
        None => {
            return Err(ParseError::MissingRepeat);
        },
        Some(v) => v,
    };
    let progress = match raw.progress {
        None => {
            return Err(ParseError::MissingProgress);
        },
        Some(v) => v,
    };
    let hidden = match raw.hiddenFromStatusLists {
        None => {
            return Err(ParseError::MissingHidden);
        },
        Some(v) => v,
    };
    let score = match raw.score {
        None => {
            return Err(ParseError::MissingScore);
        },
        Some(v) => v,
    };
    let m = match raw.media {
        None => {
            return Err(ParseError::MissingMedia);
        },
        Some(v) => v,
    };
    let media = match parse_media(m) {
        Err(e) => {
            return Err(e);
        },
        Ok(v) => v,
    };
    Ok(
        MediaEntry {
            status,
            repeat,
            progress,
            progressVolumes: raw.progressVolumes,
            customLists: raw.customLists,
            hiddenFromStatusLists: hidden,
            startedAt: raw.startedAt,
            completedAt: raw.completedAt,
            score,
            notes: raw.notes,
            media,
        },
    )
}

} // verus!
