use anilist_export::parse::ParseError;
use anilist_export::parse::RawEntry;
use anilist_export::parse::RawMedia;
use anilist_export::parse::parse_format;
use anilist_export::parse::parse_list_entry;
use anilist_export::parse::parse_media;
use anilist_export::parse::parse_status;
use anilist_export::xmlformat::Date;
use anilist_export::xmlformat::Format;
use anilist_export::xmlformat::Status;

fn raw_media() -> RawMedia {
    RawMedia {
        idMal: Some(10),
        isAdult: Some(false),
        title: Some(String::from("Title")),
        format: Some(String::from("TV")),
        episodes: Some(12),
        chapters: None,
        volumes: None,
    }
}

fn raw_entry() -> RawEntry {
    RawEntry {
        status: Some(String::from("CURRENT")),
        repeat: Some(1),
        progress: Some(6),
        progressVolumes: None,
        customLists: vec![(String::from("Favorites"), true)],
        hiddenFromStatusLists: Some(false),
        startedAt: Date { year: Some(2021), month: Some(2), day: Some(3) },
        completedAt: Date { year: None, month: None, day: None },
        score: Some(String::from("7")),
        notes: Some(String::from("n")),
        media: Some(raw_media()),
    }
}

#[test]
fn status_words_recognized() {
    assert_eq!(parse_status("CURRENT"), Ok(Status::CURRENT));
    assert_eq!(parse_status("PLANNING"), Ok(Status::PLANNING));
    assert_eq!(parse_status("COMPLETED"), Ok(Status::COMPLETED));
    assert_eq!(parse_status("DROPPED"), Ok(Status::DROPPED));
    assert_eq!(parse_status("PAUSED"), Ok(Status::PAUSED));
    assert_eq!(parse_status("REPEATING"), Ok(Status::REPEATING));
}

#[test]
fn status_word_unrecognized() {
    assert_eq!(parse_status("WATCHING"), Err(ParseError::UnrecognizedStatus));
    assert_eq!(parse_status(""), Err(ParseError::UnrecognizedStatus));
    assert_eq!(parse_status("current"), Err(ParseError::UnrecognizedStatus));
}

#[test]
fn format_words_recognized() {
    assert_eq!(parse_format("TV"), Ok(Format::TV));
    assert_eq!(parse_format("TV_SHORT"), Ok(Format::TV_SHORT));
    assert_eq!(parse_format("MOVIE"), Ok(Format::MOVIE));
    assert_eq!(parse_format("SPECIAL"), Ok(Format::SPECIAL));
    assert_eq!(parse_format("OVA"), Ok(Format::OVA));
    assert_eq!(parse_format("ONA"), Ok(Format::ONA));
    assert_eq!(parse_format("MUSIC"), Ok(Format::MUSIC));
    assert_eq!(parse_format("MANGA"), Ok(Format::MANGA));
    assert_eq!(parse_format("NOVEL"), Ok(Format::NOVEL));
    assert_eq!(parse_format("ONE_SHOT"), Ok(Format::ONE_SHOT));
    assert_eq!(parse_format("UNKNOWN"), Ok(Format::UNKNOWN));
}

#[test]
fn format_word_unrecognized() {
    assert_eq!(parse_format("VHS"), Err(ParseError::UnrecognizedFormat));
}

#[test]
fn entry_parses_whole_record() {
    let e = parse_list_entry(raw_entry()).unwrap();
    assert_eq!(e.status, Status::CURRENT);
    assert_eq!(e.repeat, 1);
    assert_eq!(e.progress, 6);
    assert_eq!(e.progressVolumes, None);
    assert_eq!(e.customLists, vec![(String::from("Favorites"), true)]);
    assert!(!e.hiddenFromStatusLists);
    assert_eq!(e.startedAt, Date { year: Some(2021), month: Some(2), day: Some(3) });
    assert_eq!(e.score, "7");
    assert_eq!(e.notes, Some(String::from("n")));
    assert_eq!(e.media.idMal, Some(10));
    assert!(!e.media.isAdult);
    assert_eq!(e.media.title.romaji, "Title");
    assert_eq!(e.media.format, Some(Format::TV));
    assert_eq!(e.media.episodes, Some(12));
}

#[test]
fn entry_tolerates_optional_fields() {
    let mut raw = raw_entry();
    raw.progressVolumes = None;
    raw.notes = None;
    let mut m = raw_media();
    m.idMal = None;
    m.format = None;
    m.episodes = None;
    raw.media = Some(m);
    let e = parse_list_entry(raw).unwrap();
    assert_eq!(e.notes, None);
    assert_eq!(e.media.idMal, None);
    assert_eq!(e.media.format, None);
}

#[test]
fn entry_missing_required_fields() {
    let mut raw = raw_entry();
    raw.status = None;
    assert_eq!(parse_list_entry(raw), Err(ParseError::MissingStatus));

    let mut raw = raw_entry();
    raw.status = Some(String::from("REWATCHING"));
    assert_eq!(parse_list_entry(raw), Err(ParseError::UnrecognizedStatus));

    let mut raw = raw_entry();
    raw.repeat = None;
    assert_eq!(parse_list_entry(raw), Err(ParseError::MissingRepeat));

    let mut raw = raw_entry();
    raw.progress = None;
    assert_eq!(parse_list_entry(raw), Err(ParseError::MissingProgress));

    let mut raw = raw_entry();
    raw.hiddenFromStatusLists = None;
    assert_eq!(parse_list_entry(raw), Err(ParseError::MissingHidden));

    let mut raw = raw_entry();
    raw.score = None;
    assert_eq!(parse_list_entry(raw), Err(ParseError::MissingScore));

    let mut raw = raw_entry();
    raw.media = None;
    assert_eq!(parse_list_entry(raw), Err(ParseError::MissingMedia));
}

#[test]
fn media_missing_required_fields() {
    let mut m = raw_media();
    m.isAdult = None;
    assert_eq!(parse_media(m), Err(ParseError::MissingIsAdult));

    let mut m = raw_media();
    m.title = None;
    assert_eq!(parse_media(m), Err(ParseError::MissingTitle));

    let mut m = raw_media();
    m.format = Some(String::from("LASERDISC"));
    assert_eq!(parse_media(m), Err(ParseError::UnrecognizedFormat));
}

#[test]
fn error_messages_name_the_field() {
    assert_eq!(ParseError::MissingStatus.message(), "required field is absent: status");
    assert_eq!(
        ParseError::UnrecognizedFormat.message(),
        "unrecognized enum value in field: format"
    );
    assert_eq!(
        ParseError::MissingTitle.message(),
        "required field is absent: media.title.romaji"
    );
}
