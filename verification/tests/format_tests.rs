use anilist_export::xmlformat::Date;
use anilist_export::xmlformat::Format;
use anilist_export::xmlformat::Status;
use anilist_export::xmlformat::StatusEntry;
use anilist_export::xmlformat::UserStatistics;
use anilist_export::xmlformat::lists_to_tags;
use anilist_export::xmlformat::status_count;
use anilist_export::xmlformat::string_option_unwrap;
use anilist_export::xmlformat::to_string_manga;
use anilist_export::xmlformat::xml_animeheader;
use anilist_export::xmlformat::xml_mangaheader;
use anilist_export::xmlformat::xml_str;
use anilist_export::xmlformat::xml_tag;
use anilist_export::u64_to_string;

#[test]
fn date_full_fields_unpadded() {
    let d = Date { year: Some(2023), month: Some(4), day: Some(1) };
    assert_eq!(d.to_string(), "2023-4-1");
}

#[test]
fn date_all_absent_placeholder() {
    let d = Date { year: None, month: None, day: None };
    assert_eq!(d.to_string(), "0000-00-00");
}

#[test]
fn date_partial_components() {
    let d = Date { year: None, month: Some(12), day: Some(5) };
    assert_eq!(d.to_string(), "0000-12-5");
    let d = Date { year: Some(1999), month: None, day: None };
    assert_eq!(d.to_string(), "1999-00-00");
}

#[test]
fn escape_applied_once() {
    assert_eq!(xml_str("A & B < C"), "A &amp; B &lt; C");
}

#[test]
fn escape_all_special_characters() {
    assert_eq!(
        xml_str("<a href=\"x\">'&'</a>"),
        "&lt;a href=&quot;x&quot;&gt;&apos;&amp;&apos;&lt;/a&gt;"
    );
}

#[test]
fn escape_twice_mangles_entities() {
    assert_eq!(xml_str(&xml_str("A & B")), "A &amp;amp; B");
    assert_eq!(xml_str(&xml_str("plain")), xml_str("plain"));
}

#[test]
fn escape_leaves_plain_text() {
    assert_eq!(xml_str("plain text 123"), "plain text 123");
    assert_eq!(xml_str(""), "");
}

#[test]
fn tag_with_indent() {
    assert_eq!(xml_tag(Some(2), "tag", "v"), "\t\t<tag>v</tag>\n");
}

#[test]
fn tag_escapes_contents() {
    assert_eq!(xml_tag(Some(1), "t", "a&b"), "\t<t>a&amp;b</t>\n");
}

#[test]
fn tag_without_indent() {
    assert_eq!(xml_tag(None, "t", "x"), "<t>x</t>\n");
    assert_eq!(xml_tag(Some(-3), "t", "x"), "<t>x</t>\n");
    assert_eq!(xml_tag(Some(0), "t", ""), "<t></t>\n");
}

#[test]
fn status_vocabulary() {
    assert_eq!(Status::CURRENT.to_string(), "Watching");
    assert_eq!(Status::PLANNING.to_string(), "Plan to Watch");
    assert_eq!(Status::COMPLETED.to_string(), "Completed");
    assert_eq!(Status::DROPPED.to_string(), "Dropped");
    assert_eq!(Status::PAUSED.to_string(), "On-Hold");
    assert_eq!(Status::REPEATING.to_string(), "Completed");
}

#[test]
fn status_vocabulary_manga() {
    assert_eq!(to_string_manga(Status::CURRENT), "Reading");
    assert_eq!(to_string_manga(Status::PLANNING), "Plan to Read");
    assert_eq!(to_string_manga(Status::COMPLETED), "Completed");
    assert_eq!(to_string_manga(Status::DROPPED), "Dropped");
    assert_eq!(to_string_manga(Status::PAUSED), "On-Hold");
    assert_eq!(to_string_manga(Status::REPEATING), "Completed");
}

#[test]
fn format_names() {
    assert_eq!(Format::TV.to_string(), "TV");
    assert_eq!(Format::TV_SHORT.to_string(), "TV_SHORT");
    assert_eq!(Format::ONE_SHOT.to_string(), "ONE_SHOT");
    assert_eq!(Format::UNKNOWN.to_string(), "Unknown");
}

#[test]
fn custom_list_tags_order() {
    let lists = vec![
        (String::from("Favorites"), true),
        (String::from("Rewatch"), false),
        (String::from("Classics"), true),
    ];
    assert_eq!(lists_to_tags(&lists), "Favorites, Classics");
}

#[test]
fn custom_list_tags_empty() {
    let lists: Vec<(String, bool)> = vec![];
    assert_eq!(lists_to_tags(&lists), "");
    let lists = vec![(String::from("A"), false), (String::from("B"), false)];
    assert_eq!(lists_to_tags(&lists), "");
}

#[test]
fn custom_list_tags_single() {
    let lists = vec![(String::from("Only"), true)];
    assert_eq!(lists_to_tags(&lists), "Only");
}

#[test]
fn option_unwrap_text() {
    assert_eq!(string_option_unwrap(None), "");
    assert_eq!(string_option_unwrap(Some(String::from("note"))), "note");
}

#[test]
fn decimal_rendering() {
    assert_eq!(u64_to_string(0), "0");
    assert_eq!(u64_to_string(7), "7");
    assert_eq!(u64_to_string(10), "10");
    assert_eq!(u64_to_string(90210), "90210");
    assert_eq!(u64_to_string(u64::MAX), "18446744073709551615");
}

#[test]
fn status_count_first_match_wins() {
    let statuses = vec![
        StatusEntry { status: Status::CURRENT, count: 3 },
        StatusEntry { status: Status::CURRENT, count: 9 },
    ];
    assert_eq!(status_count(&statuses, Status::CURRENT), 3);
    assert_eq!(status_count(&statuses, Status::DROPPED), 0);
}

#[test]
fn anime_header_counts() {
    let stats = UserStatistics {
        count: 10,
        statuses: vec![
            StatusEntry { status: Status::CURRENT, count: 3 },
            StatusEntry { status: Status::COMPLETED, count: 5 },
        ],
    };
    let header = xml_animeheader(stats, 7, String::from("user"));
    let expected = "\t\t<user_id>7</user_id>\n\
                    \t\t<user_name>user</user_name>\n\
                    \t\t<user_export_type>1</user_export_type>\n\
                    \t\t<user_total_anime>10</user_total_anime>\n\
                    \t\t<user_total_watching>3</user_total_watching>\n\
                    \t\t<user_total_completed>5</user_total_completed>\n\
                    \t\t<user_total_onhold>0</user_total_onhold>\n\
                    \t\t<user_total_dropped>0</user_total_dropped>\n\
                    \t\t<user_total_plantowatch>0</user_total_plantowatch>\n";
    assert_eq!(header, expected);
}

#[test]
fn anime_header_combines_watching_and_rewatching() {
    let stats = UserStatistics {
        count: 6,
        statuses: vec![
            StatusEntry { status: Status::CURRENT, count: 3 },
            StatusEntry { status: Status::REPEATING, count: 2 },
        ],
    };
    let header = xml_animeheader(stats, 1, String::from("u"));
    assert!(header.contains("<user_total_watching>5</user_total_watching>"));
}

#[test]
fn manga_header_vocabulary() {
    let stats = UserStatistics {
        count: 4,
        statuses: vec![
            StatusEntry { status: Status::CURRENT, count: 1 },
            StatusEntry { status: Status::PLANNING, count: 2 },
        ],
    };
    let header = xml_mangaheader(stats, 9, String::from("m"));
    let expected = "\t\t<user_id>9</user_id>\n\
                    \t\t<user_name>m</user_name>\n\
                    \t\t<user_export_type>2</user_export_type>\n\
                    \t\t<user_total_manga>4</user_total_manga>\n\
                    \t\t<user_total_reading>1</user_total_reading>\n\
                    \t\t<user_total_completed>0</user_total_completed>\n\
                    \t\t<user_total_onhold>0</user_total_onhold>\n\
                    \t\t<user_total_dropped>0</user_total_dropped>\n\
                    \t\t<user_total_plantoread>2</user_total_plantoread>\n";
    assert_eq!(header, expected);
}

#[test]
fn header_escapes_user_name() {
    let stats = UserStatistics { count: 0, statuses: vec![] };
    let header = xml_animeheader(stats, 1, String::from("a&b"));
    assert!(header.contains("<user_name>a&amp;b</user_name>"));
}
