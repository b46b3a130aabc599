//! Document assembler: the export comment, the two-pass emission of list
//! entries, and the complete output document.

use vstd::prelude::*;
use vstd::string::*;
use vstd::seq_lib::lemma_concat_associative;
use crate::numtext::dec_str;
use crate::numtext::u64_to_string;
use crate::xmlformat::ListType;
use crate::xmlformat::MediaEntry;
use crate::xmlformat::MediaListGroup;
use crate::xmlformat::UserStatistics;
use crate::xmlformat::anime_header_spec;
use crate::xmlformat::manga_header_spec;
use crate::xmlformat::xml_anime;
use crate::xmlformat::xml_anime_spec;
use crate::xmlformat::xml_animeheader;
use crate::xmlformat::xml_manga;
use crate::xmlformat::xml_manga_spec;
use crate::xmlformat::xml_mangaheader;

verus! {

// ---------------------------------------------------------------------------
// Signed and zero-padded decimal text
// ---------------------------------------------------------------------------

/// The decimal rendering of an integer, with a minus sign when negative.
pub open spec fn int_str(n: int) -> Seq<char> {
    if n < 0 {
        "-"@ + dec_str((-n) as nat)
    } else {
        dec_str(n as nat)
    }
}

/// The decimal rendering of a number padded with zeros to width two.
pub open spec fn pad2(n: nat) -> Seq<char> {
    if n < 10 {
        "0"@ + dec_str(n)
    } else {
        dec_str(n)
    }
}

/// Renders a possibly negative number in decimal.
pub fn i32_to_string(n: i32) -> (r: String)
    ensures
        r@ == int_str(n as int),
{
    if n < 0 {
        let mag: u64 = (-(n as i64)) as u64;
        let mut r = String::from_str("-");
        r.append(u64_to_string(mag).as_str());
        r
    } else {
        u64_to_string(n as u64)
    }
}

/// Renders a number in decimal, zero-padded to at least two digits.
pub fn u32_pad2(n: u32) -> (r: String)
    ensures
        r@ == pad2(n as nat),
{
    if n < 10 {
        let mut r = String::from_str("0");
        r.append(u64_to_string(n as u64).as_str());
        r
    } else {
        u64_to_string(n as u64)
    }
}

// ---------------------------------------------------------------------------
// The export comment
// ---------------------------------------------------------------------------

/// The comment block naming the export tool, its version and authors, the
/// date the export ran, and the exported account.
pub open spec fn export_comment_spec(username: Seq<char>, y: int, m: nat, d: nat) -> Seq<char> {
    "<!--\n"@ + "Export done by "@ + "anilist_export"@ + " v"@ + "0.1.0"@ + " by "@
        + "the anilist_export authors"@ + " on "@ + int_str(y) + "-"@ + pad2(m) + "-"@ + pad2(d)
        + " for the AniList account named "@ + username + "\n-->"@
}

/// Builds the export comment for a given calendar date.
pub fn xml_export_comment_on(username: &str, year: i32, month: u32, day: u32) -> (r: String)
    ensures
        r@ == export_comment_spec(username@, year as int, month as nat, day as nat),
{
    let mut b = String::from_str("<!--\n");
    b.append("Export done by ");
    b.append("anilist_export");
    b.append(" v");
    b.append("0.1.0");
    b.append(" by ");
    b.append("the anilist_export authors");
    b.append(" on ");
    b.append(i32_to_string(year).as_str());
    b.append("-");
    b.append(u32_pad2(month).as_str());
    b.append("-");
    b.append(u32_pad2(day).as_str());
    b.append(" for the AniList account named ");
    b.append(username);
    b.append("\n-->");
    b
}

/// Relies on `chrono::Local::now` and `chrono::Datelike`: `year` is the
/// local calendar year, `month` ranges over 1 to 12 and `day` over 1 to 31.
#[verifier::external_body]
fn local_today() -> (r: (i32, u32, u32))
    ensures
        1 <= r.1 <= 12,
        1 <= r.2 <= 31,
{
    let now = chrono::Local::now();
    (chrono::Datelike::year(&now), chrono::Datelike::month(&now), chrono::Datelike::day(&now))
}

/// Builds the export comment for today's local date. The date is whatever
/// the clock says; the text is exact for that date.
pub fn xml_export_comment(username: &str) -> (r: String)
    ensures
        exists|y: int, m: nat, d: nat|
            1 <= m <= 12 && 1 <= d <= 31 && r@ == export_comment_spec(username@, y, m, d),
{
    let (y, m, d) = local_today();
    let r = xml_export_comment_on(username, y, m, d);
    proof {
        assert(1 <= m as nat <= 12 && 1 <= d as nat <= 31 && r@ == export_comment_spec(
            username@,
            y as int,
            m as nat,
            d as nat,
        ));
    }
    r
}

// ---------------------------------------------------------------------------
// Two-pass entry emission
// ---------------------------------------------------------------------------

/// Whether one entry is written during a pass. An adult-flagged entry is
/// skipped entirely when adult content is disabled; the custom-list pass
/// (`hidden_only`) writes only entries hidden from the status lists.
pub open spec fn emit_entry(e: MediaEntry, nsfw: bool, hidden_only: bool) -> bool {
    (nsfw || !e.media.isAdult) && (!hidden_only || e.hiddenFromStatusLists)
}

/// The record text of one entry for the selected list kind.
pub open spec fn record_spec(e: MediaEntry, lt: ListType, update: bool) -> Seq<char> {
    match lt {
        ListType::Anime => xml_anime_spec(e, update),
        ListType::Manga => xml_manga_spec(e, update),
    }
}

/// The text one pass writes for a group's entries, in order: each emitted
/// entry's record followed by a newline.
pub open spec fn entries_text(
    entries: Seq<MediaEntry>,
    lt: ListType,
    update: bool,
    nsfw: bool,
    hidden_only: bool,
) -> Seq<char>
    decreases entries.len(),
{
    if entries.len() == 0 {
        Seq::<char>::empty()
    } else if emit_entry(entries.last(), nsfw, hidden_only) {
        entries_text(entries.drop_last(), lt, update, nsfw, hidden_only) + record_spec(
            entries.last(),
            lt,
            update,
        ) + "\n"@
    } else {
        entries_text(entries.drop_last(), lt, update, nsfw, hidden_only)
    }
}

/// The text one pass writes over all groups: the status pass
/// (`custom_pass` false) walks the non-custom groups, the custom pass walks
/// the custom groups and keeps only hidden entries.
pub open spec fn groups_text(
    groups: Seq<MediaListGroup>,
    lt: ListType,
    update: bool,
    nsfw: bool,
    custom_pass: bool,
) -> Seq<char>
    decreases groups.len(),
{
    if groups.len() == 0 {
        Seq::<char>::empty()
    } else if groups.last().isCustomList == custom_pass {
        groups_text(groups.drop_last(), lt, update, nsfw, custom_pass) + entries_text(
            groups.last().entries@,
            lt,
            update,
            nsfw,
            custom_pass,
        )
    } else {
        groups_text(groups.drop_last(), lt, update, nsfw, custom_pass)
    }
}

/// Every record the document holds: the status groups' entries first, then
/// the hidden entries of the custom groups. An entry visible in a status
/// list is never written twice, because the second pass takes hidden
/// entries only.
pub open spec fn all_records_text(
    groups: Seq<MediaListGroup>,
    lt: ListType,
    update: bool,
    nsfw: bool,
) -> Seq<char> {
    groups_text(groups, lt, update, nsfw, false) + groups_text(groups, lt, update, nsfw, true)
}

/// One emission pass over the groups, appended to `out`.
fn append_pass(
    out: &mut String,
    lists: &Vec<MediaListGroup>,
    lt: ListType,
    update: bool,
    nsfw: bool,
    custom_pass: bool,
)
    ensures
        final(out)@ == old(out)@ + groups_text(lists@, lt, update, nsfw, custom_pass),
{
    let ghost base = out@;
    let ghost all = lists@;
    let mut gi: usize = 0;
    while gi < lists.len()
        invariant
            gi <= all.len(),
            all == lists@,
            out@ == base + groups_text(all.take(gi as int), lt, update, nsfw, custom_pass),
        decreases all.len() - gi,
    {
        let ghost gprefix = groups_text(all.take(gi as int), lt, update, nsfw, custom_pass);
        proof {
            assert(all.take(gi + 1).drop_last() =~= all.take(gi as int));
            assert(all.take(gi + 1).last() == all[gi as int]);
        }
        let g = &lists[gi];
        if g.isCustomList == custom_pass {
            let ghost es = g.entries@;
            let mut ei: usize = 0;
            proof {
                assert(es.take(0) =~= Seq::<MediaEntry>::empty());
                assert((base + gprefix) + Seq::<char>::empty() =~= base + gprefix);
                lemma_concat_associative(
                    base,
                    gprefix,
                    entries_text(es.take(0), lt, update, nsfw, custom_pass),
                );
            }
            while ei < g.entries.len()
                invariant
                    ei <= es.len(),
                    es == g.entries@,
                    out@ == base + (gprefix + entries_text(
                        es.take(ei as int),
                        lt,
                        update,
                        nsfw,
                        custom_pass,
                    )),
                decreases es.len() - ei,
            {
                let ghost eprefix = entries_text(es.take(ei as int), lt, update, nsfw, custom_pass);
                proof {
                    assert(es.take(ei + 1).drop_last() =~= es.take(ei as int));
                    assert(es.take(ei + 1).last() == es[ei as int]);
                }
                let e = &g.entries[ei];
                let keep = nsfw || !e.media.isAdult;
                let wanted = !custom_pass || e.hiddenFromStatusLists;
                if keep && wanted {
                    let rec = match lt {
                        ListType::Anime => xml_anime(e, update),
                        ListType::Manga => xml_manga(e, update),
                    };
                    out.append(rec.as_str());
                    out.append("\n");
                    proof {
                        lemma_concat_associative(base, gprefix, eprefix);
                        lemma_concat_associative(
                            base + gprefix,
                            eprefix,
                            record_spec(es[ei as int], lt, update),
                        );
                        lemma_concat_associative(
                            base + gprefix,
                            eprefix + record_spec(es[ei as int], lt, update),
                            "\n"@,
                        );
                        lemma_concat_associative(
                            base,
                            gprefix,
                            eprefix + record_spec(es[ei as int], lt, update) + "\n"@,
                        );
                    }
                }
                ei = ei + 1;
            }
            proof {
                assert(es.take(es.len() as int) =~= es);
                lemma_concat_associative(
                    base,
                    gprefix,
                    entries_text(es, lt, update, nsfw, custom_pass),
                );
            }
        }
        gi = gi + 1;
    }
    proof {
        assert(all.take(all.len() as int) =~= all);
    }
}

/// Writes every exported record: first the entries of the status groups,
/// then the hidden entries of the custom groups, each record on its own
/// lines, under the adult-content filter.
pub fn xml_entries(lists: &Vec<MediaListGroup>, lt: ListType, update: bool, nsfw: bool) -> (r:
    String)
    ensures
        r@ == all_records_text(lists@, lt, update, nsfw),
{
    let mut out = String::new();
    append_pass(&mut out, lists, lt, update, nsfw, false);
    append_pass(&mut out, lists, lt, update, nsfw, true);
    proof {
        assert(Seq::<char>::empty() + groups_text(lists@, lt, update, nsfw, false) =~= groups_text(
            lists@,
            lt,
            update,
            nsfw,
            false,
        ));
    }
    out
}

/// An entry that a pass does not emit contributes nothing to the pass's
/// text, wherever it stands among the group's entries.
pub proof fn lemma_skipped_entry(
    prefix: Seq<MediaEntry>,
    e: MediaEntry,
    suffix: Seq<MediaEntry>,
    lt: ListType,
    update: bool,
    nsfw: bool,
    hidden_only: bool,
)
    requires
        !emit_entry(e, nsfw, hidden_only),
    ensures
        entries_text(prefix + seq![e] + suffix, lt, update, nsfw, hidden_only) == entries_text(
            prefix + suffix,
            lt,
            update,
            nsfw,
            hidden_only,
        ),
    decreases suffix.len(),
{
    if suffix.len() == 0 {
        assert(prefix + seq![e] + suffix =~= prefix + seq![e]);
        assert(prefix + suffix =~= prefix);
        assert((prefix + seq![e]).drop_last() =~= prefix);
        assert((prefix + seq![e]).last() == e);
    } else {
        let s0 = suffix.drop_last();
        lemma_skipped_entry(prefix, e, s0, lt, update, nsfw, hidden_only);
        assert((prefix + seq![e] + suffix).drop_last() =~= prefix + seq![e] + s0);
        assert((prefix + seq![e] + suffix).last() == suffix.last());
        assert((prefix + suffix).drop_last() =~= prefix + s0);
        assert((prefix + suffix).last() == suffix.last());
    }
}

/// With adult content disabled, an adult-flagged entry is excluded from the
/// output entirely, whichever group and pass it came from.
pub proof fn lemma_adult_entry_excluded(
    prefix: Seq<MediaEntry>,
    e: MediaEntry,
    suffix: Seq<MediaEntry>,
    lt: ListType,
    update: bool,
    hidden_only: bool,
)
    requires
        e.media.isAdult,
    ensures
        entries_text(prefix + seq![e] + suffix, lt, update, false, hidden_only) == entries_text(
            prefix + suffix,
            lt,
            update,
            false,
            hidden_only,
        ),
{
    lemma_skipped_entry(prefix, e, suffix, lt, update, false, hidden_only);
}

/// The custom-list pass writes hidden entries only: an entry still visible
/// in its status list adds nothing there, so an entry that appears both in
/// a status group and in a custom group is written once, by the status
/// pass.
pub proof fn lemma_visible_custom_entry_excluded(
    prefix: Seq<MediaEntry>,
    e: MediaEntry,
    suffix: Seq<MediaEntry>,
    lt: ListType,
    update: bool,
    nsfw: bool,
)
    requires
        !e.hiddenFromStatusLists,
    ensures
        entries_text(prefix + seq![e] + suffix, lt, update, nsfw, true) == entries_text(
            prefix + suffix,
            lt,
            update,
            nsfw,
            true,
        ),
{
    lemma_skipped_entry(prefix, e, suffix, lt, update, nsfw, true);
}

// ---------------------------------------------------------------------------
// The whole document
// ---------------------------------------------------------------------------

/// The summary block for the selected list kind.
pub open spec fn header_text_spec(
    stats: UserStatistics,
    id: u64,
    name: Seq<char>,
    lt: ListType,
) -> Seq<char> {
    match lt {
        ListType::Anime => anime_header_spec(stats, id, name),
        ListType::Manga => manga_header_spec(stats, id, name),
    }
}

/// The complete output document for a given export date: declaration, root
/// tag, export comment, `<myinfo>` summary, every record, closing root tag.
pub open spec fn document_spec(
    groups: Seq<MediaListGroup>,
    stats: UserStatistics,
    id: u64,
    name: Seq<char>,
    username: Seq<char>,
    lt: ListType,
    update: bool,
    nsfw: bool,
    y: int,
    m: nat,
    d: nat,
) -> Seq<char> {
    "<?xml version=\"1.0\" encoding=\"UTF-8\"?>\n"@ + "<myanimelist>\n"@ + export_comment_spec(
        username,
        y,
        m,
        d,
    ) + "\n"@ + "\t<myinfo>\n"@ + header_text_spec(stats, id, name, lt) + "\n"@ + "\t</myinfo>\n"@
        + all_records_text(groups, lt, update, nsfw) + "</myanimelist>\n"@
}

/// Assembles the whole document for a given export date.
pub fn xml_document_on(
    lists: &Vec<MediaListGroup>,
    stats: UserStatistics,
    user_id: u64,
    user_name: String,
    username: &str,
    lt: ListType,
    update: bool,
    nsfw: bool,
    year: i32,
    month: u32,
    day: u32,
) -> (r: String)
    ensures
        r@ == document_spec(
            lists@,
            stats,
            user_id,
            user_name@,
            username@,
            lt,
            update,
            nsfw,
            year as int,
            month as nat,
            day as nat,
        ),
{
    let mut doc = String::from_str("<?xml version=\"1.0\" encoding=\"UTF-8\"?>\n");
    doc.append("<myanimelist>\n");
    let comment = xml_export_comment_on(username, year, month, day);
    doc.append(comment.as_str());
    doc.append("\n");
    doc.append("\t<myinfo>\n");
    let header = match lt {
        ListType::Anime => xml_animeheader(stats, user_id, user_name),
        ListType::Manga => xml_mangaheader(stats, user_id, user_name),
    };
    doc.append(header.as_str());
    doc.append("\n");
    doc.append("\t</myinfo>\n");
    let entries = xml_entries(lists, lt, update, nsfw);
    doc.append(entries.as_str());
    doc.append("</myanimelist>\n");
    doc
}

/// Assembles the whole document, dated with today's local date.
pub fn xml_document(
    lists: &Vec<MediaListGroup>,
    stats: UserStatistics,
    user_id: u64,
    user_name: String,
    username: &str,
    lt: ListType,
    update: bool,
    nsfw: bool,
) -> (r: String)
    ensures
        exists|y: int, m: nat, d: nat|
            1 <= m <= 12 && 1 <= d <= 31 && r@ == document_spec(
                lists@,
                stats,
                user_id,
                user_name@,
                username@,
                lt,
                update,
                nsfw,
                y,
                m,
                d,
            ),
{
    let (y, m, d) = local_today();
    let r = xml_document_on(lists, stats, user_id, user_name, username, lt, update, nsfw, y, m, d);
    proof {
        assert(1 <= m as nat <= 12 && 1 <= d as nat <= 31 && r@ == document_spec(
            lists@,
            stats,
            user_id,
            user_name@,
            username@,
            lt,
            update,
            nsfw,
            y as int,
            m as nat,
            d as nat,
        ));
    }
    r
}

} // verus!
