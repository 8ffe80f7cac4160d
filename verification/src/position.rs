//! Where entries end up: what the translation guarantees about the place of
//! each entry, about omitted rows, and about the rows each section reads.

use crate::catalog::lemma_skill_names_differ;
use crate::catalog::minigame_names;
use crate::catalog::skill_names;
use crate::error::Failure;
use crate::error::ApiResult;
use crate::hiscore::load_outcome;
use crate::hiscore::minigame_entry;
use crate::hiscore::minigames_through;
use crate::hiscore::outcome_view;
use crate::hiscore::paired;
use crate::hiscore::rows_from;
use crate::hiscore::skill_entry;
use crate::hiscore::skills_through;
use crate::hiscore::translation;
use crate::hiscore::upstream_view;
use crate::hiscore::is_success;
use crate::hiscore::HiscoreMinigame;
use crate::hiscore::PlayerView;
use crate::hiscore::Reply;
use crate::hiscore::ReplyView;
use crate::parse::csv_records;
use crate::parse::lemma_one_bad_record_fails_all;
use crate::parse::row_of_record;
use crate::hiscore::HiscorePlayer;
use crate::hiscore::HiscoreSkill;
use crate::hiscore::RawHiscoreRow;
use vstd::prelude::*;

verus! {

/// How many of the first `n` rows carry no skill entry.
pub open spec fn skills_omitted(rows: Seq<RawHiscoreRow>, n: nat) -> nat
    recommends
        n <= rows.len(),
    decreases n,
{
    if n == 0 {
        0
    } else {
        let before = skills_omitted(rows, (n - 1) as nat);
        if rows[n - 1].has_skill() {
            before
        } else {
            before + 1
        }
    }
}

/// How many of the first `n` rows carry no minigame entry.
pub open spec fn minigames_omitted(rows: Seq<RawHiscoreRow>, n: nat) -> nat
    recommends
        n <= rows.len(),
    decreases n,
{
    if n == 0 {
        0
    } else {
        let before = minigames_omitted(rows, (n - 1) as nat);
        if rows[n - 1].has_minigame() {
            before
        } else {
            before + 1
        }
    }
}

/// The catalog has 24 skills and 58 minigames, so a complete payload has
/// 24 + 3 + 58 rows.
pub proof fn lemma_catalog_sizes()
    ensures
        skill_names().len() == 24,
        minigame_names().len() == 58,
        skill_names().len() + crate::catalog::DELIMITER_LEN + minigame_names().len() == 85,
{
}

/// A row in which rank, score or experience is the sentinel `-1`, or which
/// has no experience field, gives no skill entry.
pub proof fn lemma_sentinel_omits_skill(name: &'static str, row: RawHiscoreRow)
    requires
        row.rank == -1 || row.score == -1 || row.xp == Some(-1i64) || row.xp is None,
    ensures
        skill_entry(name, row) is None,
{
}

/// A row in which rank or score is the sentinel `-1` gives no minigame
/// entry.
pub proof fn lemma_sentinel_omits_minigame(name: &'static str, row: RawHiscoreRow)
    requires
        row.rank == -1 || row.score == -1,
    ensures
        minigame_entry(name, row) is None,
{
}

/// A fully populated row gives an entry that carries its name and the row's
/// three numbers unchanged.
pub proof fn lemma_populated_row_is_kept(name: &'static str, row: RawHiscoreRow)
    requires
        row.has_skill(),
    ensures
        skill_entry(name, row) matches Some(entry) && entry.name == name && entry.rank == row.rank
            && entry.level == row.score && entry.xp == row.xp.unwrap(),
{
}

/// Among fully populated rows none is omitted from the skill section.
pub proof fn lemma_no_skill_omitted(rows: Seq<RawHiscoreRow>, n: nat)
    requires
        n <= rows.len(),
        forall|i: int| 0 <= i < n ==> (#[trigger] rows[i]).has_skill(),
    ensures
        skills_omitted(rows, n) == 0,
    decreases n,
{
    if n > 0 {
        lemma_no_skill_omitted(rows, (n - 1) as nat);
    }
}

/// Among rows with rank and score none is omitted from the minigame
/// section.
pub proof fn lemma_no_minigame_omitted(rows: Seq<RawHiscoreRow>, n: nat)
    requires
        n <= rows.len(),
        forall|i: int| 0 <= i < n ==> (#[trigger] rows[i]).has_minigame(),
    ensures
        minigames_omitted(rows, n) == 0,
    decreases n,
{
    if n > 0 {
        lemma_no_minigame_omitted(rows, (n - 1) as nat);
    }
}

/// A skill section is shorter than the number of rows it read by exactly
/// the number of rows it omitted.
pub proof fn lemma_skills_len(names: Seq<&'static str>, rows: Seq<RawHiscoreRow>, n: nat)
    requires
        n <= names.len(),
        n <= rows.len(),
    ensures
        skills_through(names, rows, n).len() + skills_omitted(rows, n) == n,
    decreases n,
{
    if n > 0 {
        lemma_skills_len(names, rows, (n - 1) as nat);
    }
}

/// A minigame section is shorter than the number of rows it read by exactly
/// the number of rows it omitted.
pub proof fn lemma_minigames_len(names: Seq<&'static str>, rows: Seq<RawHiscoreRow>, n: nat)
    requires
        n <= names.len(),
        n <= rows.len(),
    ensures
        minigames_through(names, rows, n).len() + minigames_omitted(rows, n) == n,
    decreases n,
{
    if n > 0 {
        lemma_minigames_len(names, rows, (n - 1) as nat);
    }
}

/// Reading further rows only appends: the entries of the first `i` pairs
/// stay where they are.
pub proof fn lemma_skills_prefix(
    names: Seq<&'static str>,
    rows: Seq<RawHiscoreRow>,
    i: nat,
    n: nat,
)
    requires
        i <= n,
    ensures
        skills_through(names, rows, i).len() <= skills_through(names, rows, n).len(),
        forall|k: int|
            0 <= k < skills_through(names, rows, i).len() ==> skills_through(names, rows, i)[k]
                == skills_through(names, rows, n)[k],
    decreases n,
{
    if i < n {
        lemma_skills_prefix(names, rows, i, (n - 1) as nat);
    }
}

/// Reading further rows only appends: the entries of the first `i` pairs
/// stay where they are.
pub proof fn lemma_minigames_prefix(
    names: Seq<&'static str>,
    rows: Seq<RawHiscoreRow>,
    i: nat,
    n: nat,
)
    requires
        i <= n,
    ensures
        minigames_through(names, rows, i).len() <= minigames_through(names, rows, n).len(),
        forall|k: int|
            0 <= k < minigames_through(names, rows, i).len() ==> minigames_through(
                names,
                rows,
                i,
            )[k] == minigames_through(names, rows, n)[k],
    decreases n,
{
    if i < n {
        lemma_minigames_prefix(names, rows, i, (n - 1) as nat);
    }
}

/// A section depends on the rows it reads and on no others.
pub proof fn lemma_skills_read_only_paired_rows(
    names: Seq<&'static str>,
    rows: Seq<RawHiscoreRow>,
    other: Seq<RawHiscoreRow>,
    n: nat,
)
    requires
        n <= rows.len(),
        n <= other.len(),
        forall|i: int| 0 <= i < n ==> rows[i] == other[i],
    ensures
        skills_through(names, rows, n) == skills_through(names, other, n),
    decreases n,
{
    if n > 0 {
        lemma_skills_read_only_paired_rows(names, rows, other, (n - 1) as nat);
    }
}

/// A section depends on the rows it reads and on no others.
pub proof fn lemma_minigames_read_only_paired_rows(
    names: Seq<&'static str>,
    rows: Seq<RawHiscoreRow>,
    other: Seq<RawHiscoreRow>,
    n: nat,
)
    requires
        n <= rows.len(),
        n <= other.len(),
        forall|i: int| 0 <= i < n ==> rows[i] == other[i],
    ensures
        minigames_through(names, rows, n) == minigames_through(names, other, n),
    decreases n,
{
    if n > 0 {
        lemma_minigames_read_only_paired_rows(names, rows, other, (n - 1) as nat);
    }
}

/// Within a section, the entry of a populated row `i` stands at index `i`
/// less the number of rows omitted before it, and holds the name at `i`
/// with the row's rank, score and experience.
pub proof fn lemma_skill_position(
    names: Seq<&'static str>,
    rows: Seq<RawHiscoreRow>,
    n: nat,
    i: nat,
)
    requires
        n <= names.len(),
        n <= rows.len(),
        i < n,
        rows[i as int].has_skill(),
    ensures
        0 <= i - skills_omitted(rows, i) < skills_through(names, rows, n).len(),
        skills_through(names, rows, n)[i - skills_omitted(rows, i)] == (HiscoreSkill {
            name: names[i as int],
            rank: rows[i as int].rank as u64,
            level: rows[i as int].score as u64,
            xp: rows[i as int].xp.unwrap() as u64,
        }),
{
    lemma_skills_len(names, rows, i);
    lemma_skills_prefix(names, rows, i + 1, n);
    let upto = skills_through(names, rows, i + 1);
    assert(upto == skills_through(names, rows, i).push(
        skill_entry(names[i as int], rows[i as int]).unwrap(),
    ));
    assert(upto[i - skills_omitted(rows, i)] == skill_entry(
        names[i as int],
        rows[i as int],
    ).unwrap());
}

/// Within a section, the entry of a row `i` with rank and score stands at
/// index `i` less the number of rows omitted before it, and holds the name
/// at `i` with the row's rank and score.
pub proof fn lemma_minigame_position(
    names: Seq<&'static str>,
    rows: Seq<RawHiscoreRow>,
    n: nat,
    i: nat,
)
    requires
        n <= names.len(),
        n <= rows.len(),
        i < n,
        rows[i as int].has_minigame(),
    ensures
        0 <= i - minigames_omitted(rows, i) < minigames_through(names, rows, n).len(),
        minigames_through(names, rows, n)[i - minigames_omitted(rows, i)] == (HiscoreMinigame {
            name: names[i as int],
            rank: rows[i as int].rank as u64,
            score: rows[i as int].score as u64,
        }),
{
    lemma_minigames_len(names, rows, i);
    lemma_minigames_prefix(names, rows, i + 1, n);
    let upto = minigames_through(names, rows, i + 1);
    assert(upto == minigames_through(names, rows, i).push(
        minigame_entry(names[i as int], rows[i as int]).unwrap(),
    ));
    assert(upto[i - minigames_omitted(rows, i)] == minigame_entry(
        names[i as int],
        rows[i as int],
    ).unwrap());
}

/// Every entry of a skill section comes from a populated row: entry `k` is
/// that of the row `i` it names, which has `i - k` omitted rows before it.
pub proof fn lemma_skill_source(
    names: Seq<&'static str>,
    rows: Seq<RawHiscoreRow>,
    n: nat,
    k: int,
) -> (i: nat)
    requires
        n <= names.len(),
        n <= rows.len(),
        0 <= k < skills_through(names, rows, n).len(),
    ensures
        i < n,
        rows[i as int].has_skill(),
        k == i - skills_omitted(rows, i),
        Some(skills_through(names, rows, n)[k]) == skill_entry(names[i as int], rows[i as int]),
    decreases n,
{
    let before = skills_through(names, rows, (n - 1) as nat);
    if k < before.len() {
        lemma_skill_source(names, rows, (n - 1) as nat, k)
    } else {
        lemma_skills_len(names, rows, (n - 1) as nat);
        (n - 1) as nat
    }
}

/// Every entry of a minigame section comes from a row with rank and score:
/// entry `k` is that of the row `i` it names, which has `i - k` omitted
/// rows before it.
pub proof fn lemma_minigame_source(
    names: Seq<&'static str>,
    rows: Seq<RawHiscoreRow>,
    n: nat,
    k: int,
) -> (i: nat)
    requires
        n <= names.len(),
        n <= rows.len(),
        0 <= k < minigames_through(names, rows, n).len(),
    ensures
        i < n,
        rows[i as int].has_minigame(),
        k == i - minigames_omitted(rows, i),
        Some(minigames_through(names, rows, n)[k]) == minigame_entry(
            names[i as int],
            rows[i as int],
        ),
    decreases n,
{
    let before = minigames_through(names, rows, (n - 1) as nat);
    if k < before.len() {
        lemma_minigame_source(names, rows, (n - 1) as nat, k)
    } else {
        lemma_minigames_len(names, rows, (n - 1) as nat);
        (n - 1) as nat
    }
}

/// The skill section of a translation is shorter than the number of
/// primary rows in the payload by exactly the number of those rows that
/// lack data.
pub proof fn lemma_omitted_rows_shorten_skills(
    primary: Seq<&'static str>,
    secondary: Seq<&'static str>,
    delimiter_len: nat,
    rows: Seq<RawHiscoreRow>,
)
    ensures
        ({
            let read = paired(primary.len(), rows.len());
            translation(primary, secondary, delimiter_len, rows).skills.len() == read
                - skills_omitted(rows, read)
        }),
{
    lemma_skills_len(primary, rows, paired(primary.len(), rows.len()));
}

/// The minigame section of a translation is shorter than the number of
/// secondary rows in the payload by exactly the number of those rows that
/// lack data.
pub proof fn lemma_omitted_rows_shorten_minigames(
    primary: Seq<&'static str>,
    secondary: Seq<&'static str>,
    delimiter_len: nat,
    rows: Seq<RawHiscoreRow>,
)
    ensures
        ({
            let tail = rows_from(rows, primary.len() + delimiter_len);
            let read = paired(secondary.len(), tail.len());
            translation(primary, secondary, delimiter_len, rows).minigames.len() == read
                - minigames_omitted(tail, read)
        }),
{
    let tail = rows_from(rows, primary.len() + delimiter_len);
    lemma_minigames_len(secondary, tail, paired(secondary.len(), tail.len()));
}

/// In a translation, the populated primary row `i` gives the skill entry at
/// index `i` less the number of primary rows omitted before it. The entry
/// holds category `i` with the rank, score and experience of row `i`.
pub proof fn lemma_primary_position(
    primary: Seq<&'static str>,
    secondary: Seq<&'static str>,
    delimiter_len: nat,
    rows: Seq<RawHiscoreRow>,
    i: nat,
)
    requires
        i < primary.len(),
        i < rows.len(),
        rows[i as int].has_skill(),
    ensures
        ({
            let section = translation(primary, secondary, delimiter_len, rows).skills;
            let at = i - skills_omitted(rows, i);
            &&& 0 <= at < section.len()
            &&& section[at].name == primary[i as int]
            &&& section[at].rank == rows[i as int].rank
            &&& section[at].level == rows[i as int].score
            &&& section[at].xp == rows[i as int].xp.unwrap()
        }),
{
    lemma_skill_position(primary, rows, paired(primary.len(), rows.len()), i);
}

/// Where every row of the primary section is fully populated, entry `i` of
/// the skill section is category `i` with the numbers of row `i`.
pub proof fn lemma_populated_section_in_place(
    primary: Seq<&'static str>,
    secondary: Seq<&'static str>,
    delimiter_len: nat,
    rows: Seq<RawHiscoreRow>,
)
    requires
        primary.len() <= rows.len(),
        forall|i: int| 0 <= i < primary.len() ==> (#[trigger] rows[i]).has_skill(),
    ensures
        translation(primary, secondary, delimiter_len, rows).skills.len() == primary.len(),
        forall|i: int|
            0 <= i < primary.len() ==> {
                let entry = #[trigger] translation(
                    primary,
                    secondary,
                    delimiter_len,
                    rows,
                ).skills[i];
                &&& entry.name == primary[i]
                &&& entry.rank == rows[i].rank
                &&& entry.level == rows[i].score
                &&& entry.xp == rows[i].xp.unwrap()
            },
{
    let n = primary.len();
    lemma_no_skill_omitted(rows, n);
    lemma_skills_len(primary, rows, n);
    assert forall|i: int| 0 <= i < primary.len() implies {
        let entry = #[trigger] translation(primary, secondary, delimiter_len, rows).skills[i];
        &&& entry.name == primary[i]
        &&& entry.rank == rows[i].rank
        &&& entry.level == rows[i].score
        &&& entry.xp == rows[i].xp.unwrap()
    } by {
        lemma_no_skill_omitted(rows, i as nat);
        lemma_skill_position(primary, rows, n, i as nat);
    }
}

/// The minigame section starts at the row behind the primary rows and the
/// delimiter: minigame category `j` is paired with the row at index
/// `primary.len() + delimiter_len + j`, and where that row has data its
/// entry stands at `j` less the number of secondary rows omitted before it.
pub proof fn lemma_secondary_offset(
    primary: Seq<&'static str>,
    secondary: Seq<&'static str>,
    delimiter_len: nat,
    rows: Seq<RawHiscoreRow>,
    j: nat,
)
    requires
        j < secondary.len(),
        primary.len() + delimiter_len + j < rows.len(),
        rows[(primary.len() + delimiter_len + j) as int].has_minigame(),
    ensures
        ({
            let start = primary.len() + delimiter_len;
            let section = translation(primary, secondary, delimiter_len, rows).minigames;
            let at = j - minigames_omitted(rows.skip(start as int), j);
            &&& 0 <= at < section.len()
            &&& section[at].name == secondary[j as int]
            &&& section[at].rank == rows[(start + j) as int].rank
            &&& section[at].score == rows[(start + j) as int].score
        }),
{
    let start = primary.len() + delimiter_len;
    let tail = rows_from(rows, start);
    assert(tail[j as int] == rows[(start + j) as int]);
    lemma_minigame_position(secondary, tail, paired(secondary.len(), tail.len()), j);
}

/// No minigame entry comes from a row before index
/// `primary.len() + delimiter_len`: entry `k` of the minigame section is
/// that of the row at `primary.len() + delimiter_len + j` under category
/// `j`, for the `j` this lemma returns.
pub proof fn lemma_secondary_source(
    primary: Seq<&'static str>,
    secondary: Seq<&'static str>,
    delimiter_len: nat,
    rows: Seq<RawHiscoreRow>,
    k: int,
) -> (j: nat)
    requires
        0 <= k < translation(primary, secondary, delimiter_len, rows).minigames.len(),
    ensures
        j < secondary.len(),
        primary.len() + delimiter_len + j < rows.len(),
        Some(translation(primary, secondary, delimiter_len, rows).minigames[k]) == minigame_entry(
            secondary[j as int],
            rows[(primary.len() + delimiter_len + j) as int],
        ),
{
    let start = primary.len() + delimiter_len;
    let tail = rows_from(rows, start);
    let j = lemma_minigame_source(secondary, tail, paired(secondary.len(), tail.len()), k);
    assert(tail[j as int] == rows[(start + j) as int]);
    j
}

/// The rows before the minigame section have no part in it: payloads that
/// agree from index `primary.len() + delimiter_len` on have the same
/// minigame section.
pub proof fn lemma_minigames_ignore_head(
    primary: Seq<&'static str>,
    secondary: Seq<&'static str>,
    delimiter_len: nat,
    rows: Seq<RawHiscoreRow>,
    other: Seq<RawHiscoreRow>,
)
    requires
        rows.len() == other.len(),
        forall|i: int| primary.len() + delimiter_len <= i < rows.len() ==> rows[i] == other[i],
    ensures
        translation(primary, secondary, delimiter_len, rows).minigames == translation(
            primary,
            secondary,
            delimiter_len,
            other,
        ).minigames,
{
    let start = primary.len() + delimiter_len;
    assert(rows_from(rows, start) =~= rows_from(other, start));
}

/// A payload that ends before the minigame section has no minigame
/// entries.
pub proof fn lemma_short_payload_has_no_minigames(
    primary: Seq<&'static str>,
    secondary: Seq<&'static str>,
    delimiter_len: nat,
    rows: Seq<RawHiscoreRow>,
)
    requires
        rows.len() <= primary.len() + delimiter_len,
    ensures
        translation(primary, secondary, delimiter_len, rows).minigames.len() == 0,
{
}

/// Rows behind the last category are ignored: a longer payload translates
/// as its first `primary.len() + delimiter_len + secondary.len()` rows do.
pub proof fn lemma_trailing_rows_ignored(
    primary: Seq<&'static str>,
    secondary: Seq<&'static str>,
    delimiter_len: nat,
    rows: Seq<RawHiscoreRow>,
)
    requires
        primary.len() + delimiter_len + secondary.len() <= rows.len(),
    ensures
        translation(primary, secondary, delimiter_len, rows) == translation(
            primary,
            secondary,
            delimiter_len,
            rows.take((primary.len() + delimiter_len + secondary.len()) as int),
        ),
{
    let start = primary.len() + delimiter_len;
    let cut = rows.take((start + secondary.len()) as int);
    lemma_skills_read_only_paired_rows(primary, rows, cut, primary.len());
    lemma_minigames_read_only_paired_rows(
        secondary,
        rows_from(rows, start),
        rows_from(cut, start),
        secondary.len(),
    );
}

/// A payload with one row for every category and the delimiter, and data in
/// every category row, fills the record: one entry per category.
pub proof fn lemma_full_payload_fills_record(
    primary: Seq<&'static str>,
    secondary: Seq<&'static str>,
    delimiter_len: nat,
    rows: Seq<RawHiscoreRow>,
)
    requires
        rows.len() == primary.len() + delimiter_len + secondary.len(),
        forall|i: int| 0 <= i < primary.len() ==> (#[trigger] rows[i]).has_skill(),
        forall|i: int|
            primary.len() + delimiter_len <= i < rows.len() ==> (#[trigger] rows[i]).has_minigame(),
    ensures
        translation(primary, secondary, delimiter_len, rows).skills.len() == primary.len(),
        translation(primary, secondary, delimiter_len, rows).minigames.len() == secondary.len(),
{
    let start = primary.len() + delimiter_len;
    let tail = rows_from(rows, start);
    lemma_no_skill_omitted(rows, primary.len());
    lemma_skills_len(primary, rows, primary.len());
    assert forall|j: int| 0 <= j < secondary.len() implies (#[trigger] tail[j]).has_minigame() by {
        assert(tail[j] == rows[start + j]);
    }
    lemma_no_minigame_omitted(tail, secondary.len());
    lemma_minigames_len(secondary, tail, secondary.len());
}

/// Translation has one outcome: two runs of `HiscorePlayer::load` on the
/// same upstream answer come to the same record, entry for entry, or to the
/// same failure.
pub proof fn lemma_one_outcome(
    upstream: Result<Reply, Option<u16>>,
    again: Result<Reply, Option<u16>>,
    first: ApiResult<HiscorePlayer>,
    second: ApiResult<HiscorePlayer>,
)
    requires
        upstream_view(upstream) == upstream_view(again),
        outcome_view(first) == load_outcome(upstream_view(upstream)),
        outcome_view(second) == load_outcome(upstream_view(again)),
    ensures
        outcome_view(first) == outcome_view(second),
        first matches Ok(a) ==> second matches Ok(b) && a.skills@ == b.skills@ && a.minigames@
            == b.minigames@,
        first matches Err(failure) ==> second matches Err(other) && failure@ == other@,
{
}

/// An answer without success is passed on with the status it came with and
/// its body is not read: whatever the body holds, the outcome is the same
/// upstream failure, and the proxy answers with that status.
pub proof fn lemma_failed_answer_is_forwarded(reply: ReplyView)
    requires
        !is_success(reply.status),
    ensures
        load_outcome(Ok(reply)) == Err::<PlayerView, Failure>(
            Failure::Reqwest { status: Some(reply.status) },
        ),
        (Failure::Reqwest { status: Some(reply.status) }).status_code() == reply.status,
{
}

/// A successful answer with a record that stands for no row is a parse
/// failure, which the proxy answers with a 500, however many records before
/// that one were well-formed.
pub proof fn lemma_bad_record_fails_translation(
    reply: ReplyView,
    records: Seq<Seq<Seq<char>>>,
    i: int,
)
    requires
        is_success(reply.status),
        csv_records(reply.body) == Ok::<Seq<Seq<Seq<char>>>, Seq<char>>(records),
        0 <= i < records.len(),
        row_of_record(records[i]) is Err,
    ensures
        load_outcome(Ok(reply)) matches Err(failure) && failure is Csv && failure.status_code()
            == 500,
{
    lemma_one_bad_record_fails_all(records, i);
}

/// A skill whose row lacks data, or for which the payload has no row, has
/// no entry under its name: no entry of the record translated against the
/// catalog bears it.
pub proof fn lemma_missing_skill_has_no_entry(rows: Seq<RawHiscoreRow>, i: int, k: int)
    requires
        0 <= i < skill_names().len(),
        i < rows.len() ==> !rows[i].has_skill(),
        0 <= k < translation(
            skill_names(),
            minigame_names(),
            crate::catalog::DELIMITER_LEN as nat,
            rows,
        ).skills.len(),
    ensures
        translation(
            skill_names(),
            minigame_names(),
            crate::catalog::DELIMITER_LEN as nat,
            rows,
        ).skills[k].name@ != skill_names()[i]@,
{
    let read = paired(skill_names().len(), rows.len());
    let from = lemma_skill_source(skill_names(), rows, read, k);
    lemma_skill_names_differ();
    assert(skill_names()[from as int]@ != skill_names()[i]@);
}

} // verus!
