//! The record translator: pairs raw rows with catalog names by position and
//! keeps the rows that carry data.

use crate::catalog::minigame_names;
use crate::catalog::skill_names;
use crate::catalog::DELIMITER_LEN;
use crate::error::ApiError;
use crate::error::ApiResult;
use crate::error::Failure;
use crate::parse::load_hiscore_rows;
use crate::parse::rows_of_text;
use vstd::prelude::*;

verus! {

/// One row of the upstream payload. A negative field means "no data".
#[derive(Clone, Copy, Debug, PartialEq, Eq)]
pub struct RawHiscoreRow {
    /// Player's rank in the category.
    pub rank: i64,
    /// For skills, the level. For everything else, the completion count.
    pub score: i64,
    /// Total experience points. Only present for skills.
    pub xp: Option<i64>,
}

/// A skill for which the player has data.
#[derive(Clone, Copy, Debug, PartialEq, Eq)]
pub struct HiscoreSkill {
    pub name: &'static str,
    pub rank: u64,
    pub level: u64,
    pub xp: u64,
}

/// A minigame or boss for which the player has data.
#[derive(Clone, Copy, Debug, PartialEq, Eq)]
pub struct HiscoreMinigame {
    pub name: &'static str,
    pub rank: u64,
    pub score: u64,
}

impl RawHiscoreRow {
    /// All three fields are present and none is negative.
    pub open spec fn has_skill(self) -> bool {
        self.rank >= 0 && self.score >= 0 && self.xp is Some && self.xp.unwrap() >= 0
    }

    /// Rank and score are not negative.
    pub open spec fn has_minigame(self) -> bool {
        self.rank >= 0 && self.score >= 0
    }

    pub fn new(rank: i64, score: i64, xp: Option<i64>) -> (row: Self)
        ensures
            row == (RawHiscoreRow { rank, score, xp }),
    {
        RawHiscoreRow { rank, score, xp }
    }
}

/// The skill entry that a row gives under a name, if the row carries one.
pub open spec fn skill_entry(name: &'static str, row: RawHiscoreRow) -> Option<HiscoreSkill> {
    if row.has_skill() {
        Some(
            HiscoreSkill {
                name,
                rank: row.rank as u64,
                level: row.score as u64,
                xp: row.xp.unwrap() as u64,
            },
        )
    } else {
        None
    }
}

/// The minigame entry that a row gives under a name, if the row carries one.
pub open spec fn minigame_entry(name: &'static str, row: RawHiscoreRow) -> Option<
    HiscoreMinigame,
> {
    if row.has_minigame() {
        Some(HiscoreMinigame { name, rank: row.rank as u64, score: row.score as u64 })
    } else {
        None
    }
}

impl HiscoreSkill {
    /// Builds the entry for `name` from `row`, or nothing where the row has a
    /// missing or negative field.
    pub fn from_row(name: &'static str, row: &RawHiscoreRow) -> (entry: Option<Self>)
        ensures
            entry == skill_entry(name, *row),
    {
        if row.rank < 0 || row.score < 0 {
            return None;
        }
        match row.xp {
            Some(xp) if xp >= 0 => Some(
                HiscoreSkill { name, rank: row.rank as u64, level: row.score as u64, xp: xp as u64 },
            ),
            _ => None,
        }
    }
}

impl HiscoreMinigame {
    /// Builds the entry for `name` from `row`, or nothing where rank or score
    /// is negative.
    pub fn from_row(name: &'static str, row: &RawHiscoreRow) -> (entry: Option<Self>)
        ensures
            entry == minigame_entry(name, *row),
    {
        if row.rank < 0 || row.score < 0 {
            None
        } else {
            Some(HiscoreMinigame { name, rank: row.rank as u64, score: row.score as u64 })
        }
    }
}

/// Hiscore statistics for a single player.
#[derive(Clone, Debug)]
pub struct HiscorePlayer {
    pub skills: Vec<HiscoreSkill>,
    pub minigames: Vec<HiscoreMinigame>,
}

/// What a player record holds: its two ordered sequences of entries.
pub struct PlayerView {
    pub skills: Seq<HiscoreSkill>,
    pub minigames: Seq<HiscoreMinigame>,
}

impl View for HiscorePlayer {
    type V = PlayerView;

    open spec fn view(&self) -> PlayerView {
        PlayerView { skills: self.skills@, minigames: self.minigames@ }
    }
}

/// How many rows a section pairs with names: pairing stops at the shorter of
/// the two.
pub open spec fn paired(names: nat, rows: nat) -> nat {
    if names <= rows {
        names
    } else {
        rows
    }
}

/// The skill entries given by the first `n` name-row pairs: pair `i` is
/// `names[i]` with `rows[i]`, and a pair without data contributes nothing.
pub open spec fn skills_through(
    names: Seq<&'static str>,
    rows: Seq<RawHiscoreRow>,
    n: nat,
) -> Seq<HiscoreSkill>
    recommends
        n <= names.len(),
        n <= rows.len(),
    decreases n,
{
    if n == 0 {
        Seq::empty()
    } else {
        let before = skills_through(names, rows, (n - 1) as nat);
        match skill_entry(names[n - 1], rows[n - 1]) {
            Some(entry) => before.push(entry),
            None => before,
        }
    }
}

/// The minigame entries given by the first `n` name-row pairs.
pub open spec fn minigames_through(
    names: Seq<&'static str>,
    rows: Seq<RawHiscoreRow>,
    n: nat,
) -> Seq<HiscoreMinigame>
    recommends
        n <= names.len(),
        n <= rows.len(),
    decreases n,
{
    if n == 0 {
        Seq::empty()
    } else {
        let before = minigames_through(names, rows, (n - 1) as nat);
        match minigame_entry(names[n - 1], rows[n - 1]) {
            Some(entry) => before.push(entry),
            None => before,
        }
    }
}

/// The skill section of a translation.
pub open spec fn skills_of(names: Seq<&'static str>, rows: Seq<RawHiscoreRow>) -> Seq<
    HiscoreSkill,
> {
    skills_through(names, rows, paired(names.len(), rows.len()))
}

/// The minigame section of a translation, from the rows that belong to it.
pub open spec fn minigames_of(names: Seq<&'static str>, rows: Seq<RawHiscoreRow>) -> Seq<
    HiscoreMinigame,
> {
    minigames_through(names, rows, paired(names.len(), rows.len()))
}

/// The rows left for the second section: those from index `start` on, none
/// where the payload ends before that.
pub open spec fn rows_from(rows: Seq<RawHiscoreRow>, start: nat) -> Seq<RawHiscoreRow> {
    if start <= rows.len() {
        rows.skip(start as int)
    } else {
        Seq::empty()
    }
}

/// The record that `rows` translate to under the two catalogs, with
/// `delimiter_len` placeholder rows between the sections.
pub open spec fn translation(
    primary: Seq<&'static str>,
    secondary: Seq<&'static str>,
    delimiter_len: nat,
    rows: Seq<RawHiscoreRow>,
) -> PlayerView {
    PlayerView {
        skills: skills_of(primary, rows),
        minigames: minigames_of(secondary, rows_from(rows, primary.len() + delimiter_len)),
    }
}

/// Translates parsed rows against arbitrary catalogs. The first
/// `primary.len()` rows pair with the primary names, the next
/// `delimiter_len` rows are passed over unread, and the rows after them pair
/// with the secondary names. Rows beyond both sections are ignored.
pub fn translate(
    primary: &[&'static str],
    secondary: &[&'static str],
    delimiter_len: usize,
    rows: &[RawHiscoreRow],
) -> (player: HiscorePlayer)
    ensures
        player@ == translation(primary@, secondary@, delimiter_len as nat, rows@),
{
    let primary_count: usize = if primary.len() <= rows.len() {
        primary.len()
    } else {
        rows.len()
    };
    let mut skills: Vec<HiscoreSkill> = Vec::new();
    let mut i: usize = 0;
    while i < primary_count
        invariant
            i <= primary_count,
            primary_count <= primary@.len(),
            primary_count <= rows@.len(),
            skills@ == skills_through(primary@, rows@, i as nat),
        decreases primary_count - i,
    {
        match HiscoreSkill::from_row(primary[i], &rows[i]) {
            Some(entry) => {
                skills.push(entry);
            },
            None => {},
        }
        i += 1;
    }

    let mut minigames: Vec<HiscoreMinigame> = Vec::new();
    let ghost tail = rows_from(rows@, primary@.len() + delimiter_len as nat);
    if rows.len() >= primary.len() && rows.len() - primary.len() >= delimiter_len {
        let start: usize = primary.len() + delimiter_len;
        let left: usize = rows.len() - start;
        let secondary_count: usize = if secondary.len() <= left {
            secondary.len()
        } else {
            left
        };
        let mut j: usize = 0;
        while j < secondary_count
            invariant
                j <= secondary_count,
                secondary_count <= secondary@.len(),
                start + secondary_count <= rows@.len() <= usize::MAX,
                tail == rows@.skip(start as int),
                minigames@ == minigames_through(secondary@, tail, j as nat),
            decreases secondary_count - j,
        {
            assert(tail[j as int] == rows@[start + j]);
            match HiscoreMinigame::from_row(secondary[j], &rows[start + j]) {
                Some(entry) => {
                    minigames.push(entry);
                },
                None => {},
            }
            j += 1;
        }
    }
    HiscorePlayer { skills, minigames }
}

/// An answer of the upstream service.
#[derive(Clone, Debug, PartialEq, Eq)]
pub struct Reply {
    /// The status code of the answer.
    pub status: u16,
    /// The body of the answer, as text.
    pub body: String,
}

/// What an answer holds.
pub struct ReplyView {
    pub status: u16,
    pub body: Seq<char>,
}

impl View for Reply {
    type V = ReplyView;

    open spec fn view(&self) -> ReplyView {
        ReplyView { status: self.status, body: self.body@ }
    }
}

/// The status codes that stand for success.
pub open spec fn is_success(status: u16) -> bool {
    200 <= status <= 299
}

/// What became of the request to the upstream service, as the translator
/// sees it: the answer, or, where the request failed before there was one,
/// the status that the failure carries, if any.
pub open spec fn upstream_view(upstream: Result<Reply, Option<u16>>) -> Result<
    ReplyView,
    Option<u16>,
> {
    match upstream {
        Ok(reply) => Ok(reply@),
        Err(status) => Err(status),
    }
}

/// The view of the outcome of a translation.
pub open spec fn outcome_view(outcome: ApiResult<HiscorePlayer>) -> Result<PlayerView, Failure> {
    match outcome {
        Ok(player) => Ok(player@),
        Err(failure) => Err(failure@),
    }
}

/// The outcome of translating one player. A failed request is passed on as
/// it is, and so is an answer with any status but success; of neither is
/// anything parsed. A successful answer whose body is not well-formed rows
/// is a parse failure. Any other body is translated against the catalog.
pub open spec fn load_outcome(upstream: Result<ReplyView, Option<u16>>) -> Result<
    PlayerView,
    Failure,
> {
    match upstream {
        Err(status) => Err(Failure::Reqwest { status }),
        Ok(reply) => if is_success(reply.status) {
            match rows_of_text(reply.body) {
                Ok(rows) => Ok(
                    translation(skill_names(), minigame_names(), DELIMITER_LEN as nat, rows),
                ),
                Err(why) => Err(Failure::Csv { message: why }),
            }
        } else {
            Err(Failure::Reqwest { status: Some(reply.status) })
        },
    }
}

impl Reply {
    /// Whether the service answered with success.
    pub fn is_success(&self) -> (success: bool)
        ensures
            success == is_success(self.status),
    {
        200 <= self.status && self.status <= 299
    }
}

impl HiscorePlayer {
    /// Translates parsed rows against the catalog of the upstream service.
    pub fn from_rows(rows: &[RawHiscoreRow]) -> (player: Self)
        ensures
            player@ == translation(skill_names(), minigame_names(), DELIMITER_LEN as nat, rows@),
    {
        let primary = crate::catalog::skills();
        let secondary = crate::catalog::minigames();
        translate(primary.as_slice(), secondary.as_slice(), DELIMITER_LEN, rows)
    }

    /// Turns what the request to the upstream service came to into a player
    /// record: checks the status of the answer, parses the body and pairs
    /// its rows with the catalog.
    pub fn load(upstream: Result<Reply, Option<u16>>) -> (outcome: ApiResult<Self>)
        ensures
            outcome_view(outcome) == load_outcome(upstream_view(upstream)),
    {
        match upstream {
            Err(status) => Err(ApiError::Reqwest { status }),
            Ok(reply) => {
                if reply.is_success() {
                    match load_hiscore_rows(reply.body.as_str()) {
                        Ok(rows) => Ok(HiscorePlayer::from_rows(rows.as_slice())),
                        Err(failure) => Err(failure),
                    }
                } else {
                    Err(ApiError::Reqwest { status: Some(reply.status) })
                }
            },
        }
    }
}

} // verus!
