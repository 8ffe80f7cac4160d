//! The schema catalog: the names of every statistic the upstream service
//! reports, in the order in which it emits their rows.

use vstd::prelude::*;

verus! {

/// Number of placeholder rows that the upstream service emits between the
/// skill rows and the minigame rows.
pub const DELIMITER_LEN: usize = 3;

/// The skills, in upstream's emission order.
pub open spec fn skill_names() -> Seq<&'static str> {
    seq![
        "Total",
        "Attack",
        "Defence",
        "Strength",
        "Hitpoints",
        "Ranged",
        "Prayer",
        "Magic",
        "Cooking",
        "Woodcutting",
        "Fletching",
        "Fishing",
        "Firemaking",
        "Crafting",
        "Smithing",
        "Mining",
        "Herblore",
        "Agility",
        "Thieving",
        "Slayer",
        "Farming",
        "Runecrafting",
        "Hunter",
        "Construction",
    ]
}

/// The minigames and bosses, in upstream's emission order.
pub open spec fn minigame_names() -> Seq<&'static str> {
    seq![
        "Clue Scroll (All)",
        "Clue Scroll (Beginner)",
        "Clue Scroll (Easy)",
        "Clue Scroll (Medium)",
        "Clue Scroll (Hard)",
        "Clue Scroll (Elite)",
        "Clue Scroll (Master)",
        "LMS - Rank",
        "Soul Wars Zeal",
        "Rifts closed",
        "Abyssal Sire",
        "Alchemical Hydra",
        "Barrows Chests",
        "Bryophyta",
        "Callisto",
        "Cerberus",
        "Chambers of Xeric",
        "Chambers of Xeric: Challenge Mode",
        "Chaos Elemental",
        "Chaos Fanatic",
        "Commander Zilyana",
        "Corporeal Beast",
        "Crazy Archaeologist",
        "Dagannoth Prime",
        "Dagannoth Rex",
        "Dagannoth Supreme",
        "Deranged Archaeologist",
        "General Graardor",
        "Giant Mole",
        "Grotesque Guardians",
        "Hespori",
        "Kalphite Queen",
        "King Black Dragon",
        "Kraken",
        "Kree'Arra",
        "K'ril Tsutsaroth",
        "Mimic",
        "Nex",
        "Nightmare",
        "Phosani's Nightmare",
        "Obor",
        "Sarachnis",
        "Scorpia",
        "Skotizo",
        "Tempoross",
        "The Guantlet",
        "The Corrupted Guantlet",
        "Theatre of Blood",
        "Theatre of Blood: Hard Mode",
        "Thermonuclear Smoke Devil",
        "TzKal-Zuk",
        "TzTok-Jad",
        "Venenatis",
        "Vet'ion",
        "Vorkath",
        "Wintertodt",
        "Zalcano",
        "Zulrah",
    ]
}

/// The skill catalog as a vector.
pub fn skills() -> (names: Vec<&'static str>)
    ensures
        names@ == skill_names(),
{
    let names: Vec<&'static str> = vec![
        "Total",
        "Attack",
        "Defence",
        "Strength",
        "Hitpoints",
        "Ranged",
        "Prayer",
        "Magic",
        "Cooking",
        "Woodcutting",
        "Fletching",
        "Fishing",
        "Firemaking",
        "Crafting",
        "Smithing",
        "Mining",
        "Herblore",
        "Agility",
        "Thieving",
        "Slayer",
        "Farming",
        "Runecrafting",
        "Hunter",
        "Construction",
    ];
    assert(names@ =~= skill_names());
    names
}

/// The minigame catalog as a vector.
pub fn minigames() -> (names: Vec<&'static str>)
    ensures
        names@ == minigame_names(),
{
    let names: Vec<&'static str> = vec![
        "Clue Scroll (All)",
        "Clue Scroll (Beginner)",
        "Clue Scroll (Easy)",
        "Clue Scroll (Medium)",
        "Clue Scroll (Hard)",
        "Clue Scroll (Elite)",
        "Clue Scroll (Master)",
        "LMS - Rank",
        "Soul Wars Zeal",
        "Rifts closed",
        "Abyssal Sire",
        "Alchemical Hydra",
        "Barrows Chests",
        "Bryophyta",
        "Callisto",
        "Cerberus",
        "Chambers of Xeric",
        "Chambers of Xeric: Challenge Mode",
        "Chaos Elemental",
        "Chaos Fanatic",
        "Commander Zilyana",
        "Corporeal Beast",
        "Crazy Archaeologist",
        "Dagannoth Prime",
        "Dagannoth Rex",
        "Dagannoth Supreme",
        "Deranged Archaeologist",
        "General Graardor",
        "Giant Mole",
        "Grotesque Guardians",
        "Hespori",
        "Kalphite Queen",
        "King Black Dragon",
        "Kraken",
        "Kree'Arra",
        "K'ril Tsutsaroth",
        "Mimic",
        "Nex",
        "Nightmare",
        "Phosani's Nightmare",
        "Obor",
        "Sarachnis",
        "Scorpia",
        "Skotizo",
        "Tempoross",
        "The Guantlet",
        "The Corrupted Guantlet",
        "Theatre of Blood",
        "Theatre of Blood: Hard Mode",
        "Thermonuclear Smoke Devil",
        "TzKal-Zuk",
        "TzTok-Jad",
        "Venenatis",
        "Vet'ion",
        "Vorkath",
        "Wintertodt",
        "Zalcano",
        "Zulrah",
    ];
    assert(names@ =~= minigame_names());
    names
}

/// What tells the skill names apart: length and first two letters.
pub open spec fn mark(name: Seq<char>) -> (nat, char, char) {
    (name.len(), name[0], name[1])
}

/// No two skills have the same name.
pub proof fn lemma_skill_names_differ()
    ensures
        forall|i: int, j: int|
            0 <= i < j < skill_names().len() ==> (#[trigger] skill_names()[i])@ != (
            #[trigger] skill_names()[j])@,
{
    reveal_strlit("Total");
    reveal_strlit("Attack");
    reveal_strlit("Defence");
    reveal_strlit("Strength");
    reveal_strlit("Hitpoints");
    reveal_strlit("Ranged");
    reveal_strlit("Prayer");
    reveal_strlit("Magic");
    reveal_strlit("Cooking");
    reveal_strlit("Woodcutting");
    reveal_strlit("Fletching");
    reveal_strlit("Fishing");
    reveal_strlit("Firemaking");
    reveal_strlit("Crafting");
    reveal_strlit("Smithing");
    reveal_strlit("Mining");
    reveal_strlit("Herblore");
    reveal_strlit("Agility");
    reveal_strlit("Thieving");
    reveal_strlit("Slayer");
    reveal_strlit("Farming");
    reveal_strlit("Runecrafting");
    reveal_strlit("Hunter");
    reveal_strlit("Construction");
    let names = skill_names();
    assert(mark(names[0]@) == (5nat, 'T', 'o'));
    assert(mark(names[1]@) == (6nat, 'A', 't'));
    assert(mark(names[2]@) == (7nat, 'D', 'e'));
    assert(mark(names[3]@) == (8nat, 'S', 't'));
    assert(mark(names[4]@) == (9nat, 'H', 'i'));
    assert(mark(names[5]@) == (6nat, 'R', 'a'));
    assert(mark(names[6]@) == (6nat, 'P', 'r'));
    assert(mark(names[7]@) == (5nat, 'M', 'a'));
    assert(mark(names[8]@) == (7nat, 'C', 'o'));
    assert(mark(names[9]@) == (11nat, 'W', 'o'));
    assert(mark(names[10]@) == (9nat, 'F', 'l'));
    assert(mark(names[11]@) == (7nat, 'F', 'i'));
    assert(mark(names[12]@) == (10nat, 'F', 'i'));
    assert(mark(names[13]@) == (8nat, 'C', 'r'));
    assert(mark(names[14]@) == (8nat, 'S', 'm'));
    assert(mark(names[15]@) == (6nat, 'M', 'i'));
    assert(mark(names[16]@) == (8nat, 'H', 'e'));
    assert(mark(names[17]@) == (7nat, 'A', 'g'));
    assert(mark(names[18]@) == (8nat, 'T', 'h'));
    assert(mark(names[19]@) == (6nat, 'S', 'l'));
    assert(mark(names[20]@) == (7nat, 'F', 'a'));
    assert(mark(names[21]@) == (12nat, 'R', 'u'));
    assert(mark(names[22]@) == (6nat, 'H', 'u'));
    assert(mark(names[23]@) == (12nat, 'C', 'o'));
    assert forall|i: int, j: int| 0 <= i < j < names.len() implies (#[trigger] names[i])@ != (
    #[trigger] names[j])@ by {
        assert(mark(names[i]@) != mark(names[j]@));
    }
}

} // verus!
