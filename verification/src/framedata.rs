//! The data model and the query facade: move records with their
//! positional field schema, per-character frame data, the catalog, and
//! its lookups.

use vstd::prelude::*;
use vstd::string::StrSliceExecFns;

use crate::character::{str_eq, CharacterId};

verus! {

/// Error cases of the catalog's query operations: the queried character is
/// not known (to the roster, or to the catalog), or the character is known
/// but has no move under the queried identifier.
#[derive(Debug, Clone, Copy, PartialEq, Eq, Structural)]
pub enum SF6FrameDataError {
    UnknownCharacter,
    UnknownMove,
}

impl SF6FrameDataError {
    /// A short human-readable description of the error.
    pub fn message(&self) -> (r: &'static str)
        ensures
            *self is UnknownCharacter ==> r@ == "Unknown character"@,
            *self is UnknownMove ==> r@ == "Unknown move"@,
    {
        match self {
            SF6FrameDataError::UnknownCharacter => "Unknown character",
            SF6FrameDataError::UnknownMove => "Unknown move",
        }
    }
}

/// A data struct holding all info scraped by this library for a given Move.
///
/// Every statistic field is an opaque display string; a missing statistic
/// holds the placeholder "-", never an empty value.
#[derive(Debug, Clone)]
pub struct Move {
    /// A unique identifier for this move. Often an input. Distinguishes
    /// same-input variants, such as a charged version of a move.
    pub identifier: String,
    /// The input for this move. Possibly duplicated across variants.
    pub input: String,
    pub name: String,
    pub image_link: String,
    pub damage: String,
    pub chip_damage: String,
    pub damage_scaling: String,
    pub guard: String,
    pub cancel: String,
    pub hitconfirm_window: String,
    pub startup: String,
    pub active: String,
    pub recovery: String,
    pub total: String,
    pub hitstun: String,
    pub blockstun: String,
    pub drive_damage_block: String,
    pub drive_damage_hit: String,
    pub drive_gain: String,
    pub super_gain_hit: String,
    pub super_gain_block: String,
    pub projectile_speed: String,
    pub invuln: String,
    pub armor: String,
    pub airborne: String,
    pub juggle_start: String,
    pub juggle_increase: String,
    pub juggle_limit: String,
    pub perfect_parry_advantage: String,
    pub after_dr_hit: String,
    pub after_dr_block: String,
    pub dr_cancel_hit: String,
    pub dr_cancel_block: String,
    pub punish_advantage: String,
    pub hit_advantage: String,
    pub block_advantage: String,
    pub notes: String,
}

/// The number of fields of a [`Move`].
pub const MOVE_FIELD_COUNT: usize = 37;

/// The number of positional statistic fields of a [`Move`]: every field
/// after identifier, input, name and image link.
pub const STAT_FIELD_COUNT: usize = 33;

impl View for Move {
    type V = Seq<Seq<char>>;

    /// The fields of a move as one ordered table, the positional schema:
    /// identifier, input, name and image link first, then the statistic
    /// fields in the fixed order of the source tables.
    open spec fn view(&self) -> Seq<Seq<char>> {
        seq![
            self.identifier@,
            self.input@,
            self.name@,
            self.image_link@,
            self.damage@,
            self.chip_damage@,
            self.damage_scaling@,
            self.guard@,
            self.cancel@,
            self.hitconfirm_window@,
            self.startup@,
            self.active@,
            self.recovery@,
            self.total@,
            self.hitstun@,
            self.blockstun@,
            self.drive_damage_block@,
            self.drive_damage_hit@,
            self.drive_gain@,
            self.super_gain_hit@,
            self.super_gain_block@,
            self.projectile_speed@,
            self.invuln@,
            self.armor@,
            self.airborne@,
            self.juggle_start@,
            self.juggle_increase@,
            self.juggle_limit@,
            self.perfect_parry_advantage@,
            self.after_dr_hit@,
            self.after_dr_block@,
            self.dr_cancel_hit@,
            self.dr_cancel_block@,
            self.punish_advantage@,
            self.hit_advantage@,
            self.block_advantage@,
            self.notes@,
        ]
    }
}

/// Represents a character's frame data: the character and its moves, in
/// the order they appear on the character's page.
#[derive(Debug, Clone)]
pub struct CharacterFrameData {
    pub character_id: CharacterId,
    pub moves: Vec<Move>,
}

/// Contains data regarding frame data in this library: at most one entry
/// per distinct character.
#[derive(Debug)]
pub struct FrameData {
    /// A character's specific frame data.
    pub character_frame_data: Vec<CharacterFrameData>,
}

/// The code point of `c`, with an ASCII capital letter lowered.
pub open spec fn spec_lower_code(c: char) -> int {
    if 'A' <= c && c <= 'Z' {
        c as int + 32
    } else {
        c as int
    }
}

/// Whether two strings are equal up to ASCII case.
pub open spec fn spec_eq_ignore_ascii_case(a: Seq<char>, b: Seq<char>) -> bool {
    a.map_values(|c: char| spec_lower_code(c)) == b.map_values(|c: char| spec_lower_code(c))
}

/// Whether `a` and `b` hold the same characters up to ASCII case.
pub fn eq_ignore_ascii_case(a: &str, b: &str) -> (r: bool)
    ensures
        r == spec_eq_ignore_ascii_case(a@, b@),
{
    let ghost la = a@.map_values(|c: char| spec_lower_code(c));
    let ghost lb = b@.map_values(|c: char| spec_lower_code(c));
    let n = a.unicode_len();
    if n != b.unicode_len() {
        proof {
            assert(la.len() != lb.len());
        }
        return false;
    }
    let mut i: usize = 0;
    while i < n
        invariant
            n == a@.len(),
            n == b@.len(),
            i <= n,
            la == a@.map_values(|c: char| spec_lower_code(c)),
            lb == b@.map_values(|c: char| spec_lower_code(c)),
            forall|j: int| 0 <= j < i ==> la[j] == lb[j],
        decreases n - i,
    {
        let ca = a.get_char(i) as u32;
        let cb = b.get_char(i) as u32;
        let fa: u32 = if 65 <= ca && ca <= 90 {
            ca + 32
        } else {
            ca
        };
        let fb: u32 = if 65 <= cb && cb <= 90 {
            cb + 32
        } else {
            cb
        };
        if fa != fb {
            proof {
                assert(la[i as int] != lb[i as int]);
            }
            return false;
        }
        i = i + 1;
    }
    proof {
        assert(la =~= lb);
    }
    true
}

/// The first entry of `s` whose character has the machine key `key`.
pub open spec fn first_cfd_match(s: Seq<CharacterFrameData>, key: Seq<char>) -> Option<
    CharacterFrameData,
>
    decreases s.len(),
{
    if s.len() == 0 {
        None
    } else if s[0].character_id.id@ == key {
        Some(s[0])
    } else {
        first_cfd_match(s.drop_first(), key)
    }
}

/// The first move of `s` whose identifier matches `query` up to ASCII case.
pub open spec fn first_move_match(s: Seq<Move>, query: Seq<char>) -> Option<Move>
    decreases s.len(),
{
    if s.len() == 0 {
        None
    } else if spec_eq_ignore_ascii_case(s[0].identifier@, query) {
        Some(s[0])
    } else {
        first_move_match(s.drop_first(), query)
    }
}

impl FrameData {
    /// Returns a reference to a [`Move`] of a character by a
    /// `character_query` and `move_query`. This function matches
    /// `character_query` by each character's pattern, anchored and
    /// case-insensitive, and matches moves by their identifier, ignoring
    /// ASCII case.
    pub fn find_move(&self, character_query: &str, move_query: &str) -> (r: Result<
        &Move,
        SF6FrameDataError,
    >)
        ensures
            match crate::character::spec_get_character_by_regex(character_query@) {
                None => r == Err::<&Move, SF6FrameDataError>(SF6FrameDataError::UnknownCharacter),
                Some(c) => match first_cfd_match(self.character_frame_data@, c.id) {
                    None => r == Err::<&Move, SF6FrameDataError>(
                        SF6FrameDataError::UnknownCharacter,
                    ),
                    Some(cfd) => match first_move_match(cfd.moves@, move_query@) {
                        None => r == Err::<&Move, SF6FrameDataError>(
                            SF6FrameDataError::UnknownMove,
                        ),
                        Some(m) => r matches Ok(rm) && *rm == m,
                    },
                },
            },
    {
        let character_id_opt = crate::character::get_character_by_regex(character_query);
        let character = match character_id_opt {
            Some(c) => c,
            None => {
                return Err(SF6FrameDataError::UnknownCharacter);
            },
        };
        self.find_move_character(&character, move_query)
    }

    /// Returns a reference to a [`Move`] of a character by a
    /// [`CharacterId`] and `move_query`. This function matches moves by
    /// their identifier, ignoring ASCII case. A character that is in the
    /// roster but not in the catalog is unknown here.
    pub fn find_move_character(&self, character_id: &CharacterId, move_query: &str) -> (r: Result<
        &Move,
        SF6FrameDataError,
    >)
        ensures
            match first_cfd_match(self.character_frame_data@, character_id.id@) {
                None => r == Err::<&Move, SF6FrameDataError>(SF6FrameDataError::UnknownCharacter),
                Some(cfd) => match first_move_match(cfd.moves@, move_query@) {
                    None => r == Err::<&Move, SF6FrameDataError>(SF6FrameDataError::UnknownMove),
                    Some(m) => r matches Ok(rm) && *rm == m,
                },
            },
    {
        let ghost key = character_id.id@;
        let n = self.character_frame_data.len();
        let mut i: usize = 0;
        proof {
            assert(self.character_frame_data@.skip(0) =~= self.character_frame_data@);
        }
        while i < n
            invariant
                n == self.character_frame_data.len(),
                i <= n,
                key == character_id.id@,
                first_cfd_match(self.character_frame_data@, key) == first_cfd_match(
                    self.character_frame_data@.skip(i as int),
                    key,
                ),
                forall|j: int| 0 <= j < i ==> self.character_frame_data@[j].character_id.id@ != key,
            decreases n - i,
        {
            let cfd = &self.character_frame_data[i];
            if str_eq(cfd.character_id.id, character_id.id) {
                proof {
                    assert(self.character_frame_data@.skip(i as int)[0]
                        == self.character_frame_data@[i as int]);
                }
                return self.find_move_in(cfd, move_query);
            }
            proof {
                assert(self.character_frame_data@.skip(i as int).drop_first()
                    =~= self.character_frame_data@.skip(i as int + 1));
            }
            i = i + 1;
        }
        proof {
            assert(self.character_frame_data@.skip(n as int)
                =~= Seq::<CharacterFrameData>::empty());
        }
        Err(SF6FrameDataError::UnknownCharacter)
    }

    /// Finds the first move of `cfd` whose identifier matches `move_query`
    /// up to ASCII case.
    fn find_move_in<'a>(&self, cfd: &'a CharacterFrameData, move_query: &str) -> (r: Result<
        &'a Move,
        SF6FrameDataError,
    >)
        ensures
            match first_move_match(cfd.moves@, move_query@) {
                None => r == Err::<&'a Move, SF6FrameDataError>(SF6FrameDataError::UnknownMove),
                Some(m) => r matches Ok(rm) && *rm == m,
            },
    {
        let n = cfd.moves.len();
        let mut i: usize = 0;
        proof {
            assert(cfd.moves@.skip(0) =~= cfd.moves@);
        }
        while i < n
            invariant
                n == cfd.moves.len(),
                i <= n,
                first_move_match(cfd.moves@, move_query@) == first_move_match(
                    cfd.moves@.skip(i as int),
                    move_query@,
                ),
            decreases n - i,
        {
            let m = &cfd.moves[i];
            if eq_ignore_ascii_case(m.identifier.as_str(), move_query) {
                proof {
                    assert(cfd.moves@.skip(i as int)[0] == cfd.moves@[i as int]);
                }
                return Ok(m);
            }
            proof {
                assert(cfd.moves@.skip(i as int).drop_first() =~= cfd.moves@.skip(i as int + 1));
            }
            i = i + 1;
        }
        proof {
            assert(cfd.moves@.skip(n as int) =~= Seq::<Move>::empty());
        }
        Err(SF6FrameDataError::UnknownMove)
    }

    /// Collects per-character load results into a catalog: successful loads
    /// are kept in the order given, failed ones are skipped.
    pub fn from_loads(loads: Vec<Option<CharacterFrameData>>) -> (r: FrameData)
        ensures
            r.character_frame_data@ == spec_collected(loads@),
    {
        let ghost all = loads@;
        let mut loads = loads;
        let mut collected: Vec<CharacterFrameData> = Vec::new();
        proof {
            assert(all.skip(0) =~= all);
        }
        while loads.len() > 0
            invariant
                collected@ + spec_collected(loads@) == spec_collected(all),
            decreases loads.len(),
        {
            let ghost pre = loads@;
            let head = loads.remove(0);
            proof {
                assert(loads@ =~= pre.drop_first());
            }
            match head {
                Some(cfd) => {
                    collected.push(cfd);
                },
                None => {},
            }
            proof {
                assert(collected@ + spec_collected(loads@) =~= spec_collected(all));
            }
        }
        proof {
            assert(collected@ =~= spec_collected(all));
        }
        FrameData { character_frame_data: collected }
    }
}

/// The successful entries of `loads`, in order.
pub open spec fn spec_collected(loads: Seq<Option<CharacterFrameData>>) -> Seq<CharacterFrameData>
    decreases loads.len(),
{
    if loads.len() == 0 {
        Seq::empty()
    } else {
        match loads[0] {
            Some(c) => seq![c] + spec_collected(loads.drop_first()),
            None => spec_collected(loads.drop_first()),
        }
    }
}

/// Law: move lookup ignores ASCII case: queries equal up to ASCII case
/// find the same move.
pub proof fn lemma_find_move_case_insensitive(moves: Seq<Move>, q1: Seq<char>, q2: Seq<char>)
    requires
        spec_eq_ignore_ascii_case(q1, q2),
    ensures
        first_move_match(moves, q1) == first_move_match(moves, q2),
    decreases moves.len(),
{
    if moves.len() == 0 {
    } else {
        assert(spec_eq_ignore_ascii_case(moves[0].identifier@, q1) == spec_eq_ignore_ascii_case(
            moves[0].identifier@,
            q2,
        ));
        lemma_find_move_case_insensitive(moves.drop_first(), q1, q2);
    }
}

/// A catalog collected from successes alone keeps every load.
proof fn lemma_collected_all_some(loads: Seq<Option<CharacterFrameData>>)
    requires
        forall|k: int| 0 <= k < loads.len() ==> loads[k] is Some,
    ensures
        spec_collected(loads).len() == loads.len(),
    decreases loads.len(),
{
    if loads.len() == 0 {
    } else {
        lemma_collected_all_some(loads.drop_first());
    }
}

/// Law: of load results with exactly one failure, the catalog keeps all
/// but that one; the failure does not disturb the rest.
pub proof fn lemma_collected_one_failure(loads: Seq<Option<CharacterFrameData>>, j: int)
    requires
        0 <= j < loads.len(),
        loads[j] is None,
        forall|k: int| 0 <= k < loads.len() && k != j ==> loads[k] is Some,
    ensures
        spec_collected(loads).len() == loads.len() - 1,
    decreases loads.len(),
{
    if j == 0 {
        lemma_collected_all_some(loads.drop_first());
    } else {
        lemma_collected_one_failure(loads.drop_first(), j - 1);
    }
}

} // verus!
