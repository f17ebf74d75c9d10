//! The fixed character roster: identities, matching patterns, page
//! URLs, and the two roster lookups.

use vstd::prelude::*;
use vstd::string::StringExecFns;

use crate::pattern::{regex_is_match, regex_match};

verus! {

/// A character this library supports. Unique by `id`.
#[derive(Clone, Copy, Debug)]
pub struct CharacterId {
    /// The short machine key; equality of characters is equality of this key.
    pub id: &'static str,
    /// The URL-path segment of the character's frame-data page.
    pub frame_data_id: &'static str,
    /// The URL-path segment of the character's move-gif page.
    pub gif_data_id: &'static str,
    /// The fuzzy-matching pattern for free-text lookup, as written in the
    /// roster; lookups anchor it at both ends and ignore case.
    pub pattern: &'static str,
}

/// The abstract value of a [`CharacterId`]: its four strings.
pub ghost struct CharacterIdView {
    pub id: Seq<char>,
    pub frame_data_id: Seq<char>,
    pub gif_data_id: Seq<char>,
    pub pattern: Seq<char>,
}

impl View for CharacterId {
    type V = CharacterIdView;

    open spec fn view(&self) -> CharacterIdView {
        CharacterIdView {
            id: self.id@,
            frame_data_id: self.frame_data_id@,
            gif_data_id: self.gif_data_id@,
            pattern: self.pattern@,
        }
    }
}

impl DeepView for CharacterId {
    type V = CharacterIdView;

    open spec fn deep_view(&self) -> CharacterIdView {
        self.view()
    }
}

/// The fixed roster of supported characters, in roster order.
pub open spec fn spec_roster() -> Seq<CharacterIdView> {
    seq![
        roster_entry("ryu", "Ryu", "ryu", "ryu"),
        roster_entry("luke", "Luke", "luke", "luke"),
        roster_entry("jamie", "Jamie", "jamie", "jamie"),
        roster_entry("chunli", "Chun-Li", "chunli", "chun(-?li)?"),
        roster_entry("guile", "Guile", "guile", "guile"),
        roster_entry("kimberly", "Kimberly", "kimberly", "kim(berly)?"),
        roster_entry("juri", "Juri", "juri", "juri"),
        roster_entry("ken", "Ken", "ken", "ken"),
        roster_entry("blanka", "Blanka", "blanka", "blanka"),
        roster_entry("dhalsim", "Dhalsim", "dhalsim", "(dh?al)?sim"),
        roster_entry("ehonda", "E.Honda", "ehonda", "e?honda"),
        roster_entry("deejay", "Dee_Jay", "deejay", "d(ee)?j(ay)?"),
        roster_entry("manon", "Manon", "manon", "manon"),
        roster_entry("marisa", "Marisa", "marisa", "marisa"),
        roster_entry("jp", "JP", "jp", "jp"),
        roster_entry("zangief", "Zangief", "zangief", "(zan)?gief"),
        roster_entry("lily", "Lily", "lily", "lily"),
        roster_entry("cammy", "Cammy", "cammy", "cammy"),
        roster_entry("rashid", "Rashid", "rashid", "rashid"),
        roster_entry("aki", "A.K.I.", "aki", "a\\.?k\\.?i\\.?"),
        roster_entry("ed", "Ed", "ed", "ed"),
        roster_entry("akuma", "Akuma", "akuma", "akuma|gouki"),
        roster_entry("mbison", "M.Bison", "mbison", "bison"),
    ]
}

/// One roster line, as an abstract value.
pub open spec fn roster_entry(
    id: &'static str,
    frame_data_id: &'static str,
    gif_data_id: &'static str,
    pattern: &'static str,
) -> CharacterIdView {
    CharacterIdView { id: id@, frame_data_id: frame_data_id@, gif_data_id: gif_data_id@, pattern: pattern@ }
}

impl CharacterId {
    /// Creates one roster entry.
    pub fn new(
        id: &'static str,
        frame_data_id: &'static str,
        gif_data_id: &'static str,
        pattern: &'static str,
    ) -> (r: CharacterId)
        ensures
            r@ == roster_entry(id, frame_data_id, gif_data_id, pattern),
    {
        CharacterId { id, frame_data_id, gif_data_id, pattern }
    }
}

/// All the currently supported characters, in roster order.
pub fn characters() -> (r: Vec<CharacterId>)
    ensures
        r.deep_view() == spec_roster(),
{
    let v: Vec<CharacterId> = vec![
        CharacterId::new("ryu", "Ryu", "ryu", "ryu"),
        CharacterId::new("luke", "Luke", "luke", "luke"),
        CharacterId::new("jamie", "Jamie", "jamie", "jamie"),
        CharacterId::new("chunli", "Chun-Li", "chunli", "chun(-?li)?"),
        CharacterId::new("guile", "Guile", "guile", "guile"),
        CharacterId::new("kimberly", "Kimberly", "kimberly", "kim(berly)?"),
        CharacterId::new("juri", "Juri", "juri", "juri"),
        CharacterId::new("ken", "Ken", "ken", "ken"),
        CharacterId::new("blanka", "Blanka", "blanka", "blanka"),
        CharacterId::new("dhalsim", "Dhalsim", "dhalsim", "(dh?al)?sim"),
        CharacterId::new("ehonda", "E.Honda", "ehonda", "e?honda"),
        CharacterId::new("deejay", "Dee_Jay", "deejay", "d(ee)?j(ay)?"),
        CharacterId::new("manon", "Manon", "manon", "manon"),
        CharacterId::new("marisa", "Marisa", "marisa", "marisa"),
        CharacterId::new("jp", "JP", "jp", "jp"),
        CharacterId::new("zangief", "Zangief", "zangief", "(zan)?gief"),
        CharacterId::new("lily", "Lily", "lily", "lily"),
        CharacterId::new("cammy", "Cammy", "cammy", "cammy"),
        CharacterId::new("rashid", "Rashid", "rashid", "rashid"),
        CharacterId::new("aki", "A.K.I.", "aki", "a\\.?k\\.?i\\.?"),
        CharacterId::new("ed", "Ed", "ed", "ed"),
        CharacterId::new("akuma", "Akuma", "akuma", "akuma|gouki"),
        CharacterId::new("mbison", "M.Bison", "mbison", "bison"),
    ];
    proof {
        assert(v.deep_view() =~= spec_roster());
    }
    v
}

/// Whether two strings hold the same characters.
pub(crate) fn str_eq(a: &str, b: &str) -> (r: bool)
    ensures
        r == (a@ == b@),
{
    let sa: String = a.to_owned();
    let sb: String = b.to_owned();
    sa == sb
}

/// The first entry of `s` whose machine key is `key`.
pub open spec fn first_id_match(s: Seq<CharacterIdView>, key: Seq<char>) -> Option<CharacterIdView>
    decreases s.len(),
{
    if s.len() == 0 {
        None
    } else if s[0].id == key {
        Some(s[0])
    } else {
        first_id_match(s.drop_first(), key)
    }
}

/// What looking a character up by exact machine key returns.
pub open spec fn spec_get_character_by_id(key: Seq<char>) -> Option<CharacterIdView> {
    first_id_match(spec_roster(), key)
}

/// Finds a character by matching against their id. Case sensitive.
pub fn get_character_by_id(input: &str) -> (r: Option<CharacterId>)
    ensures
        r.deep_view() == spec_get_character_by_id(input@),
{
    let cs = characters();
    let n = cs.len();
    let mut i: usize = 0;
    proof {
        assert(spec_roster().skip(0) =~= spec_roster());
    }
    while i < n
        invariant
            n == cs.len(),
            cs.deep_view() == spec_roster(),
            i <= n,
            spec_get_character_by_id(input@) == first_id_match(spec_roster().skip(i as int), input@),
        decreases n - i,
    {
        if str_eq(cs[i].id, input) {
            proof {
                assert(spec_roster().skip(i as int)[0] == spec_roster()[i as int]);
            }
            return Some(cs[i]);
        }
        proof {
            assert(spec_roster().skip(i as int).drop_first() =~= spec_roster().skip(i as int + 1));
        }
        i = i + 1;
    }
    proof {
        assert(spec_roster().skip(n as int) =~= Seq::<CharacterIdView>::empty());
    }
    None
}

/// The pattern `p` anchored at both ends, matching case-insensitively.
pub open spec fn spec_anchored_ci(p: Seq<char>) -> Seq<char> {
    "(?i)^"@ + p + "$"@
}

/// Whether the roster pattern `p`, anchored and case-insensitive, matches
/// the whole of `text`.
pub open spec fn spec_pattern_matches(p: Seq<char>, text: Seq<char>) -> bool {
    regex_match(spec_anchored_ci(p), text)
}

impl CharacterId {
    /// Whether this character's roster pattern fully matches `text`,
    /// ignoring case.
    pub fn pattern_matches(&self, text: &str) -> (r: bool)
        ensures
            r == spec_pattern_matches(self.pattern@, text@),
    {
        let anchored: String = String::from_str("(?i)^").concat(self.pattern).concat("$");
        regex_is_match(anchored.as_str(), text)
    }
}

/// The first entry of `s` whose anchored, case-insensitive pattern matches
/// the whole of `text`.
pub open spec fn first_pattern_match(s: Seq<CharacterIdView>, text: Seq<char>) -> Option<
    CharacterIdView,
>
    decreases s.len(),
{
    if s.len() == 0 {
        None
    } else if spec_pattern_matches(s[0].pattern, text) {
        Some(s[0])
    } else {
        first_pattern_match(s.drop_first(), text)
    }
}

/// What looking a character up by fuzzy pattern returns.
pub open spec fn spec_get_character_by_regex(text: Seq<char>) -> Option<CharacterIdView> {
    first_pattern_match(spec_roster(), text)
}

/// Finds a character by matching against their pattern, anchored at both
/// ends and ignoring case.
pub fn get_character_by_regex(input: &str) -> (r: Option<CharacterId>)
    ensures
        r.deep_view() == spec_get_character_by_regex(input@),
{
    let cs = characters();
    let n = cs.len();
    let mut i: usize = 0;
    proof {
        assert(spec_roster().skip(0) =~= spec_roster());
    }
    while i < n
        invariant
            n == cs.len(),
            cs.deep_view() == spec_roster(),
            i <= n,
            spec_get_character_by_regex(input@) == first_pattern_match(
                spec_roster().skip(i as int),
                input@,
            ),
        decreases n - i,
    {
        if cs[i].pattern_matches(input) {
            proof {
                assert(spec_roster().skip(i as int)[0] == spec_roster()[i as int]);
            }
            return Some(cs[i]);
        }
        proof {
            assert(spec_roster().skip(i as int).drop_first() =~= spec_roster().skip(i as int + 1));
        }
        i = i + 1;
    }
    proof {
        assert(spec_roster().skip(n as int) =~= Seq::<CharacterIdView>::empty());
    }
    None
}

/// What `frame_data_url` returns for a character.
pub open spec fn spec_frame_data_url(c: CharacterIdView) -> Seq<char> {
    "https://wiki.supercombo.gg/w/Street_Fighter_6/"@ + c.frame_data_id + "/Data"@
}

/// What `gif_data_url` returns for a character.
pub open spec fn spec_gif_data_url(c: CharacterIdView) -> Seq<char> {
    "https://ultimateframedata.com/sf6/"@ + c.gif_data_id
}

impl CharacterId {
    /// Returns the url this library scrapes the data for each character.
    pub fn frame_data_url(&self) -> (r: String)
        ensures
            r@ == spec_frame_data_url(self@),
    {
        String::from_str("https://wiki.supercombo.gg/w/Street_Fighter_6/").concat(
            self.frame_data_id,
        ).concat("/Data")
    }

    /// Returns the url this library scrapes the data for each character's
    /// move gifs.
    pub fn gif_data_url(&self) -> (r: String)
        ensures
            r@ == spec_gif_data_url(self@),
    {
        String::from_str("https://ultimateframedata.com/sf6/").concat(self.gif_data_id)
    }
}

impl PartialEq for CharacterId {
    /// Characters are equal when their machine keys are.
    fn eq(&self, other: &CharacterId) -> (r: bool) {
        str_eq(self.id, other.id)
    }
}

impl vstd::std_specs::cmp::PartialEqSpecImpl for CharacterId {
    open spec fn obeys_eq_spec() -> bool {
        true
    }

    open spec fn eq_spec(&self, other: &CharacterId) -> bool {
        self.id@ == other.id@
    }
}

impl Eq for CharacterId {

}

/// Law: looking a roster entry up by its own machine key finds a character
/// with that key (equality of characters is key equality).
pub proof fn lemma_lookup_by_id_roundtrip(i: int)
    requires
        0 <= i < spec_roster().len(),
    ensures
        spec_get_character_by_id(spec_roster()[i].id) matches Some(c) && c.id == spec_roster()[
            i
        ].id,
{
    lemma_first_id_match_found(spec_roster(), spec_roster()[i].id, i);
}

/// Where some entry of `s` has the key, the first match exists and has it.
proof fn lemma_first_id_match_found(s: Seq<CharacterIdView>, key: Seq<char>, j: int)
    requires
        0 <= j < s.len(),
        s[j].id == key,
    ensures
        first_id_match(s, key) matches Some(c) && c.id == key,
    decreases s.len(),
{
    if s[0].id == key {
    } else {
        lemma_first_id_match_found(s.drop_first(), key, j - 1);
    }
}

} // verus!
