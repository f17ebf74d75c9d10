//! The scrape-and-normalize pipeline: selecting aligned move blocks
//! out of a page, and parsing each block into a move record with
//! resilient defaulting.

use vstd::prelude::*;
use vstd::string::StringExecFns;

use crate::character::CharacterId;
use crate::dom::{doc_selected, select_in_document};
use crate::framedata::{CharacterFrameData, Move, MOVE_FIELD_COUNT, STAT_FIELD_COUNT};
use crate::pattern::{regex_capture_first, regex_captured};

verus! {

/// Selects the move-name anchors: a nested span inside a collapsible
/// section header.
pub open spec fn move_identifier_selector() -> Seq<char> {
    "div > div > section.section-collapsible > h5 > span"@
}

/// Selects the move-data tables: the wikitable immediately following a
/// collapsible section header.
pub open spec fn move_block_selector() -> Seq<char> {
    "div > div > section.section-collapsible > h5 + table.wikitable"@
}

/// Selects the input-notation cells inside a move's table.
pub open spec fn input_selector() -> Seq<char> {
    "tr > th > div > p > span"@
}

/// Selects the title cells inside a move's table.
pub open spec fn name_selector() -> Seq<char> {
    "tr > th > div > div"@
}

/// Selects the candidate image anchors in a move table's header region.
pub open spec fn hitbox_image_selector() -> Seq<char> {
    "tr > th > a"@
}

/// Selects the data cells of a move's table.
pub open spec fn data_cell_selector() -> Seq<char> {
    "tr > td"@
}

/// Selects the element children of a markup fragment's synthesized body.
pub open spec fn child_selector() -> Seq<char> {
    "body > *"@
}

/// Captures the double-resolution image path out of an anchor's markup.
pub open spec fn hitbox_image_pattern() -> Seq<char> {
    "(/images/thumb\\S+) 2x"@
}

/// The origin prefixed to an extracted relative image path.
pub open spec fn image_origin() -> Seq<char> {
    "https://wiki.supercombo.gg/"@
}

/// The placeholder image used when no candidate anchor matches.
pub open spec fn default_image() -> Seq<char> {
    "https://wiki.supercombo.gg/images/thumb/4/42/SF6_Logo.png/300px-SF6_Logo.png"@
}

/// The bound on how deep `leaf_inner` descends through wrapper elements.
pub const LEAF_FUEL: u64 = 64;

/// The selected entries whose inner markup is not empty, in order.
pub open spec fn spec_kept(items: Seq<(Seq<char>, Seq<char>)>) -> Seq<(Seq<char>, Seq<char>)>
    decreases items.len(),
{
    if items.len() == 0 {
        Seq::empty()
    } else {
        let rest = spec_kept(items.drop_last());
        if items.last().0.len() > 0 {
            rest.push(items.last())
        } else {
            rest
        }
    }
}

/// The inner markup of each move-name anchor of `doc` with nonempty
/// content, in order.
pub open spec fn spec_move_identifiers(doc: Seq<char>) -> Seq<Seq<char>> {
    spec_kept(doc_selected(doc, move_identifier_selector())).map_values(
        |p: (Seq<char>, Seq<char>)| p.0,
    )
}

/// The outer markup of each move-data table of `doc` with nonempty
/// content, in order.
pub open spec fn spec_move_blocks(doc: Seq<char>) -> Seq<Seq<char>> {
    spec_kept(doc_selected(doc, move_block_selector())).map_values(
        |p: (Seq<char>, Seq<char>)| p.1,
    )
}

/// Selects the move-name anchors of a page and keeps the inner markup of
/// those with nonempty content.
pub fn select_move_identifiers(html: &str) -> (r: Vec<String>)
    ensures
        r.deep_view() == spec_move_identifiers(html@),
{
    let found = select_in_document(html, "div > div > section.section-collapsible > h5 > span");
    let r = keep_nonempty_inner(found);
    proof {
        assert(r.deep_view() =~= spec_move_identifiers(html@));
    }
    r
}

/// Selects the move-data tables of a page and keeps the outer markup of
/// those with nonempty content.
pub fn select_move_blocks(html: &str) -> (r: Vec<String>)
    ensures
        r.deep_view() == spec_move_blocks(html@),
{
    let found = select_in_document(
        html,
        "div > div > section.section-collapsible > h5 + table.wikitable",
    );
    let r = keep_nonempty_outer(found);
    proof {
        assert(r.deep_view() =~= spec_move_blocks(html@));
    }
    r
}

/// Keeps the inner markup of the entries with nonempty inner markup.
fn keep_nonempty_inner(found: Vec<(String, String)>) -> (r: Vec<String>)
    ensures
        r.deep_view() == spec_kept(found.deep_view()).map_values(
            |p: (Seq<char>, Seq<char>)| p.0,
        ),
{
    let mut out: Vec<String> = Vec::new();
    let n = found.len();
    let mut i: usize = 0;
    proof {
        assert(found.deep_view().take(0) =~= Seq::<(Seq<char>, Seq<char>)>::empty());
        assert(out.deep_view() =~= spec_kept(found.deep_view().take(0)).map_values(
            |p: (Seq<char>, Seq<char>)| p.0,
        ));
    }
    while i < n
        invariant
            n == found.len(),
            i <= n,
            out.deep_view() == spec_kept(found.deep_view().take(i as int)).map_values(
                |p: (Seq<char>, Seq<char>)| p.0,
            ),
        decreases n - i,
    {
        let ghost pre_out = out.deep_view();
        let ghost fv = found.deep_view();
        proof {
            assert(fv.take(i as int + 1).drop_last() =~= fv.take(i as int));
            assert(fv.take(i as int + 1).last() == fv[i as int]);
            assert(fv[i as int].0 == found@[i as int].0@);
        }
        if !found[i].0.as_str().is_empty() {
            out.push(found[i].0.clone());
            proof {
                assert(out.deep_view() =~= pre_out.push(fv[i as int].0));
                assert(spec_kept(fv.take(i as int + 1)) == spec_kept(fv.take(i as int)).push(
                    fv[i as int],
                ));
                assert(out.deep_view() =~= spec_kept(fv.take(i as int + 1)).map_values(
                    |p: (Seq<char>, Seq<char>)| p.0,
                ));
            }
        } else {
            proof {
                assert(spec_kept(fv.take(i as int + 1)) == spec_kept(fv.take(i as int)));
            }
        }
        i = i + 1;
    }
    proof {
        assert(found.deep_view().take(n as int) =~= found.deep_view());
    }
    out
}

/// Keeps the outer markup of the entries with nonempty inner markup.
fn keep_nonempty_outer(found: Vec<(String, String)>) -> (r: Vec<String>)
    ensures
        r.deep_view() == spec_kept(found.deep_view()).map_values(
            |p: (Seq<char>, Seq<char>)| p.1,
        ),
{
    let mut out: Vec<String> = Vec::new();
    let n = found.len();
    let mut i: usize = 0;
    proof {
        assert(found.deep_view().take(0) =~= Seq::<(Seq<char>, Seq<char>)>::empty());
        assert(out.deep_view() =~= spec_kept(found.deep_view().take(0)).map_values(
            |p: (Seq<char>, Seq<char>)| p.1,
        ));
    }
    while i < n
        invariant
            n == found.len(),
            i <= n,
            out.deep_view() == spec_kept(found.deep_view().take(i as int)).map_values(
                |p: (Seq<char>, Seq<char>)| p.1,
            ),
        decreases n - i,
    {
        let ghost pre_out = out.deep_view();
        let ghost fv = found.deep_view();
        proof {
            assert(fv.take(i as int + 1).drop_last() =~= fv.take(i as int));
            assert(fv.take(i as int + 1).last() == fv[i as int]);
            assert(fv[i as int].0 == found@[i as int].0@);
            assert(fv[i as int].1 == found@[i as int].1@);
        }
        if !found[i].0.as_str().is_empty() {
            out.push(found[i].1.clone());
            proof {
                assert(out.deep_view() =~= pre_out.push(fv[i as int].1));
                assert(spec_kept(fv.take(i as int + 1)) == spec_kept(fv.take(i as int)).push(
                    fv[i as int],
                ));
                assert(out.deep_view() =~= spec_kept(fv.take(i as int + 1)).map_values(
                    |p: (Seq<char>, Seq<char>)| p.1,
                ));
            }
        } else {
            proof {
                assert(spec_kept(fv.take(i as int + 1)) == spec_kept(fv.take(i as int)));
            }
        }
        i = i + 1;
    }
    proof {
        assert(found.deep_view().take(n as int) =~= found.deep_view());
    }
    out
}

/// The inner markup of the innermost element reached from a fragment with
/// the given inner markup by following first element children, giving up
/// after `fuel` steps.
pub open spec fn spec_leaf_inner(inner: Seq<char>, fuel: nat) -> Seq<char>
    decreases fuel,
{
    let children = doc_selected(inner, child_selector());
    if fuel == 0 || children.len() == 0 {
        inner
    } else {
        spec_leaf_inner(children[0].0, (fuel - 1) as nat)
    }
}

/// Descends from a cell's inner markup through first element children to
/// the innermost wrapper, and returns that leaf's inner markup. Descent is
/// bounded as a defence against pathological nesting.
fn leaf_inner(cell_inner: &str) -> (r: String)
    ensures
        r@ == spec_leaf_inner(cell_inner@, LEAF_FUEL as nat),
{
    let mut cur: String = cell_inner.to_owned();
    let mut fuel: u64 = LEAF_FUEL;
    while fuel > 0
        invariant
            spec_leaf_inner(cur@, fuel as nat) == spec_leaf_inner(cell_inner@, LEAF_FUEL as nat),
        decreases fuel,
    {
        let children = select_in_document(cur.as_str(), "body > *");
        if children.is_empty() {
            proof {
                assert(children.deep_view().len() == 0);
                assert(doc_selected(cur@, child_selector()).len() == 0);
                assert(spec_leaf_inner(cur@, fuel as nat) == cur@);
            }
            return cur;
        }
        proof {
            assert(children.deep_view()[0] == doc_selected(cur@, child_selector())[0]);
        }
        cur = children[0].0.clone();
        fuel = fuel - 1;
    }
    cur
}

/// What the hitbox-image extraction returns for one candidate anchor's
/// outer markup: the captured path made absolute, if the pattern matches.
pub open spec fn spec_hitbox_match(outer: Seq<char>) -> Option<Seq<char>> {
    match regex_captured(hitbox_image_pattern(), outer) {
        Some(p) => Some(image_origin() + p),
        None => None,
    }
}

/// Applies the hitbox-image pattern to one candidate anchor's markup and
/// resolves the captured path against the source site's origin.
pub fn hitbox_image_matcher(element: String) -> (r: Option<String>)
    ensures
        r.deep_view() == spec_hitbox_match(element@),
{
    match regex_capture_first("(/images/thumb\\S+) 2x", element.as_str()) {
        Some(path) => Some(String::from_str("https://wiki.supercombo.gg/").concat(path.as_str())),
        None => None,
    }
}

/// The image link of a move block: of the first two candidate anchors the
/// second match is preferred over the first, and the default placeholder
/// stands in when neither matches.
pub open spec fn spec_image_link(block: Seq<char>) -> Seq<char> {
    let anchors = doc_selected(block, hitbox_image_selector());
    let image = if anchors.len() >= 1 {
        spec_hitbox_match(anchors[0].1)
    } else {
        Option::<Seq<char>>::None
    };
    let hitbox = if anchors.len() >= 2 {
        spec_hitbox_match(anchors[1].1)
    } else {
        Option::<Seq<char>>::None
    };
    if hitbox is Some {
        hitbox->Some_0
    } else if image is Some {
        image->Some_0
    } else {
        default_image()
    }
}

/// Picks a move's image link from the block's candidate anchors.
fn image_link(block: &str) -> (r: String)
    ensures
        r@ == spec_image_link(block@),
{
    let anchors = select_in_document(block, "tr > th > a");
    let image = if anchors.len() >= 1 {
        hitbox_image_matcher(anchors[0].1.clone())
    } else {
        None
    };
    let hitbox = if anchors.len() >= 2 {
        hitbox_image_matcher(anchors[1].1.clone())
    } else {
        None
    };
    match hitbox {
        Some(u) => u,
        None => match image {
            Some(u) => u,
            None => String::from_str(
                "https://wiki.supercombo.gg/images/thumb/4/42/SF6_Logo.png/300px-SF6_Logo.png",
            ),
        },
    }
}

/// The value of statistic position `i` given the block's data cells: the
/// unwrapped cell at that position, or the placeholder past the end.
pub open spec fn spec_stat_of(cells: Seq<(Seq<char>, Seq<char>)>, i: int) -> Seq<char> {
    if 0 <= i < cells.len() {
        spec_leaf_inner(cells[i].0, LEAF_FUEL as nat)
    } else {
        "-"@
    }
}

/// The statistic value at position `i`: the unwrapped data cell there, or
/// the placeholder when the table has no cell at that position.
fn stat_cell(cells: &Vec<(String, String)>, i: usize) -> (r: String)
    ensures
        r@ == spec_stat_of(cells.deep_view(), i as int),
{
    if i < cells.len() {
        leaf_inner(cells[i].0.as_str())
    } else {
        String::from_str("-")
    }
}

/// What parsing one (name anchor, data table) pair yields: nothing when the
/// table misses its input cell or its name cell, else the move's fields in
/// positional order.
pub open spec fn spec_parse_move(identifier: Seq<char>, block: Seq<char>) -> Option<
    Seq<Seq<char>>,
> {
    let inputs = doc_selected(block, input_selector());
    let names = doc_selected(block, name_selector());
    if inputs.len() == 0 || names.len() == 0 {
        None
    } else {
        Some(
            seq![identifier, inputs[0].0, names[0].0, spec_image_link(block)] + Seq::new(
                STAT_FIELD_COUNT as nat,
                |i: int| spec_stat_of(doc_selected(block, data_cell_selector()), i),
            ),
        )
    }
}

/// Parses one move block: `identifier` is the name anchor's inner markup,
/// `block` the data table's outer markup. A block without an input cell or
/// without a name cell yields nothing; every statistic position past the
/// available cells holds the placeholder. The cell-to-field mapping is
/// strictly one cell per position, in the order of [`Move`]'s view: the
/// one canonical mapping, with no skipping anywhere.
pub fn parse_move(identifier: String, block: String) -> (r: Option<Move>)
    ensures
        r is Some <==> spec_parse_move(identifier@, block@) is Some,
        r matches Some(m) ==> Some(m@) == spec_parse_move(identifier@, block@),
{
    let ghost ident_view = identifier@;
    let ghost block_view = block@;
    let inputs = select_in_document(block.as_str(), "tr > th > div > p > span");
    if inputs.is_empty() {
        return None;
    }
    let names = select_in_document(block.as_str(), "tr > th > div > div");
    if names.is_empty() {
        return None;
    }
    let input = inputs[0].0.clone();
    let name = names[0].0.clone();
    let image_link = image_link(block.as_str());
    let cells = select_in_document(block.as_str(), "tr > td");
    let m = Move {
        identifier,
        input,
        name,
        image_link,
        damage: stat_cell(&cells, 0),
        chip_damage: stat_cell(&cells, 1),
        damage_scaling: stat_cell(&cells, 2),
        guard: stat_cell(&cells, 3),
        cancel: stat_cell(&cells, 4),
        hitconfirm_window: stat_cell(&cells, 5),
        startup: stat_cell(&cells, 6),
        active: stat_cell(&cells, 7),
        recovery: stat_cell(&cells, 8),
        total: stat_cell(&cells, 9),
        hitstun: stat_cell(&cells, 10),
        blockstun: stat_cell(&cells, 11),
        drive_damage_block: stat_cell(&cells, 12),
        drive_damage_hit: stat_cell(&cells, 13),
        drive_gain: stat_cell(&cells, 14),
        super_gain_hit: stat_cell(&cells, 15),
        super_gain_block: stat_cell(&cells, 16),
        projectile_speed: stat_cell(&cells, 17),
        invuln: stat_cell(&cells, 18),
        armor: stat_cell(&cells, 19),
        airborne: stat_cell(&cells, 20),
        juggle_start: stat_cell(&cells, 21),
        juggle_increase: stat_cell(&cells, 22),
        juggle_limit: stat_cell(&cells, 23),
        perfect_parry_advantage: stat_cell(&cells, 24),
        after_dr_hit: stat_cell(&cells, 25),
        after_dr_block: stat_cell(&cells, 26),
        dr_cancel_hit: stat_cell(&cells, 27),
        dr_cancel_block: stat_cell(&cells, 28),
        punish_advantage: stat_cell(&cells, 29),
        hit_advantage: stat_cell(&cells, 30),
        block_advantage: stat_cell(&cells, 31),
        notes: stat_cell(&cells, 32),
    };
    proof {
        assert(m@ =~= spec_parse_move(ident_view, block_view)->Some_0);
    }
    Some(m)
}

/// The moves parsed out of the aligned identifier and block sequences,
/// paired by position, dropping pairs that yield nothing.
pub open spec fn spec_parsed_moves(ids: Seq<Seq<char>>, blocks: Seq<Seq<char>>) -> Seq<
    Seq<Seq<char>>,
>
    decreases ids.len(),
{
    if ids.len() == 0 || blocks.len() == 0 {
        Seq::empty()
    } else {
        let rest = spec_parsed_moves(ids.drop_first(), blocks.drop_first());
        match spec_parse_move(ids[0], blocks[0]) {
            Some(m) => seq![m] + rest,
            None => rest,
        }
    }
}

/// What loading a character's page markup yields: the moves of the aligned
/// (name anchor, data table) pairs, in document order.
pub open spec fn spec_load_from_markup(doc: Seq<char>) -> Seq<Seq<Seq<char>>> {
    spec_parsed_moves(spec_move_identifiers(doc), spec_move_blocks(doc))
}

/// Loads one character's frame data out of its page markup: selects the
/// aligned move blocks and parses each, dropping malformed ones.
pub fn load_from_markup(character_id: &CharacterId, html: &str) -> (r: CharacterFrameData)
    ensures
        r.character_id@ == character_id@,
        r.moves@.map_values(|m: Move| m@) == spec_load_from_markup(html@),
{
    let ids = select_move_identifiers(html);
    let blocks = select_move_blocks(html);
    let ghost ids_v = ids.deep_view();
    let ghost blocks_v = blocks.deep_view();
    let n = if ids.len() < blocks.len() {
        ids.len()
    } else {
        blocks.len()
    };
    let mut moves: Vec<Move> = Vec::new();
    let mut i: usize = 0;
    proof {
        assert(ids_v.skip(0) =~= ids_v);
        assert(blocks_v.skip(0) =~= blocks_v);
        assert(moves@.map_values(|m: Move| m@) =~= Seq::<Seq<Seq<char>>>::empty());
    }
    while i < n
        invariant
            n <= ids.len(),
            n <= blocks.len(),
            i <= n,
            n == ids.len() || n == blocks.len(),
            ids_v == ids.deep_view(),
            blocks_v == blocks.deep_view(),
            moves@.map_values(|m: Move| m@) + spec_parsed_moves(
                ids_v.skip(i as int),
                blocks_v.skip(i as int),
            ) == spec_parsed_moves(ids_v, blocks_v),
        decreases n - i,
    {
        proof {
            assert(ids_v.skip(i as int)[0] == ids_v[i as int]);
            assert(blocks_v.skip(i as int)[0] == blocks_v[i as int]);
            assert(ids_v.skip(i as int).drop_first() =~= ids_v.skip(i as int + 1));
            assert(blocks_v.skip(i as int).drop_first() =~= blocks_v.skip(i as int + 1));
        }
        let m_opt = parse_move(ids[i].clone(), blocks[i].clone());
        match m_opt {
            Some(m) => {
                moves.push(m);
            },
            None => {},
        }
        proof {
            assert(moves@.map_values(|m: Move| m@) + spec_parsed_moves(
                ids_v.skip(i as int + 1),
                blocks_v.skip(i as int + 1),
            ) =~= spec_parsed_moves(ids_v, blocks_v));
        }
        i = i + 1;
    }
    proof {
        if n == ids.len() {
            assert(ids_v.skip(n as int) =~= Seq::<Seq<char>>::empty());
        } else {
            assert(blocks_v.skip(n as int) =~= Seq::<Seq<char>>::empty());
        }
        assert(spec_parsed_moves(ids_v.skip(n as int), blocks_v.skip(n as int)) =~= Seq::<
            Seq<Seq<char>>,
        >::empty());
        assert(moves@.map_values(|m: Move| m@) =~= spec_parsed_moves(ids_v, blocks_v));
    }
    CharacterFrameData { character_id: *character_id, moves }
}

/// Law: a block with an input cell and a name cell but no data cells
/// parses to a move all of whose statistic fields are the placeholder.
pub proof fn lemma_parse_no_data_cells(identifier: Seq<char>, block: Seq<char>)
    requires
        doc_selected(block, input_selector()).len() > 0,
        doc_selected(block, name_selector()).len() > 0,
        doc_selected(block, data_cell_selector()).len() == 0,
    ensures
        spec_parse_move(identifier, block) matches Some(fields) && forall|i: int|
            MOVE_FIELD_COUNT - STAT_FIELD_COUNT <= i < MOVE_FIELD_COUNT ==> fields[i] == "-"@,
{
    let fields = spec_parse_move(identifier, block)->Some_0;
    assert forall|i: int|
        MOVE_FIELD_COUNT - STAT_FIELD_COUNT <= i < MOVE_FIELD_COUNT implies fields[i]
        == "-"@ by {
        assert(fields[i] == spec_stat_of(
            doc_selected(block, data_cell_selector()),
            i - (MOVE_FIELD_COUNT - STAT_FIELD_COUNT),
        ));
    }
}

/// Law: a block without an input cell parses to nothing, whatever else it
/// holds.
pub proof fn lemma_parse_missing_input(identifier: Seq<char>, block: Seq<char>)
    requires
        doc_selected(block, input_selector()).len() == 0,
    ensures
        spec_parse_move(identifier, block) is None,
{
}

/// Law: when a block has a second candidate image anchor and its markup
/// matches the hitbox pattern, the image link is that anchor's resolved
/// URL, whatever the first candidate holds.
pub proof fn lemma_image_link_prefers_second(block: Seq<char>)
    requires
        doc_selected(block, hitbox_image_selector()).len() >= 2,
        spec_hitbox_match(doc_selected(block, hitbox_image_selector())[1].1) is Some,
    ensures
        spec_image_link(block) == spec_hitbox_match(
            doc_selected(block, hitbox_image_selector())[1].1,
        )->Some_0,
{
}

/// Law: when neither inspected candidate anchor matches the hitbox
/// pattern, the image link is exactly the default placeholder.
pub proof fn lemma_image_link_default(block: Seq<char>)
    requires
        doc_selected(block, hitbox_image_selector()).len() >= 1 ==> spec_hitbox_match(
            doc_selected(block, hitbox_image_selector())[0].1,
        ) is None,
        doc_selected(block, hitbox_image_selector()).len() >= 2 ==> spec_hitbox_match(
            doc_selected(block, hitbox_image_selector())[1].1,
        ) is None,
    ensures
        spec_image_link(block) == default_image(),
{
}

} // verus!
