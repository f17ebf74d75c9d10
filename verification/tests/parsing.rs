use sf6_framedata::character::get_character_by_id;
use sf6_framedata::parser::{
    hitbox_image_matcher, load_from_markup, parse_move, select_move_blocks,
    select_move_identifiers,
};

const DEFAULT_IMAGE: &str =
    "https://wiki.supercombo.gg/images/thumb/4/42/SF6_Logo.png/300px-SF6_Logo.png";

fn header_row() -> &'static str {
    "<tr><th><div><p><span>5LP</span></p><div>Standing Light Punch</div></div></th></tr>"
}

#[test]
fn move_with_no_data_cells_has_all_placeholder_stats() {
    let block = format!("<table class=\"wikitable\"><tbody>{}</tbody></table>", header_row());
    let m = parse_move("5LP".to_string(), block).expect("input and name are present");
    assert_eq!(m.identifier, "5LP");
    assert_eq!(m.input, "5LP");
    assert_eq!(m.name, "Standing Light Punch");
    assert_eq!(m.damage, "-");
    assert_eq!(m.chip_damage, "-");
    assert_eq!(m.damage_scaling, "-");
    assert_eq!(m.guard, "-");
    assert_eq!(m.cancel, "-");
    assert_eq!(m.hitconfirm_window, "-");
    assert_eq!(m.startup, "-");
    assert_eq!(m.active, "-");
    assert_eq!(m.recovery, "-");
    assert_eq!(m.total, "-");
    assert_eq!(m.hitstun, "-");
    assert_eq!(m.blockstun, "-");
    assert_eq!(m.drive_damage_block, "-");
    assert_eq!(m.drive_damage_hit, "-");
    assert_eq!(m.drive_gain, "-");
    assert_eq!(m.super_gain_hit, "-");
    assert_eq!(m.super_gain_block, "-");
    assert_eq!(m.projectile_speed, "-");
    assert_eq!(m.invuln, "-");
    assert_eq!(m.armor, "-");
    assert_eq!(m.airborne, "-");
    assert_eq!(m.juggle_start, "-");
    assert_eq!(m.juggle_increase, "-");
    assert_eq!(m.juggle_limit, "-");
    assert_eq!(m.perfect_parry_advantage, "-");
    assert_eq!(m.after_dr_hit, "-");
    assert_eq!(m.after_dr_block, "-");
    assert_eq!(m.dr_cancel_hit, "-");
    assert_eq!(m.dr_cancel_block, "-");
    assert_eq!(m.punish_advantage, "-");
    assert_eq!(m.hit_advantage, "-");
    assert_eq!(m.block_advantage, "-");
    assert_eq!(m.notes, "-");
}

#[test]
fn move_without_input_cell_is_dropped() {
    // The header has a name cell but no input span: no move is produced,
    // no matter how many data cells follow.
    let block = "<table class=\"wikitable\"><tbody>\
        <tr><th><div><div>Standing Light Punch</div></div></th></tr>\
        <tr><td>300</td><td>50</td></tr>\
        </tbody></table>";
    assert!(parse_move("5LP".to_string(), block.to_string()).is_none());
}

#[test]
fn move_without_name_cell_is_dropped() {
    let block = "<table class=\"wikitable\"><tbody>\
        <tr><th><div><p><span>5LP</span></p></div></th></tr>\
        <tr><td>300</td></tr>\
        </tbody></table>";
    assert!(parse_move("5LP".to_string(), block.to_string()).is_none());
}

#[test]
fn stats_are_assigned_positionally() {
    let block = format!(
        "<table class=\"wikitable\"><tbody>{}\
        <tr><td>300</td><td><div><span>50</span></div></td><td>100%</td></tr>\
        </tbody></table>",
        header_row()
    );
    let m = parse_move("5LP".to_string(), block).expect("valid block");
    assert_eq!(m.damage, "300");
    // Nested formatting wrappers are unwrapped down to the text-bearing
    // leaf.
    assert_eq!(m.chip_damage, "50");
    assert_eq!(m.damage_scaling, "100%");
    assert_eq!(m.guard, "-");
    assert_eq!(m.notes, "-");
}

#[test]
fn image_link_prefers_second_matching_anchor() {
    let block = format!(
        "<table class=\"wikitable\"><tbody>{}\
        <tr><th>\
        <a href=\"a\"><img srcset=\"/images/icon.png 2x\"></a>\
        <a href=\"b\"><img srcset=\"/images/thumb/7/77/hitbox.png/400px.png 2x\"></a>\
        </th></tr>\
        </tbody></table>",
        header_row()
    );
    let m = parse_move("5LP".to_string(), block).expect("valid block");
    assert_eq!(
        m.image_link,
        "https://wiki.supercombo.gg//images/thumb/7/77/hitbox.png/400px.png"
    );
}

#[test]
fn image_link_prefers_second_anchor_over_first_when_both_match() {
    let block = format!(
        "<table class=\"wikitable\"><tbody>{}\
        <tr><th>\
        <a href=\"a\"><img srcset=\"/images/thumb/first.png 2x\"></a>\
        <a href=\"b\"><img srcset=\"/images/thumb/second.png 2x\"></a>\
        </th></tr>\
        </tbody></table>",
        header_row()
    );
    let m = parse_move("5LP".to_string(), block).expect("valid block");
    assert_eq!(m.image_link, "https://wiki.supercombo.gg//images/thumb/second.png");
}

#[test]
fn image_link_falls_back_to_first_anchor_when_second_misses() {
    let block = format!(
        "<table class=\"wikitable\"><tbody>{}\
        <tr><th>\
        <a href=\"a\"><img srcset=\"/images/thumb/only.png 2x\"></a>\
        <a href=\"b\"><img srcset=\"/images/plain.png 2x\"></a>\
        </th></tr>\
        </tbody></table>",
        header_row()
    );
    let m = parse_move("5LP".to_string(), block).expect("valid block");
    assert_eq!(m.image_link, "https://wiki.supercombo.gg//images/thumb/only.png");
}

#[test]
fn image_link_defaults_when_no_anchor_matches() {
    let block = format!("<table class=\"wikitable\"><tbody>{}</tbody></table>", header_row());
    let m = parse_move("5LP".to_string(), block).expect("valid block");
    assert_eq!(m.image_link, DEFAULT_IMAGE);
}

#[test]
fn hitbox_image_matcher_extracts_and_resolves() {
    let anchor = "<a><img srcset=\"/images/x.png 1x, /images/thumb/9/9a/x.png/400px-x.png 2x\"></a>";
    assert_eq!(
        hitbox_image_matcher(anchor.to_string()).expect("pattern matches"),
        "https://wiki.supercombo.gg//images/thumb/9/9a/x.png/400px-x.png"
    );
    assert!(hitbox_image_matcher("<a><img src=\"/images/x.png\"></a>".to_string()).is_none());
}

fn section(span: &str, table_rows: &str) -> String {
    format!(
        "<div><div><section class=\"section-collapsible\">\
        <h5><span>{}</span></h5>\
        <table class=\"wikitable\"><tbody>{}</tbody></table>\
        </section></div></div>",
        span, table_rows
    )
}

#[test]
fn page_selection_finds_aligned_blocks() {
    let page = format!(
        "<html><body>{}{}</body></html>",
        section("5LP", header_row()),
        section("2HK", header_row())
    );
    let ids = select_move_identifiers(&page);
    let blocks = select_move_blocks(&page);
    assert_eq!(ids, vec!["5LP".to_string(), "2HK".to_string()]);
    assert_eq!(blocks.len(), 2);
    assert!(blocks[0].starts_with("<table"));
}

#[test]
fn empty_name_anchors_are_discarded() {
    let page = format!(
        "<html><body>{}{}</body></html>",
        section("", header_row()),
        section("2HK", header_row())
    );
    let ids = select_move_identifiers(&page);
    assert_eq!(ids, vec!["2HK".to_string()]);
}

#[test]
fn load_from_markup_collects_surviving_moves() {
    let bad_rows = "<tr><th><div><div>No input here</div></div></th></tr>";
    let page = format!(
        "<html><body>{}{}{}</body></html>",
        section("5LP", header_row()),
        section("bad", bad_rows),
        section("2HK", header_row())
    );
    let ryu = get_character_by_id("ryu").expect("in roster");
    let cfd = load_from_markup(&ryu, &page);
    assert_eq!(cfd.character_id.id, "ryu");
    // The malformed block is dropped; the rest survive in page order.
    assert_eq!(cfd.moves.len(), 2);
    assert_eq!(cfd.moves[0].identifier, "5LP");
    assert_eq!(cfd.moves[1].identifier, "2HK");
}
