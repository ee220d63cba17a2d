use playground_frame::block::ParseResult;
use playground_frame::frame::{FrameComponent, FrameProps};
use playground_frame::msg::Msg;

fn result(text: &str) -> ParseResult {
    ParseResult::new(String::from(text))
}

#[test]
fn seeded_state_has_one_focused_block() {
    let frame = FrameComponent::create();
    assert_eq!(frame.num_blocks(), 1);
    assert_eq!(frame.last_block(), 0);
    assert_eq!(frame.focus_index(), 0);
    assert!(frame.focus_on_render());
    assert!(!frame.is_toggled());
    assert!(!frame.label_change());
    assert_eq!(frame.block(0).index(), 0);
    assert_eq!(frame.block(0).label().as_str(), "0");
    assert_eq!(frame.block(0).result().text().as_str(), "");
}

#[test]
fn add_blocks_grow_list_with_sequential_indices() {
    let mut frame = FrameComponent::create();
    for _ in 0..4 {
        frame.update(Msg::AddBlock);
    }
    assert_eq!(frame.num_blocks(), 5);
    for i in 0..5 {
        assert_eq!(frame.block(i).index(), i);
    }
    assert_eq!(frame.block(3).label().as_str(), "3");
    assert_eq!(frame.block(4).label().as_str(), "4");
}

#[test]
fn add_block_focuses_new_last_block() {
    let mut frame = FrameComponent::create();
    frame.update(Msg::UpdateBlock(0, result("x"))); // disarm the flag first
    assert!(!frame.focus_on_render());
    let effect = frame.update(Msg::AddBlock);
    assert!(effect.render);
    assert!(!effect.notify_search);
    assert_eq!(frame.focus_index(), frame.num_blocks() - 1);
    assert!(frame.focus_on_render());
}

#[test]
fn focus_block_returns_focus_to_last_block() {
    let mut frame = FrameComponent::create();
    frame.update(Msg::AddBlock);
    frame.update(Msg::AddBlock);
    frame.update(Msg::UpdateBlock(0, result("x")));
    assert_eq!(frame.focus_index(), 0);
    assert!(!frame.focus_on_render());
    let effect = frame.update(Msg::FocusBlock);
    assert!(effect.render);
    assert_eq!(frame.focus_index(), 2);
    assert!(frame.focus_on_render());
}

#[test]
fn toggle_flips_flag_and_arms_focus() {
    let mut frame = FrameComponent::create();
    frame.update(Msg::UpdateBlock(0, result("x")));
    let effect = frame.update(Msg::Toggle);
    assert!(effect.render);
    assert!(frame.is_toggled());
    assert!(frame.focus_on_render());
    frame.update(Msg::Toggle);
    assert!(!frame.is_toggled());
}

#[test]
fn update_block_in_range_stores_result_and_moves_focus() {
    let mut frame = FrameComponent::create();
    frame.update(Msg::AddBlock);
    frame.update(Msg::AddBlock);
    let before = frame.label_change();
    frame.update(Msg::UpdateBlock(1, result("push1 60ff")));
    assert_eq!(frame.block(1).result(), &result("push1 60ff"));
    assert_eq!(frame.block(0).result(), &result(""));
    assert_eq!(frame.block(2).result(), &result(""));
    assert_eq!(frame.block(1).label().as_str(), "1");
    assert_eq!(frame.focus_index(), 1);
    assert!(!frame.focus_on_render());
    assert_ne!(frame.label_change(), before);
}

#[test]
fn update_block_out_of_range_still_tracks_focus() {
    let mut frame = FrameComponent::create();
    frame.update(Msg::AddBlock);
    let before = frame.label_change();
    let out = frame.num_blocks(); // first out-of-range index
    frame.update(Msg::UpdateBlock(out, result("ignored")));
    assert_eq!(frame.num_blocks(), 2);
    assert_eq!(frame.block(0).result(), &result(""));
    assert_eq!(frame.block(1).result(), &result(""));
    assert_eq!(frame.focus_index(), out);
    assert!(!frame.focus_on_render());
    assert_ne!(frame.label_change(), before);
}

#[test]
fn rename_block_in_range_stores_label() {
    let mut frame = FrameComponent::create();
    frame.update(Msg::AddBlock);
    frame.update(Msg::FocusBlock);
    frame.update(Msg::RenameBlock(0, String::from("setup")));
    assert_eq!(frame.block(0).label().as_str(), "setup");
    assert_eq!(frame.block(1).label().as_str(), "1");
    assert_eq!(frame.focus_index(), 1); // rename does not move focus
    assert!(!frame.focus_on_render());
}

#[test]
fn rename_block_out_of_range_changes_nothing() {
    let mut frame = FrameComponent::create();
    frame.update(Msg::AddBlock); // arms focus_on_render, focus == 1
    let before_label_change = frame.label_change();
    let effect = frame.update(Msg::RenameBlock(2, String::from("lost")));
    assert!(effect.render);
    assert_eq!(frame.num_blocks(), 2);
    assert_eq!(frame.block(0).label().as_str(), "0");
    assert_eq!(frame.block(1).label().as_str(), "1");
    assert_eq!(frame.focus_index(), 1);
    assert!(frame.focus_on_render()); // unlike UpdateBlock, the flag is untouched
    assert_eq!(frame.label_change(), before_label_change);
}

#[test]
fn search_notifies_host_and_mutates_nothing() {
    let mut frame = FrameComponent::create();
    frame.update(Msg::AddBlock);
    let focus = frame.focus_index();
    let flag = frame.focus_on_render();
    let effect = frame.update(Msg::Search);
    assert!(effect.render);
    assert!(effect.notify_search);
    assert_eq!(frame.num_blocks(), 2);
    assert_eq!(frame.focus_index(), focus);
    assert_eq!(frame.focus_on_render(), flag);
}

#[test]
fn rows_render_in_reverse_creation_order() {
    let mut frame = FrameComponent::create();
    frame.update(Msg::AddBlock);
    frame.update(Msg::AddBlock); // blocks created with indices 0, 1, 2
    let rows = frame.view_rows();
    let indices: Vec<usize> = rows.iter().map(|row| row.index).collect();
    assert_eq!(indices, vec![2, 1, 0]);
}

#[test]
fn exactly_focused_row_gets_live_handle() {
    let mut frame = FrameComponent::create();
    frame.update(Msg::AddBlock);
    frame.update(Msg::AddBlock);
    frame.update(Msg::UpdateBlock(1, result("x"))); // focus 1
    let rows = frame.view_rows();
    for row in &rows {
        assert_eq!(row.live_focus, row.index == 1);
        assert_eq!(row.advance_adds_block, row.index == 2);
    }
}

#[test]
fn advance_maps_to_add_only_on_last_block() {
    let mut frame = FrameComponent::create();
    frame.update(Msg::AddBlock);
    frame.update(Msg::AddBlock);
    assert!(matches!(frame.advance_msg(2), Msg::AddBlock));
    assert!(matches!(frame.advance_msg(0), Msg::FocusBlock));
    assert!(matches!(frame.advance_msg(1), Msg::FocusBlock));
    assert!(matches!(frame.advance_msg(7), Msg::FocusBlock));
}

#[test]
fn search_mode_change_sets_focus_flag_and_forces_render() {
    let mut frame = FrameComponent::create();
    frame.update(Msg::UpdateBlock(0, result("x"))); // disarm the flag
    let off = FrameProps { search_mode: false };
    let on = FrameProps { search_mode: true };
    assert!(frame.changed(&off, &on)); // entering search mode
    assert!(frame.focus_on_render());
    assert!(frame.changed(&on, &off)); // leaving it
    assert!(!frame.focus_on_render());
    frame.update(Msg::Toggle);
    assert!(!frame.changed(&off, &off)); // no change: no render, state kept
    assert!(frame.focus_on_render());
}

#[test]
fn focus_applies_only_armed_after_first_render_outside_search() {
    let mut frame = FrameComponent::create();
    frame.update(Msg::AddBlock); // focus_on_render == true
    let off = FrameProps { search_mode: false };
    let on = FrameProps { search_mode: true };
    assert!(frame.should_focus_after_render(false, &off));
    assert!(!frame.should_focus_after_render(true, &off)); // first render never focuses
    assert!(!frame.should_focus_after_render(false, &on)); // blurred by the overlay
    frame.update(Msg::UpdateBlock(0, result("x"))); // disarms the flag
    assert!(!frame.should_focus_after_render(false, &off));
}

#[test]
fn scenario_rename_then_update() {
    let mut frame = FrameComponent::create();
    frame.update(Msg::AddBlock);
    frame.update(Msg::AddBlock);
    frame.update(Msg::RenameBlock(1, String::from("calldata")));
    frame.update(Msg::UpdateBlock(0, result("caller()")));
    assert_eq!(frame.num_blocks(), 3);
    assert_eq!(frame.block(1).label().as_str(), "calldata");
    assert_eq!(frame.block(0).result(), &result("caller()"));
    assert_eq!(frame.focus_index(), 0);
    assert!(!frame.focus_on_render());
}

#[test]
fn decimal_labels_match_expected_text() {
    assert_eq!(playground_frame::digits::to_decimal(0), "0");
    assert_eq!(playground_frame::digits::to_decimal(7), "7");
    assert_eq!(playground_frame::digits::to_decimal(10), "10");
    assert_eq!(playground_frame::digits::to_decimal(907), "907");
    assert_eq!(playground_frame::digits::to_decimal(usize::MAX), usize::MAX.to_string());
}
