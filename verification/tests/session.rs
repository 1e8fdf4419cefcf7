use rakukan::engine::conversion::{
    clamp_selection, conversion_from_blocks, ConversionSegment, ConversionState, SegmentCandidate,
    SplitBlock,
};
use rakukan::engine::state::{session_is_selecting_fast, SessionState};

fn ascii_blocks() -> Vec<SplitBlock> {
    vec![
        SplitBlock {
            reading: "a".into(),
            display: "A".into(),
        },
        SplitBlock {
            reading: "b".into(),
            display: "B".into(),
        },
        SplitBlock {
            reading: "c".into(),
            display: "C".into(),
        },
        SplitBlock {
            reading: "d".into(),
            display: "D".into(),
        },
    ]
}

fn sample_blocks() -> Vec<SplitBlock> {
    vec![
        SplitBlock {
            reading: "わがはい".into(),
            display: "吾輩".into(),
        },
        SplitBlock {
            reading: "は".into(),
            display: "は".into(),
        },
        SplitBlock {
            reading: "ねこ".into(),
            display: "猫".into(),
        },
        SplitBlock {
            reading: "で".into(),
            display: "で".into(),
        },
        SplitBlock {
            reading: "ある".into(),
            display: "ある".into(),
        },
    ]
}

#[test]
fn split_move_right_moves_selection_window() {
    let mut sess = SessionState::Idle;
    sess.set_split_preedit_blocks(sample_blocks(), 0, 1);

    assert!(sess.split_move_right());
    assert_eq!(sess.split_display_prefix().as_deref(), Some("吾輩"));
    assert_eq!(sess.split_display_target().as_deref(), Some("は"));
    assert_eq!(sess.split_display_remainder().as_deref(), Some("猫である"));

    assert!(sess.split_move_right());
    assert_eq!(sess.split_display_prefix().as_deref(), Some("吾輩は"));
    assert_eq!(sess.split_display_target().as_deref(), Some("猫"));
    assert_eq!(sess.split_display_remainder().as_deref(), Some("である"));
}

#[test]
fn split_extend_grows_selection_without_losing_anchor() {
    let mut sess = SessionState::Idle;
    sess.set_split_preedit_blocks(sample_blocks(), 0, 1);

    assert!(sess.split_extend());
    assert_eq!(sess.split_display_prefix().as_deref(), Some(""));
    assert_eq!(sess.split_display_target().as_deref(), Some("吾輩は"));
    assert_eq!(sess.split_display_remainder().as_deref(), Some("猫である"));

    assert!(sess.split_extend());
    assert_eq!(sess.split_display_target().as_deref(), Some("吾輩は猫"));
    assert_eq!(sess.split_display_remainder().as_deref(), Some("である"));
}

#[test]
fn split_shrink_keeps_at_least_one_block_selected() {
    let mut sess = SessionState::Idle;
    sess.set_split_preedit_blocks(sample_blocks(), 0, 3);

    assert!(sess.split_shrink());
    assert_eq!(sess.split_display_target().as_deref(), Some("吾輩は"));
    assert!(sess.split_shrink());
    assert_eq!(sess.split_display_target().as_deref(), Some("吾輩"));
    assert!(!sess.split_shrink());
    assert_eq!(sess.split_display_target().as_deref(), Some("吾輩"));
}

#[test]
fn split_move_right_stops_at_last_block() {
    let mut sess = SessionState::Idle;
    sess.set_split_preedit_blocks(sample_blocks(), 4, 5);

    assert!(!sess.split_move_right());
    assert_eq!(sess.split_display_prefix().as_deref(), Some("吾輩は猫で"));
    assert_eq!(sess.split_display_target().as_deref(), Some("ある"));
    assert_eq!(sess.split_display_remainder().as_deref(), Some(""));
}

#[test]
fn split_operations_keep_full_text_and_valid_selection_after_repetition() {
    let mut sess = SessionState::Idle;
    sess.set_split_preedit_blocks(ascii_blocks(), 0, 1);

    assert!(sess.split_extend());
    assert!(sess.split_move_right());
    assert!(sess.split_shrink());
    assert!(sess.split_move_right());
    assert!(sess.split_extend());
    assert!(sess.split_move_left());

    let full = format!(
        "{}{}{}",
        sess.split_display_prefix().unwrap_or_default(),
        sess.split_display_target().unwrap_or_default(),
        sess.split_display_remainder().unwrap_or_default()
    );
    assert_eq!(full, "ABCD");

    let target = sess.split_display_target().unwrap_or_default();
    assert!(!target.is_empty());
    assert_eq!(sess.split_display_prefix().as_deref(), Some("A"));
    assert_eq!(sess.split_display_target().as_deref(), Some("BC"));
    assert_eq!(sess.split_display_remainder().as_deref(), Some("D"));
}

#[test]
fn conversion_state_focus_moves_with_wraparound() {
    let blocks = vec![
        SplitBlock {
            reading: "あ".into(),
            display: "亜".into(),
        },
        SplitBlock {
            reading: "い".into(),
            display: "伊".into(),
        },
        SplitBlock {
            reading: "う".into(),
            display: "宇".into(),
        },
    ];
    let mut conv = ConversionState::from_split_blocks(&blocks, 0).unwrap();

    assert_eq!(
        conv.display_parts(),
        ("".into(), "亜".into(), "伊宇".into())
    );
    assert!(conv.focus_left());
    assert_eq!(
        conv.display_parts(),
        ("亜伊".into(), "宇".into(), "".into())
    );
    assert!(conv.focus_right());
    assert_eq!(
        conv.display_parts(),
        ("".into(), "亜".into(), "伊宇".into())
    );
}

#[test]
fn conversion_state_width_expand_and_shrink_move_one_character() {
    let blocks = vec![
        SplitBlock {
            reading: "あ".into(),
            display: "あ".into(),
        },
        SplitBlock {
            reading: "いう".into(),
            display: "いう".into(),
        },
    ];
    let mut conv = ConversionState::from_split_blocks(&blocks, 0).unwrap();

    assert!(conv.width_expand_right());
    assert_eq!(
        conv.reading_parts(),
        ("".into(), "あい".into(), "う".into())
    );

    assert!(conv.width_shrink_right());
    assert_eq!(
        conv.reading_parts(),
        ("".into(), "あ".into(), "いう".into())
    );
}

fn numbered(n: usize) -> Vec<String> {
    (0..n).map(|i| format!("c{i}")).collect()
}

#[test]
fn moves_of_a_selection_undo_each_other() {
    let mut sess = SessionState::Idle;
    sess.set_split_preedit_blocks(ascii_blocks(), 1, 2);
    assert!(sess.split_move_right());
    assert!(sess.split_move_left());
    assert_eq!(sess.split_prefix().as_deref(), Some("a"));
    assert_eq!(sess.split_target().as_deref(), Some("b"));
    assert_eq!(sess.split_remainder().as_deref(), Some("cd"));
    assert!(sess.split_extend());
    assert!(sess.split_shrink());
    assert_eq!(sess.split_target().as_deref(), Some("b"));
}

#[test]
fn a_selection_goes_left_from_the_first_block_to_the_last() {
    let mut sess = SessionState::Idle;
    assert!(!sess.split_move_left());
    sess.set_split_preedit_blocks(ascii_blocks(), 0, 2);
    assert!(sess.split_move_left());
    assert_eq!(sess.split_display_prefix().as_deref(), Some("ABC"));
    assert_eq!(sess.split_display_target().as_deref(), Some("D"));
    assert_eq!(sess.split_display_remainder().as_deref(), Some(""));
    assert!(!sess.split_move_right());
    sess.set_split_preedit_blocks(ascii_blocks(), 0, 4);
    assert!(sess.split_move_left());
    assert_eq!(sess.split_display_target().as_deref(), Some("ABCD"));
}

#[test]
fn a_selection_goes_through_a_conversion_and_back() {
    let mut sess = SessionState::Idle;
    sess.set_split_preedit_blocks(sample_blocks(), 1, 3);
    let conv = sess.split_conversion_clone().expect("there is a selection");
    assert_eq!(
        conv.reading_parts(),
        ("わがはい".into(), "はねこ".into(), "である".into())
    );
    sess.set_split_conversion(conv);
    assert_eq!(sess.split_display_target().as_deref(), Some("は猫"));
    assert_eq!(sess.split_target().as_deref(), Some("はねこ"));
}

#[test]
fn a_selection_stays_within_the_blocks() {
    assert_eq!(clamp_selection(4, 0, 0), (0, 1));
    assert_eq!(clamp_selection(4, 9, 9), (3, 4));
    assert_eq!(clamp_selection(4, 1, 9), (1, 4));
    assert_eq!(clamp_selection(4, 2, 1), (2, 3));
    assert!(conversion_from_blocks(&Vec::new(), 0, 1).is_none());
    assert!(ConversionState::from_split_blocks(&Vec::new(), 0).is_none());
}

#[test]
fn candidates_come_in_pages() {
    let mut sess = SessionState::Idle;
    sess.activate_selecting(numbered(20), "よみ".into(), 3, 4, false);
    assert!(session_is_selecting_fast(&sess));
    assert_eq!(sess.total_pages(), 3);
    assert_eq!(sess.current_page(), 0);
    assert_eq!(sess.page_info(), "1/3");
    assert_eq!(sess.page_candidates().len(), 9);
    sess.next_page();
    assert_eq!(sess.current_candidate(), Some("c9"));
    sess.next_page();
    assert_eq!(sess.current_candidate(), Some("c18"));
    assert_eq!(sess.page_candidates(), vec!["c18", "c19"]);
    sess.prev_page();
    assert_eq!(sess.current_candidate(), Some("c9"));
    assert!(sess.select_nth_in_page(3));
    assert_eq!(sess.current_candidate(), Some("c11"));
    assert_eq!(sess.page_selected(), 2);
    assert!(!sess.select_nth_in_page(0));
    sess.next_with_page_wrap();
    sess.prev();
    assert_eq!(sess.current_candidate(), Some("c11"));
    assert_eq!(sess.selecting_pos(), Some((3, 4)));
    assert_eq!(sess.original_preedit(), Some("よみ"));
}

#[test]
fn a_session_without_candidates_gives_the_reading() {
    let mut sess = SessionState::Idle;
    sess.activate_selecting(Vec::new(), "よみ".into(), 0, 0, true);
    assert_eq!(sess.current_candidate(), None);
    assert_eq!(sess.current_or_original(), "よみ");
    assert!(sess.is_llm_pending());
    sess.refresh_candidates(vec!["読み".into()]);
    assert_eq!(sess.current_or_original(), "読み");
    assert!(!sess.is_llm_pending());
    sess.set_punct_pending('。');
    assert_eq!(sess.take_punct_pending(), Some('。'));
    assert_eq!(sess.take_punct_pending(), None);
}

#[test]
fn the_rest_of_a_text_is_kept_beside_the_candidates() {
    let mut sess = SessionState::Idle;
    sess.activate_selecting_with_affixes(
        vec!["猫".into()],
        "ねこ".into(),
        0,
        0,
        false,
        "吾輩は".into(),
        "わがはいは".into(),
        "である".into(),
        "である".into(),
        vec![],
        vec![],
    );
    assert_eq!(sess.selecting_prefix_clone(), "吾輩は");
    assert_eq!(sess.selecting_prefix_reading_clone(), "わがはいは");
    assert_eq!(sess.selecting_remainder_clone(), "である");
    assert_eq!(sess.take_selecting_remainder(), "である");
    assert_eq!(sess.selecting_remainder_clone(), "");
}

#[test]
fn a_range_and_the_rest_make_up_the_reading() {
    let mut sess = SessionState::Idle;
    sess.set_range_select("きょうは".into(), 4, "今日は".into());
    assert!(sess.is_range_select());
    assert!(!sess.range_select_extend());
    assert!(sess.range_select_shrink());
    assert_eq!(sess.range_select_parts(), Some(("きょう".into(), "は".into())));
    assert!(sess.range_select_shrink());
    assert!(sess.range_select_shrink());
    assert!(!sess.range_select_shrink());
    assert_eq!(sess.range_select_parts(), Some(("き".into(), "ょうは".into())));
    assert!(sess.range_select_extend());
    assert_eq!(sess.range_select_parts(), Some(("きょ".into(), "うは".into())));
}

#[test]
fn a_choice_replaces_the_segment_in_focus() {
    let mut conv = ConversionState::from_split_blocks(&sample_blocks(), 2).unwrap();
    let choice = SegmentCandidate {
        surface: "根っ子".into(),
        segments: vec![
            ConversionSegment { reading: "ね".into(), surface: "根".into() },
            ConversionSegment { reading: "っこ".into(), surface: "っ子".into() },
        ],
    };
    conv.set_candidate_view(vec![choice.clone()]);
    assert_eq!(conv.candidate_surface(), Some("根っ子"));
    assert!(conv.replace_focused_with_candidate(&choice));
    assert!(!conv.has_candidate_view());
    assert_eq!(conv.composed_surface(), "吾輩は根っ子である");
    assert_eq!(conv.composed_reading(), "わがはいはねっこである");
}

#[test]
fn candidates_of_a_segment_come_in_pages() {
    let mut conv = ConversionState::from_split_blocks(&sample_blocks(), 2).unwrap();
    assert!(!conv.next_candidate());
    assert!(!conv.select_nth_candidate_in_page(1));
    assert_eq!(conv.page_info(), "");
    let choices = numbered(11)
        .into_iter()
        .map(|surface| SegmentCandidate { surface, segments: Vec::new() })
        .collect();
    conv.set_candidate_view(choices);
    assert_eq!((conv.current_page(), conv.total_pages()), (0, 2));
    assert_eq!(conv.page_info(), "1/2");
    assert!(conv.prev_candidate());
    assert_eq!(conv.candidate_surface(), Some("c10"));
    assert_eq!(conv.page_candidates(), vec!["c9", "c10"]);
    assert_eq!(conv.page_selected(), 1);
    assert!(conv.next_candidate());
    assert_eq!(conv.candidate_surface(), Some("c0"));
    assert!(conv.next_candidate_with_page_wrap());
    assert_eq!(conv.candidate_surface(), Some("c1"));
    assert!(conv.next_candidate_page());
    assert_eq!(conv.candidate_surface(), Some("c9"));
    assert!(conv.prev_candidate_page());
    assert_eq!(conv.candidate_surface(), Some("c0"));
    assert!(conv.select_nth_candidate_in_page(9));
    assert_eq!(conv.current_structured_candidate_clone().unwrap().surface, "c8");
    conv.clear_candidate_view();
    assert_eq!(conv.candidate_surface(), None);
}

#[test]
fn the_segment_in_focus_is_changed_in_place() {
    let mut conv = ConversionState::from_split_blocks(&sample_blocks(), 2).unwrap();
    conv.focused_mut().unwrap().surface = "ネコ".into();
    assert_eq!(conv.focused().unwrap().surface, "ネコ");
    assert_eq!(conv.composed_surface(), "吾輩はネコである");
}

#[test]
fn a_choice_keeps_the_blocks_around_it() {
    let mut sess = SessionState::Idle;
    assert!(sess.selecting_prefix_blocks_clone().is_empty());
    let (before, after) = (vec![ascii_blocks()[0].clone()], vec![ascii_blocks()[3].clone()]);
    sess.activate_selecting_with_affixes(
        numbered(2),
        "bc".into(),
        0,
        0,
        false,
        "A".into(),
        "a".into(),
        "D".into(),
        "d".into(),
        before.clone(),
        after.clone(),
    );
    assert_eq!(sess.selecting_prefix_blocks_clone(), before);
    assert_eq!(sess.selecting_suffix_blocks_clone(), after);
}

#[test]
fn candidates_of_a_block_can_be_put_away() {
    let mut sess = SessionState::Idle;
    assert!(!sess.clear_split_candidate_view());
    sess.set_split_preedit_blocks(sample_blocks(), 1, 3);
    assert!(sess.is_split_preedit());
    assert!(!sess.clear_split_candidate_view());
    let mut conv = sess.split_conversion_clone().unwrap();
    conv.set_candidate_view(vec![SegmentCandidate {
        surface: "葉猫".into(),
        segments: Vec::new(),
    }]);
    sess.set_split_conversion(conv);
    assert!(sess.clear_split_candidate_view());
    assert!(!sess.clear_split_candidate_view());
    assert_eq!(sess.split_display_target().as_deref(), Some("は猫"));
}
