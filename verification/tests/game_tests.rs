use game2048::decimal::decimal_string;
use game2048::display::{
    board_views, cell_color, initial_board_views, cell_position, cell_view, initial_cell_text, CellColor, TextColor,
};
use game2048::screens::{
    button_reaction, defeat_text, initial_score_view, score_text, victory_text, ButtonReaction, ButtonTextColor,
    Interaction,
};
use game2048::state::{direction_from_keys, state_change, ArrowKeys, MoveDirection, VictoryOrDefeat};
use game2048::turn::turn_display;

fn keys(up: bool, down: bool, right: bool, left: bool) -> ArrowKeys {
    ArrowKeys { up, down, right, left }
}

#[test]
fn decimal_matches_to_string() {
    for n in [0u32, 1, 9, 10, 11, 99, 100, 2048, 65536, 1234567890, u32::MAX] {
        assert_eq!(decimal_string(n), n.to_string());
    }
}

#[test]
fn decimal_exact_values() {
    assert_eq!(decimal_string(0), "0");
    assert_eq!(decimal_string(7), "7");
    assert_eq!(decimal_string(2048), "2048");
    assert_eq!(decimal_string(4294967295), "4294967295");
}

#[test]
fn no_key_means_no_move() {
    assert_eq!(direction_from_keys(keys(false, false, false, false)), MoveDirection::NONE);
}

#[test]
fn each_key_alone() {
    assert_eq!(direction_from_keys(keys(true, false, false, false)), MoveDirection::UP);
    assert_eq!(direction_from_keys(keys(false, true, false, false)), MoveDirection::DOWN);
    assert_eq!(direction_from_keys(keys(false, false, true, false)), MoveDirection::RIGHT);
    assert_eq!(direction_from_keys(keys(false, false, false, true)), MoveDirection::LEFT);
}

#[test]
fn later_key_overrides_earlier() {
    assert_eq!(direction_from_keys(keys(true, true, false, false)), MoveDirection::DOWN);
    assert_eq!(direction_from_keys(keys(true, true, true, false)), MoveDirection::RIGHT);
    assert_eq!(direction_from_keys(keys(true, true, true, true)), MoveDirection::LEFT);
    assert_eq!(direction_from_keys(keys(true, false, false, true)), MoveDirection::LEFT);
}

#[test]
fn state_change_of_each_result() {
    assert_eq!(state_change(VictoryOrDefeat::NONE), None);
    assert_eq!(state_change(VictoryOrDefeat::VICTORY), Some(VictoryOrDefeat::VICTORY));
    assert_eq!(state_change(VictoryOrDefeat::DEFEAT), Some(VictoryOrDefeat::DEFEAT));
}

#[test]
fn colors_of_tiles() {
    let tiles = [
        (2, CellColor::Cell2),
        (4, CellColor::Cell4),
        (8, CellColor::Cell8),
        (16, CellColor::Cell16),
        (32, CellColor::Cell32),
        (64, CellColor::Cell64),
        (128, CellColor::Cell128),
        (256, CellColor::Cell256),
        (512, CellColor::Cell512),
        (1024, CellColor::Cell1024),
        (2048, CellColor::Cell2048),
    ];
    for (v, c) in tiles {
        assert_eq!(cell_color(v), c);
    }
}

#[test]
fn colors_of_other_values() {
    for v in [0u32, 1, 3, 6, 4096, 8192, u32::MAX] {
        assert_eq!(cell_color(v), CellColor::Null);
    }
}

#[test]
fn tile_colors_are_distinct() {
    let tiles = [2u32, 4, 8, 16, 32, 64, 128, 256, 512, 1024, 2048];
    for a in tiles {
        for b in tiles {
            if a != b {
                assert_ne!(cell_color(a), cell_color(b));
            }
        }
    }
}

#[test]
fn view_of_empty_cell() {
    let v = cell_view(0);
    assert_eq!(v.text, "");
    assert_eq!(v.text_color, None);
    assert_eq!(v.background, CellColor::Null);
}

#[test]
fn view_of_small_tiles_is_brown() {
    let v = cell_view(2);
    assert_eq!(v.text, "2");
    assert_eq!(v.text_color, Some(TextColor::Brown));
    assert_eq!(v.background, CellColor::Cell2);
    let v = cell_view(4);
    assert_eq!(v.text, "4");
    assert_eq!(v.text_color, Some(TextColor::Brown));
    assert_eq!(v.background, CellColor::Cell4);
}

#[test]
fn view_of_large_tiles_is_white() {
    let v = cell_view(8);
    assert_eq!(v.text, "8");
    assert_eq!(v.text_color, Some(TextColor::White));
    assert_eq!(v.background, CellColor::Cell8);
    let v = cell_view(2048);
    assert_eq!(v.text, "2048");
    assert_eq!(v.text_color, Some(TextColor::White));
    assert_eq!(v.background, CellColor::Cell2048);
    let v = cell_view(4096);
    assert_eq!(v.text, "4096");
    assert_eq!(v.text_color, Some(TextColor::White));
    assert_eq!(v.background, CellColor::Null);
}

#[test]
fn initial_text_shows_only_twos() {
    assert_eq!(initial_cell_text(2), "2");
    assert_eq!(initial_cell_text(0), "");
    assert_eq!(initial_cell_text(4), "");
}

#[test]
fn positions_go_row_by_row() {
    assert_eq!(cell_position(0), (0, 0));
    assert_eq!(cell_position(3), (0, 3));
    assert_eq!(cell_position(4), (1, 0));
    assert_eq!(cell_position(6), (1, 2));
    assert_eq!(cell_position(15), (3, 3));
}

#[test]
fn positions_cover_the_board_once() {
    let mut seen = [[false; 4]; 4];
    for i in 0..16 {
        let (r, c) = cell_position(i);
        assert!(r < 4 && c < 4);
        assert!(!seen[r][c]);
        seen[r][c] = true;
    }
}

fn sample_board() -> Vec<Vec<u32>> {
    vec![
        vec![0, 2, 4, 8],
        vec![16, 32, 64, 128],
        vec![256, 512, 1024, 2048],
        vec![0, 0, 2, 0],
    ]
}

#[test]
fn board_views_follow_the_board() {
    let board = sample_board();
    let views = board_views(&board);
    assert_eq!(views.len(), 16);
    for i in 0..16 {
        let value = board[i / 4][i % 4];
        let expected = cell_view(value);
        assert_eq!(views[i].text, expected.text);
        assert_eq!(views[i].text_color, expected.text_color);
        assert_eq!(views[i].background, expected.background);
    }
    assert_eq!(views[1].text, "2");
    assert_eq!(views[11].text, "2048");
    assert_eq!(views[11].background, CellColor::Cell2048);
    assert_eq!(views[12].text, "");
}

#[test]
fn turn_display_of_a_game_going_on() {
    let board = sample_board();
    let d = turn_display(&board, 1234, VictoryOrDefeat::NONE);
    assert_eq!(d.score_text, "1234");
    assert_eq!(d.cells.len(), 16);
    assert_eq!(d.cells[5].text, "32");
    assert_eq!(d.next_state, None);
}

#[test]
fn turn_display_of_a_finished_game() {
    let board = sample_board();
    let d = turn_display(&board, 20000, VictoryOrDefeat::VICTORY);
    assert_eq!(d.score_text, "20000");
    assert_eq!(d.next_state, Some(VictoryOrDefeat::VICTORY));
    let d = turn_display(&board, 0, VictoryOrDefeat::DEFEAT);
    assert_eq!(d.score_text, "0");
    assert_eq!(d.next_state, Some(VictoryOrDefeat::DEFEAT));
}

#[test]
fn replay_button_reactions() {
    assert_eq!(
        button_reaction(Interaction::Pressed),
        ButtonReaction::SetState(VictoryOrDefeat::NONE)
    );
    assert_eq!(
        button_reaction(Interaction::Hovered),
        ButtonReaction::SetTextColor(ButtonTextColor::Red)
    );
    assert_eq!(
        button_reaction(Interaction::Idle),
        ButtonReaction::SetTextColor(ButtonTextColor::Brown)
    );
}

#[test]
fn end_screen_messages() {
    assert_eq!(defeat_text(0), "YOU  LOST\nSCORE: 0");
    assert_eq!(defeat_text(3172), "YOU  LOST\nSCORE: 3172");
    assert_eq!(victory_text(20468), "WINNER\nSCORE: 20468");
    assert_eq!(score_text(512), "512");
}

#[test]
fn initial_views_follow_the_board() {
    let board = sample_board();
    let views = initial_board_views(&board);
    assert_eq!(views.len(), 16);
    for i in 0..16 {
        let value = board[i / 4][i % 4];
        assert_eq!(views[i].text, if value == 2 { "2" } else { "" });
        assert_eq!(views[i].background, cell_color(value));
        assert_eq!(views[i].text_color, TextColor::Brown);
    }
    assert_eq!(views[1].text, "2");
    assert_eq!(views[2].text, "");
    assert_eq!(views[14].text, "2");
    assert_eq!(views[7].background, CellColor::Cell128);
}

#[test]
fn initial_score_shows_zero_in_brown() {
    let v = initial_score_view();
    assert_eq!(v.label, "SCORE\n");
    assert_eq!(v.score, "0");
    assert_eq!(v.text_color, TextColor::Brown);
}
