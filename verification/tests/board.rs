use task_board::board::{Board, GroupData};
use task_board::event::KeyDown;
use task_board::group::{group, GroupProps};
use task_board::palette::{Color, PALETTE_LEN};

#[test]
fn a_new_board_has_no_groups() {
    let board = Board::new();
    assert_eq!(board.group_count(), 0);
    assert!(board.groups.is_empty());
    assert_eq!(board.group_props(0), None);
}

#[test]
fn add_group_with_appends_under_a_numbered_name() {
    let mut board = Board::new();
    board.add_group_with(Color::Green);
    board.add_group_with(Color::Red);
    board.add_group_with(Color::Green);
    assert_eq!(
        board.groups,
        vec![
            GroupData { name: "This is a Sample Group 0".to_string(), color: Color::Green },
            GroupData { name: "This is a Sample Group 1".to_string(), color: Color::Red },
            GroupData { name: "This is a Sample Group 2".to_string(), color: Color::Green },
        ]
    );
    assert_eq!(board.group_count(), 3);
}

#[test]
fn add_group_draws_a_color_of_the_palette() {
    let mut board = Board::new();
    let mut drawn = [0usize; PALETTE_LEN];
    for round in 0..200 {
        let before = board.clone();
        let color = board.add_group();
        assert_eq!(board.group_count(), round + 1);
        assert_eq!(board.groups[..round], before.groups[..]);
        assert_eq!(board.groups[round].color, color);
        assert_eq!(board.groups[round].name, format!("This is a Sample Group {}", round));
        assert_eq!(Color::from_index(color.index()), Some(color));
        drawn[color.index()] += 1;
    }
    assert_eq!(drawn.iter().sum::<usize>(), 200);
    assert!(drawn.iter().filter(|count| **count > 0).count() >= 2);
}

#[test]
fn rename_group_overwrites_that_name_only() {
    let mut board = Board::new();
    board.add_group_with(Color::Blue);
    board.add_group_with(Color::Orange);
    board.add_group_with(Color::Purple);
    assert!(board.rename_group(1, "Launch".to_string()));
    assert_eq!(
        board.groups,
        vec![
            GroupData { name: "This is a Sample Group 0".to_string(), color: Color::Blue },
            GroupData { name: "Launch".to_string(), color: Color::Orange },
            GroupData { name: "This is a Sample Group 2".to_string(), color: Color::Purple },
        ]
    );
}

#[test]
fn rename_group_out_of_range_is_a_no_op() {
    let mut board = Board::new();
    assert!(!board.rename_group(0, "Nobody".to_string()));
    assert_eq!(board, Board::new());
    board.add_group_with(Color::Blue);
    let before = board.clone();
    assert!(!board.rename_group(1, "Nobody".to_string()));
    assert!(!board.rename_group(usize::MAX, "Nobody".to_string()));
    assert_eq!(board, before);
}

#[test]
fn rename_does_not_change_later_placeholder_names() {
    let mut board = Board::new();
    board.add_group_with(Color::Blue);
    board.rename_group(0, "Launch".to_string());
    board.add_group_with(Color::Blue);
    assert_eq!(board.groups[1].name, "This is a Sample Group 1");
}

#[test]
fn group_props_hand_down_name_color_and_position() {
    let mut board = Board::new();
    board.add_group_with(Color::Blue);
    board.add_group_with(Color::Orange);
    assert_eq!(
        board.group_props(1),
        Some(GroupProps {
            name: "This is a Sample Group 1".to_string(),
            color: Color::Orange,
            index: 1,
        })
    );
    assert_eq!(board.group_props(2), None);
}

#[test]
fn a_confirmed_name_reaches_the_board_and_comes_back() {
    let mut board = Board::new();
    board.add_group_with(Color::Blue);
    board.add_group_with(Color::Orange);
    let mut shown = group(&board.group_props(1).unwrap());
    shown.begin_edit();
    let event = KeyDown { key: "Enter".to_string(), input_value: Some("Launch".to_string()) };
    let (index, name) = shown.on_group_name_change(&event).unwrap();
    assert!(board.rename_group(index, name));
    assert_eq!(board.groups[1].name, "Launch");
    assert_eq!(board.groups[0].name, "This is a Sample Group 0");
    let handed = board.group_props(1).unwrap();
    assert_eq!(handed.name, "Launch");
    let before = shown.clone();
    shown.sync_name(&handed.name);
    assert_eq!(shown, before);
    assert_eq!(shown.name, "Launch");
}

#[test]
fn a_renamed_group_shows_the_new_name_when_it_appears_again() {
    let mut board = Board::new();
    board.add_group_with(Color::Red);
    board.rename_group(0, "Written".to_string());
    let shown = group(&board.group_props(0).unwrap());
    assert_eq!(shown.name, "Written");
    assert_eq!(shown.color, Color::Red);
    assert!(!shown.expanded);
    assert!(!shown.editing);
    assert_eq!(shown.task_count(), 0);
}
