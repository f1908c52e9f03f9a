use task_board::board::Board;
use task_board::event::KeyDown;
use task_board::group::{add_subitem_row, add_task_row, group, task};
use task_board::subitem::subitem;

#[test]
fn from_an_empty_board_to_a_subitem() {
    let typed = |text: &str| KeyDown {
        key: "Enter".to_string(),
        input_value: Some(text.to_string()),
    };

    let mut board = Board::new();
    assert_eq!(board.group_count(), 0);

    board.add_group();
    assert_eq!(board.group_count(), 1);
    let props = board.group_props(0).unwrap();
    assert!(props.name.contains("Sample Group 0"));
    assert!(["red", "blue", "green", "purple", "orange"].contains(&props.color.name()));

    let mut shown_group = group(&props);
    assert!(!shown_group.shows_tasks());
    shown_group.toggle_expand();
    assert!(shown_group.shows_tasks());

    let mut task_row = add_task_row();
    let name = task_row.on_keydown(&typed("Design review")).unwrap();
    assert!(shown_group.add_task(name));
    assert_eq!(shown_group.task_count(), 1);
    assert_eq!(shown_group.subitem_count(), 0);
    assert_eq!(shown_group.count_label(), "1 Tasks / 0 Subitems");

    let mut shown_task = task(&shown_group.task_props(0).unwrap());
    assert_eq!(shown_task.name, "Design review");
    assert!(!shown_task.shows_subitems());
    shown_task.toggle_expand();
    assert!(shown_task.shows_subitems());

    let mut subitem_row = add_subitem_row();
    let name = subitem_row.on_keydown(&typed("Draft doc")).unwrap();
    let report = shown_task.add_subitem(name).unwrap();
    assert!(shown_group.add_subitem(0, report));
    assert_eq!(shown_task.subitem_count(), 1);
    assert_eq!(shown_group.task_count(), 1);
    assert_eq!(shown_group.subitem_count(), 1);
    assert_eq!(shown_group.count_label(), "1 Tasks / 1 Subitems");

    let shown_subitem = subitem(&shown_task.subitem_props(0).unwrap());
    assert_eq!(shown_subitem.name, "Draft doc");
    assert_eq!(shown_subitem.date, "2024-08-11");
    assert_eq!(shown_subitem.budget, "$0");
}
