use task_board::event::KeyDown;
use task_board::group::{
    add_subitem_row, add_task_row, group, task, GroupProps, SubitemData, Task, TaskField,
    TaskProps,
};
use task_board::palette::Color;
use task_board::subitem::SubitemProps;

const TASK_FIELDS: [TaskField; 8] = [
    TaskField::Name,
    TaskField::Date,
    TaskField::Area,
    TaskField::Owner,
    TaskField::Notes,
    TaskField::Files,
    TaskField::Budget,
    TaskField::Progress,
];

fn press_enter(text: &str) -> KeyDown {
    KeyDown { key: "Enter".to_string(), input_value: Some(text.to_string()) }
}

fn design_review() -> Task {
    task(&TaskProps {
        name: "Design review".to_string(),
        color: Color::Orange,
        subitems: vec![SubitemData { name: "Agenda".to_string() }],
    })
}

#[test]
fn a_new_task_has_the_default_fields() {
    let state = design_review();
    assert_eq!(state.name, "Design review");
    assert_eq!(state.date, "2024-08-11");
    assert_eq!(state.area, "Area 1");
    assert_eq!(state.owner, "Owner 1");
    assert_eq!(state.notes, "Sample Note");
    assert_eq!(state.files, "0");
    assert_eq!(state.budget, "$0");
    assert_eq!(state.progress, "");
    assert_eq!(state.color, Color::Orange);
    assert_eq!(state.subitems, vec![SubitemData { name: "Agenda".to_string() }]);
    assert!(!state.expanded);
    assert!(!state.shows_subitems());
}

#[test]
fn task_field_reads_each_field() {
    let state = design_review();
    assert_eq!(state.field(TaskField::Name), "Design review");
    assert_eq!(state.field(TaskField::Date), "2024-08-11");
    assert_eq!(state.field(TaskField::Area), "Area 1");
    assert_eq!(state.field(TaskField::Owner), "Owner 1");
    assert_eq!(state.field(TaskField::Notes), "Sample Note");
    assert_eq!(state.field(TaskField::Files), "0");
    assert_eq!(state.field(TaskField::Budget), "$0");
    assert_eq!(state.field(TaskField::Progress), "");
}

#[test]
fn task_set_field_changes_that_field_only() {
    for field in TASK_FIELDS {
        let before = design_review();
        let mut after = before.clone();
        after.set_field(field, "changed".to_string());
        for other in TASK_FIELDS {
            if other == field {
                assert_eq!(after.field(other), "changed");
            } else {
                assert_eq!(after.field(other), before.field(other));
            }
        }
        assert_eq!(after.subitems, before.subitems);
        assert_eq!(after.expanded, before.expanded);
        assert_eq!(after.color, before.color);
    }
}

#[test]
fn task_commit_writes_the_text() {
    let mut state = design_review();
    assert!(state.on_input_change(TaskField::Owner, &press_enter("Dana")));
    assert_eq!(state.owner, "Dana");
    assert!(state.on_input_change(TaskField::Budget, &press_enter("a lot")));
    assert_eq!(state.budget, "a lot");
    assert!(state.on_input_change(TaskField::Progress, &press_enter("50%")));
    assert_eq!(state.progress, "50%");
    assert_eq!(state.name, "Design review");
    assert_eq!(state.date, "2024-08-11");
}

#[test]
fn task_ignores_keys_that_commit_nothing() {
    let before = design_review();
    let mut state = before.clone();
    let typing = KeyDown { key: "D".to_string(), input_value: Some("D".to_string()) };
    assert!(!state.on_input_change(TaskField::Owner, &typing));
    let elsewhere = KeyDown { key: "Enter".to_string(), input_value: None };
    assert!(!state.on_input_change(TaskField::Owner, &elsewhere));
    assert_eq!(state, before);
}

#[test]
fn task_toggle_flips_and_flips_back() {
    let before = design_review();
    let mut state = before.clone();
    state.toggle_expand();
    assert!(state.shows_subitems());
    state.toggle_expand();
    assert_eq!(state, before);
}

#[test]
fn task_add_subitem_appends_and_reports() {
    let mut state = design_review();
    assert_eq!(state.add_subitem("Draft doc".to_string()), Some("Draft doc".to_string()));
    assert_eq!(state.subitem_count(), 2);
    assert_eq!(
        state.subitems,
        vec![
            SubitemData { name: "Agenda".to_string() },
            SubitemData { name: "Draft doc".to_string() },
        ]
    );
    assert_eq!(state.name, "Design review");
    assert_eq!(state.budget, "$0");
}

#[test]
fn task_add_subitem_rejects_an_empty_name() {
    let before = design_review();
    let mut state = before.clone();
    assert_eq!(state.add_subitem(String::new()), None);
    assert_eq!(state, before);
    assert_eq!(state.subitem_count(), 1);
}

#[test]
fn subitem_props_hand_down_name_and_color() {
    let mut state = design_review();
    state.add_subitem("Draft doc".to_string());
    assert_eq!(
        state.subitem_props(0),
        Some(SubitemProps { name: "Agenda".to_string(), color: Color::Orange })
    );
    assert_eq!(
        state.subitem_props(1),
        Some(SubitemProps { name: "Draft doc".to_string(), color: Color::Orange })
    );
    assert_eq!(state.subitem_props(2), None);
}

#[test]
fn task_and_group_keep_the_same_subitems() {
    let mut owner = group(&GroupProps { name: "G".to_string(), color: Color::Red, index: 0 });
    owner.add_task("Design review".to_string());
    owner.add_task("Ship".to_string());
    let mut shown = task(&owner.task_props(1).unwrap());
    for name in ["Tag release", "", "Announce"] {
        if let Some(report) = shown.add_subitem(name.to_string()) {
            owner.add_subitem(1, report);
        }
        assert_eq!(owner.task_props(1).unwrap().subitems, shown.subitems);
    }
    assert_eq!(shown.subitem_count(), 2);
    assert_eq!(owner.subitem_count(), 2);
    assert!(owner.task_props(0).unwrap().subitems.is_empty());
}

#[test]
fn add_task_row_submits_text_and_clears() {
    let mut row = add_task_row();
    assert_eq!(row.task_name, "");
    row.task_name = "left over".to_string();
    assert_eq!(row.on_keydown(&press_enter("Design review")), Some("Design review".to_string()));
    assert_eq!(row.task_name, "");
}

#[test]
fn add_task_row_ignores_empty_and_other_keys() {
    let mut row = add_task_row();
    row.task_name = "kept".to_string();
    assert_eq!(row.on_keydown(&press_enter("")), None);
    assert_eq!(row.task_name, "kept");
    let typing = KeyDown { key: "a".to_string(), input_value: Some("a".to_string()) };
    assert_eq!(row.on_keydown(&typing), None);
    let elsewhere = KeyDown { key: "Enter".to_string(), input_value: None };
    assert_eq!(row.on_keydown(&elsewhere), None);
    assert_eq!(row.task_name, "kept");
}

#[test]
fn add_subitem_row_submits_text_and_clears() {
    let mut row = add_subitem_row();
    assert_eq!(row.subitem_name, "");
    row.subitem_name = "left over".to_string();
    assert_eq!(row.on_keydown(&press_enter("Draft doc")), Some("Draft doc".to_string()));
    assert_eq!(row.subitem_name, "");
}

#[test]
fn add_subitem_row_ignores_empty_and_other_keys() {
    let mut row = add_subitem_row();
    row.subitem_name = "kept".to_string();
    assert_eq!(row.on_keydown(&press_enter("")), None);
    let typing = KeyDown { key: "a".to_string(), input_value: Some("a".to_string()) };
    assert_eq!(row.on_keydown(&typing), None);
    let elsewhere = KeyDown { key: "Enter".to_string(), input_value: None };
    assert_eq!(row.on_keydown(&elsewhere), None);
    assert_eq!(row.subitem_name, "kept");
    assert_eq!(row.clone(), row);
}

#[test]
fn an_empty_row_submission_leaves_the_lists_as_long_as_they_were() {
    let mut owner = group(&GroupProps { name: "G".to_string(), color: Color::Red, index: 0 });
    owner.add_task("Design review".to_string());
    let mut shown = task(&owner.task_props(0).unwrap());
    let mut task_row = add_task_row();
    let mut subitem_row = add_subitem_row();
    if let Some(name) = task_row.on_keydown(&press_enter("")) {
        owner.add_task(name);
    }
    if let Some(name) = subitem_row.on_keydown(&press_enter("")) {
        if let Some(report) = shown.add_subitem(name) {
            owner.add_subitem(0, report);
        }
    }
    assert_eq!(owner.task_count(), 1);
    assert_eq!(owner.subitem_count(), 0);
    assert_eq!(shown.subitem_count(), 0);
}
