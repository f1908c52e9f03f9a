use task_board::palette::{Color, PALETTE_LEN};

#[test]
fn palette_positions_round_trip() {
    for i in 0..PALETTE_LEN {
        let color = Color::from_index(i).unwrap();
        assert_eq!(color.index(), i);
    }
}

#[test]
fn palette_ends_after_five_colors() {
    assert_eq!(PALETTE_LEN, 5);
    assert_eq!(Color::from_index(5), None);
    assert_eq!(Color::from_index(usize::MAX), None);
}

#[test]
fn palette_order_and_names() {
    let names: Vec<&str> = (0..PALETTE_LEN)
        .map(|i| Color::from_index(i).unwrap().name())
        .collect();
    assert_eq!(names, vec!["red", "blue", "green", "purple", "orange"]);
    assert_eq!(Color::from_index(0), Some(Color::Red));
    assert_eq!(Color::from_index(4), Some(Color::Orange));
    assert_eq!(Color::Purple.index(), 3);
}
