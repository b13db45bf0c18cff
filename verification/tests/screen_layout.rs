use wall_e::screen::{menu_height, message_height, pin_slot, word_cell, PinSlot, WordCell};

#[test]
fn message_height_rounds_each_line_up() {
    assert_eq!(message_height(&vec![10, 3], 4), 3 + 1);
    assert_eq!(message_height(&vec![8], 4), 2);
    assert_eq!(message_height(&vec![], 10), 1);
    assert_eq!(message_height(&vec![0, 0], 10), 1);
    // a width of zero counts as one column
    assert_eq!(message_height(&vec![5], 0), 5);
}

#[test]
fn menu_height_leaves_a_row_between_items() {
    assert_eq!(menu_height(0), 0);
    assert_eq!(menu_height(1), 1);
    assert_eq!(menu_height(4), 7);
}

#[test]
fn pin_slots_and_word_cells() {
    assert_eq!(pin_slot(0, 2), PinSlot::Filled);
    assert_eq!(pin_slot(2, 2), PinSlot::Cursor);
    assert_eq!(pin_slot(5, 2), PinSlot::Empty);
    assert_eq!(word_cell(0, 3), WordCell::Entered);
    assert_eq!(word_cell(2, 3), WordCell::Current);
    assert_eq!(word_cell(3, 3), WordCell::Future);
    assert_eq!(word_cell(0, 0), WordCell::Future);
}
