use wifi_select::selection::Selection;

#[test]
fn move_up_floors_at_zero() {
    let mut s = Selection::new();
    assert_eq!(s.index, 0);
    s.move_up();
    assert_eq!(s.index, 0);
}

#[test]
fn move_up_converges_to_zero() {
    let mut s = Selection { index: 2 };
    s.move_up();
    assert_eq!(s.index, 1);
    s.move_up();
    assert_eq!(s.index, 0);
    s.move_up();
    assert_eq!(s.index, 0);
}

#[test]
fn move_down_caps_at_last_entry() {
    let mut s = Selection::new();
    s.move_down(3);
    assert_eq!(s.index, 1);
    s.move_down(3);
    assert_eq!(s.index, 2);
    s.move_down(3);
    assert_eq!(s.index, 2);
}

#[test]
fn move_down_converges_to_last_entry() {
    let mut s = Selection { index: 0 };
    for _ in 0..10 {
        s.move_down(4);
    }
    assert_eq!(s.index, 3);
}

#[test]
fn move_down_on_single_entry_list_stays_put() {
    let mut s = Selection::new();
    s.move_down(1);
    assert_eq!(s.index, 0);
}
