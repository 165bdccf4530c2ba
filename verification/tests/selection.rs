use mvg_fahrinfo::SelectionState;

#[test]
fn fresh_selection_is_unset() {
    let s = SelectionState::new();
    assert_eq!(s.selected(), None);
    let d = SelectionState::default();
    assert_eq!(d.selected(), None);
}

#[test]
fn advance_from_unset_selects_first() {
    let mut s = SelectionState::new();
    s.advance(5);
    assert_eq!(s.selected(), Some(0));
}

#[test]
fn retreat_from_unset_selects_first() {
    let mut s = SelectionState::new();
    s.retreat(5);
    assert_eq!(s.selected(), Some(0));
}

#[test]
fn advance_wraps_from_last_to_first() {
    let mut s = SelectionState::new();
    s.advance(3);
    s.advance(3);
    s.advance(3);
    assert_eq!(s.selected(), Some(2));
    s.advance(3);
    assert_eq!(s.selected(), Some(0));
}

#[test]
fn retreat_wraps_from_first_to_last() {
    let mut s = SelectionState::new();
    s.advance(3);
    assert_eq!(s.selected(), Some(0));
    s.retreat(3);
    assert_eq!(s.selected(), Some(2));
}

#[test]
fn empty_list_never_selects() {
    let mut s = SelectionState::new();
    s.advance(0);
    assert_eq!(s.selected(), None);
    s.retreat(0);
    assert_eq!(s.selected(), None);
}

#[test]
fn empty_list_clears_existing_selection() {
    let mut s = SelectionState::new();
    s.advance(4);
    assert_eq!(s.selected(), Some(0));
    s.advance(0);
    assert_eq!(s.selected(), None);
}

#[test]
fn any_move_sequence_stays_in_bounds() {
    for n in 0..6usize {
        let mut s = SelectionState::new();
        for step in 0..50usize {
            if step % 3 == 0 {
                s.advance(n);
            } else {
                s.retreat(n);
            }
            match s.selected() {
                Some(i) => assert!(i < n),
                None => assert_eq!(n, 0),
            }
        }
    }
}

#[test]
fn single_entry_list_stays_on_it() {
    let mut s = SelectionState::new();
    s.advance(1);
    assert_eq!(s.selected(), Some(0));
    s.advance(1);
    assert_eq!(s.selected(), Some(0));
    s.retreat(1);
    assert_eq!(s.selected(), Some(0));
}
