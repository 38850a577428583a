use dotfile_browser::selection::Selection;

#[test]
fn a_selection_starts_on_the_first_entry() {
    let selection = Selection::new(3);
    assert_eq!(selection.index(), Some(0));
    assert_eq!(selection.count(), 3);
}

#[test]
fn a_selection_over_nothing_is_absent() {
    let selection = Selection::new(0);
    assert_eq!(selection.index(), None);
    assert_eq!(selection.count(), 0);
}

#[test]
fn down_moves_by_one_and_stops_at_the_last_entry() {
    let mut selection = Selection::new(3);
    selection.down();
    assert_eq!(selection.index(), Some(1));
    selection.down();
    assert_eq!(selection.index(), Some(2));
    selection.down();
    assert_eq!(selection.index(), Some(2));
    selection.down();
    assert_eq!(selection.index(), Some(2));
    assert_eq!(selection.count(), 3);
}

#[test]
fn up_moves_by_one_and_stops_at_the_first_entry() {
    let mut selection = Selection::new(3);
    selection.up();
    assert_eq!(selection.index(), Some(0));
    selection.down();
    selection.down();
    selection.up();
    assert_eq!(selection.index(), Some(1));
    selection.up();
    assert_eq!(selection.index(), Some(0));
    selection.up();
    assert_eq!(selection.index(), Some(0));
}

#[test]
fn a_single_entry_stays_selected() {
    let mut selection = Selection::new(1);
    selection.down();
    assert_eq!(selection.index(), Some(0));
    selection.up();
    assert_eq!(selection.index(), Some(0));
}

#[test]
fn an_absent_selection_does_not_move() {
    let mut selection = Selection::new(0);
    selection.down();
    assert_eq!(selection.index(), None);
    selection.up();
    assert_eq!(selection.index(), None);
    assert_eq!(selection.count(), 0);
}

#[test]
fn the_largest_list_does_not_overflow() {
    let mut selection = Selection::new(usize::MAX);
    selection.up();
    assert_eq!(selection.index(), Some(0));
    selection.down();
    assert_eq!(selection.index(), Some(1));
}

#[test]
fn moves_in_any_order_stay_inside_the_list() {
    let mut seed: u64 = 0x2545_f491_4f6c_dd1d;
    for count in 1..20usize {
        let mut selection = Selection::new(count);
        let mut expected: usize = 0;
        for _ in 0..500 {
            seed = seed
                .wrapping_mul(6364136223846793005)
                .wrapping_add(1442695040888963407);
            if (seed >> 33) % 2 == 0 {
                selection.down();
                if expected + 1 < count {
                    expected += 1;
                }
            } else {
                selection.up();
                if expected > 0 {
                    expected -= 1;
                }
            }
            let index = selection.index().unwrap();
            assert!(index < count);
            assert_eq!(index, expected);
        }
    }
}
