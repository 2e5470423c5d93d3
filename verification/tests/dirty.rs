use kiro_screen::dirty::mark_dirty;

#[test]
fn first_mark_on_a_clean_screen() {
    assert_eq!(mark_dirty(None, 5), Some(5));
    assert_eq!(mark_dirty(None, 0), Some(0));
}

#[test]
fn merge_keeps_the_smaller_line() {
    assert_eq!(mark_dirty(Some(3), 7), Some(3));
    assert_eq!(mark_dirty(Some(7), 3), Some(3));
    assert_eq!(mark_dirty(Some(4), 4), Some(4));
}

#[test]
fn merge_is_the_minimum_in_both_orders() {
    for a in 0..6usize {
        for b in 0..6usize {
            let min = if a < b { a } else { b };
            assert_eq!(mark_dirty(mark_dirty(None, a), b), Some(min));
            assert_eq!(mark_dirty(mark_dirty(None, b), a), Some(min));
        }
    }
}

#[test]
fn merge_is_idempotent_and_never_increases() {
    for start in [None, Some(0usize), Some(2), Some(9)] {
        for a in 0..12usize {
            let once = mark_dirty(start, a);
            assert_eq!(mark_dirty(once, a), once);
            let m = once.unwrap();
            assert!(m <= a);
            if let Some(s) = start {
                assert!(m <= s);
            }
        }
    }
}
