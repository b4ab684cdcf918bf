use game_of_life::Cell;

#[test]
fn a_live_cell_with_fewer_than_two_neighbors_dies() {
    assert_eq!(Cell::Alive.next(0), Cell::Dead);
    assert_eq!(Cell::Alive.next(1), Cell::Dead);
}

#[test]
fn a_live_cell_with_two_or_three_neighbors_lives_on() {
    assert_eq!(Cell::Alive.next(2), Cell::Alive);
    assert_eq!(Cell::Alive.next(3), Cell::Alive);
}

#[test]
fn a_live_cell_with_more_than_three_neighbors_dies() {
    for n in 4..=8 {
        assert_eq!(Cell::Alive.next(n), Cell::Dead, "{} neighbours", n);
    }
}

#[test]
fn a_dead_cell_with_three_neighbors_comes_alive() {
    assert_eq!(Cell::Dead.next(3), Cell::Alive);
}

#[test]
fn a_dead_cell_with_any_other_count_stays_dead() {
    for n in [0u8, 1, 2, 4, 5, 6, 7, 8] {
        assert_eq!(Cell::Dead.next(n), Cell::Dead, "{} neighbours", n);
    }
}

#[test]
fn the_rule_is_total_on_counts_beyond_eight() {
    assert_eq!(Cell::Alive.next(9), Cell::Dead);
    assert_eq!(Cell::Alive.next(u8::MAX), Cell::Dead);
    assert_eq!(Cell::Dead.next(9), Cell::Dead);
    assert_eq!(Cell::Dead.next(u8::MAX), Cell::Dead);
}

#[test]
fn the_glyphs_are_the_two_squares() {
    assert_eq!(Cell::Alive.glyph(), '◼');
    assert_eq!(Cell::Dead.glyph(), '◻');
    assert_eq!(Cell::Alive.glyph(), '\u{25FC}');
    assert_eq!(Cell::Dead.glyph(), '\u{25FB}');
    assert_ne!(Cell::Alive.glyph(), Cell::Dead.glyph());
}
