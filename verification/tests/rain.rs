use rain_clock::config::Config;
use rain_clock::rain::{advance, call_rain, draw_cells, make_drop};

fn letters() -> Config {
    Config { interval: 100, frequency: 5, rain1: 'a', rain2: 'b' }
}

fn field(rows: &[&str]) -> Vec<String> {
    rows.iter().map(|r| r.to_string()).collect()
}

#[test]
fn make_drop_picks_by_the_draw() {
    let config = letters();
    assert_eq!(make_drop(0, &config), 'a');
    assert_eq!(make_drop(1, &config), 'b');
    assert_eq!(make_drop(2, &config), ' ');
    assert_eq!(make_drop(40, &config), ' ');
    assert_eq!(make_drop(usize::MAX, &config), ' ');
}

#[test]
fn make_drop_with_the_default_characters() {
    let config = Config::default();
    assert_eq!(make_drop(0, &config), '│');
    assert_eq!(make_drop(1, &config), ' ');
    assert_eq!(make_drop(2, &config), ' ');
}

#[test]
fn advance_puts_the_new_row_in_front() {
    let mut rain = field(&["old1", "old2"]);
    advance(&mut rain, 10, &letters(), &vec![0, 1, 2, 0, 5, 1]);
    assert_eq!(rain, field(&["ab a b", "old1", "old2"]));
}

#[test]
fn advance_on_an_empty_field() {
    let mut rain: Vec<String> = Vec::new();
    advance(&mut rain, 3, &letters(), &vec![1, 1, 0]);
    assert_eq!(rain, field(&["bba"]));
}

#[test]
fn advance_with_no_draws_gives_an_empty_row() {
    let mut rain = field(&["x"]);
    advance(&mut rain, 3, &letters(), &Vec::new());
    assert_eq!(rain, field(&["", "x"]));
}

#[test]
fn advance_cuts_a_field_that_is_higher_than_the_viewport() {
    let mut rain = field(&["r0", "r1", "r2", "r3", "r4"]);
    advance(&mut rain, 2, &letters(), &vec![0, 0]);
    assert_eq!(rain, field(&["aa", "r0"]));
}

#[test]
fn advance_drops_the_oldest_row_of_a_full_field() {
    let mut rain = field(&["r0", "r1", "r2"]);
    advance(&mut rain, 3, &letters(), &vec![2]);
    assert_eq!(rain, field(&[" ", "r0", "r1"]));
    advance(&mut rain, 3, &letters(), &vec![1]);
    assert_eq!(rain, field(&["b", " ", "r0"]));
}

#[test]
fn advance_fills_the_viewport_and_no_more() {
    for rows in [1u16, 2, 3, 7] {
        let mut rain: Vec<String> = Vec::new();
        for tick in 1usize..=12 {
            advance(&mut rain, rows, &letters(), &vec![tick]);
            assert_eq!(rain.len(), tick.min(rows as usize));
        }
    }
}

#[test]
fn advance_keeps_the_newest_rows_in_order() {
    let config = Config { interval: 100, frequency: 0, rain1: '|', rain2: '.' };
    let mut rain: Vec<String> = Vec::new();
    advance(&mut rain, 3, &config, &vec![0]);
    advance(&mut rain, 3, &config, &vec![1]);
    advance(&mut rain, 3, &config, &vec![2]);
    advance(&mut rain, 3, &config, &vec![0, 0]);
    assert_eq!(rain, field(&["||", " ", "."]));
}

#[test]
fn advance_stays_within_the_viewport_while_the_field_is_shorter() {
    let mut rain: Vec<String> = Vec::new();
    for tick in 0usize..7 {
        assert!(rain.len() < 7);
        advance(&mut rain, 7, &letters(), &vec![tick % 3]);
        assert_eq!(rain.len(), tick + 1);
        assert!(rain.len() <= 7);
    }
}

#[test]
fn advance_in_a_viewport_without_rows() {
    let mut rain = field(&["r0", "r1"]);
    advance(&mut rain, 0, &letters(), &vec![0]);
    assert_eq!(rain, Vec::<String>::new());
    advance(&mut rain, 0, &letters(), &vec![1]);
    assert_eq!(rain, Vec::<String>::new());
}

#[test]
fn advance_never_holds_more_rows_than_the_viewport() {
    let heights: [u16; 12] = [5, 5, 5, 5, 5, 5, 5, 2, 2, 9, 1, 0];
    let mut rain: Vec<String> = Vec::new();
    let mut expected: usize = 0;
    for (tick, rows) in heights.iter().enumerate() {
        advance(&mut rain, *rows, &letters(), &vec![tick, 0, 1]);
        expected = (expected + 1).min(*rows as usize);
        assert_eq!(rain.len(), expected);
        assert!(rain.len() <= *rows as usize);
    }
    assert_eq!(rain.len(), 0);
}

#[test]
fn advance_twice_with_the_same_draws_gives_the_same_rows() {
    let draws: Vec<usize> = vec![3, 0, 1, 1, 0, 2, 7, 0];
    let mut first = field(&["one", "two", "three"]);
    let mut second = field(&["one", "two", "three"]);
    for rows in [4u16, 2, 6, 1] {
        advance(&mut first, rows, &letters(), &draws);
        advance(&mut second, rows, &letters(), &draws);
        assert_eq!(first, second);
    }
    assert_eq!(first[0], " abba  a");
}

#[test]
fn advance_leaves_the_older_rows_as_they_were() {
    let mut rain = field(&["│ │", "  │"]);
    advance(&mut rain, 5, &Config::default(), &vec![0, 1, 40]);
    assert_eq!(rain, field(&["│  ", "│ │", "  │"]));
}

#[test]
fn draw_cells_gives_one_draw_in_range_for_each_cell() {
    let draws = draw_cells(200, 3);
    assert_eq!(draws.len(), 200);
    for draw in draws.iter() {
        assert!(*draw <= 3);
    }
    assert_eq!(draw_cells(0, 3), Vec::<usize>::new());
    assert_eq!(draw_cells(4, 0), vec![0, 0, 0, 0]);
}

#[test]
fn draw_cells_reaches_every_number_of_the_range() {
    let draws = draw_cells(2000, 2);
    for wanted in 0usize..=2 {
        assert!(draws.contains(&wanted));
    }
}

#[test]
fn call_rain_adds_a_row_as_wide_as_the_viewport() {
    let config = letters();
    let mut rain: Vec<String> = Vec::new();
    call_rain(&mut rain, 17, 4, &config);
    assert_eq!(rain.len(), 1);
    assert_eq!(rain[0].chars().count(), 17);
    for c in rain[0].chars() {
        assert!(c == 'a' || c == 'b' || c == ' ');
    }
}

#[test]
fn call_rain_keeps_the_older_rows_behind_the_new_one() {
    let mut rain = field(&["first", "second"]);
    call_rain(&mut rain, 3, 8, &letters());
    assert_eq!(rain.len(), 3);
    assert_eq!(rain[1], "first");
    assert_eq!(rain[2], "second");
}

#[test]
fn call_rain_cuts_the_field_to_the_viewport() {
    let mut rain = field(&["r0", "r1", "r2", "r3"]);
    call_rain(&mut rain, 2, 2, &letters());
    assert_eq!(rain.len(), 2);
    assert_eq!(rain[0].chars().count(), 2);
    assert_eq!(rain[1], "r0");
}

#[test]
fn call_rain_on_three_rows_in_a_viewport_of_two() {
    let config = Config { interval: 100, frequency: 0, rain1: '|', rain2: '.' };
    let mut rain = field(&["a", "b", "c"]);
    call_rain(&mut rain, 1, 2, &config);
    assert_eq!(rain, field(&["|", "a"]));
}

#[test]
fn call_rain_from_an_empty_field_fills_the_viewport() {
    let config = Config::default();
    for rows in [1u16, 2, 5] {
        let mut rain: Vec<String> = Vec::new();
        for tick in 1usize..=9 {
            call_rain(&mut rain, 4, rows, &config);
            assert_eq!(rain.len(), tick.min(rows as usize));
        }
    }
}

#[test]
fn call_rain_in_a_viewport_without_rows() {
    let mut rain = field(&["a", "b"]);
    call_rain(&mut rain, 7, 0, &Config::default());
    assert_eq!(rain, Vec::<String>::new());
}

#[test]
fn call_rain_with_frequency_zero_rains_the_first_character_only() {
    let config = Config { interval: 100, frequency: 0, rain1: '│', rain2: 'x' };
    let mut rain: Vec<String> = Vec::new();
    for _ in 0..5 {
        call_rain(&mut rain, 30, 10, &config);
    }
    assert_eq!(rain.len(), 5);
    for row in rain.iter() {
        assert_eq!(row.chars().count(), 30);
        assert!(row.chars().all(|c| c == '│'));
    }
}

#[test]
fn call_rain_with_frequency_one_rains_both_characters() {
    let config = Config { interval: 100, frequency: 1, rain1: 'a', rain2: 'b' };
    let mut rain: Vec<String> = Vec::new();
    call_rain(&mut rain, 2000, 3, &config);
    assert!(rain[0].chars().all(|c| c == 'a' || c == 'b'));
    assert!(rain[0].contains('a'));
    assert!(rain[0].contains('b'));
}

#[test]
fn call_rain_over_changing_viewports() {
    let config = Config::default();
    let sizes: [(u16, u16); 8] =
        [(80, 24), (80, 24), (80, 24), (40, 2), (40, 2), (120, 50), (10, 1), (0, 0)];
    let mut rain: Vec<String> = Vec::new();
    for (columns, rows) in sizes {
        call_rain(&mut rain, columns, rows, &config);
        assert!(rain.len() <= rows as usize);
        if rows >= 1 {
            assert_eq!(rain[0].chars().count(), columns as usize);
        }
    }
}

#[test]
fn call_rain_in_a_viewport_without_columns() {
    let mut rain: Vec<String> = Vec::new();
    call_rain(&mut rain, 0, 5, &Config::default());
    assert_eq!(rain, vec![String::new()]);
}
