use timeline::colors::{get_color, get_palette, PALETTE_COUNT};

#[test]
fn palette_for_n_runs_has_n_colors() {
    for n in 0..PALETTE_COUNT {
        assert_eq!(get_palette(n).len(), n);
    }
}

#[test]
fn there_are_forty_one_palettes() {
    assert_eq!(PALETTE_COUNT, 41);
}

#[test]
fn small_palettes() {
    assert!(get_palette(0).is_empty());
    assert_eq!(get_palette(1), ["#A57C65"]);
    assert_eq!(get_palette(2), ["#ED8C72", "#688B8A"]);
    assert_eq!(get_palette(3), ["#C9A66B", "#488A99", "#CE5A57"]);
}

#[test]
fn ends_of_the_largest_palette() {
    let colors = get_palette(40);
    assert_eq!(colors[0], "#EB8A3E");
    assert_eq!(colors[39], "#D72C16");
}

#[test]
fn every_color_is_a_hash_and_six_hex_digits() {
    for n in 0..PALETTE_COUNT {
        for color in get_palette(n) {
            assert_eq!(color.len(), 7);
            assert!(color.starts_with('#'));
            assert!(color[1..].chars().all(|c| c.is_ascii_hexdigit()));
        }
    }
}

#[test]
fn color_of_a_run() {
    assert_eq!(get_color(0, 3), "#C9A66B");
    assert_eq!(get_color(1, 3), "#488A99");
    assert_eq!(get_color(2, 3), "#CE5A57");
    assert_eq!(get_color(0, 1), "#A57C65");
}

#[test]
fn color_beyond_the_palette_is_white() {
    assert_eq!(get_color(3, 3), "#FFFFFF");
    assert_eq!(get_color(0, 0), "#FFFFFF");
    assert_eq!(get_color(100, 40), "#FFFFFF");
}

#[test]
fn get_color_agrees_with_get_palette() {
    for n in 0..PALETTE_COUNT {
        for i in 0..n {
            assert_eq!(get_color(i, n), get_palette(n)[i]);
        }
    }
}
