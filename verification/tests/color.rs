use aircade_api::utils::color::{
    assign_player_color, get_next_available_color, next_available_color_index, player_color,
    PLAYER_COLOR_COUNT,
};

#[test]
fn test_assign_player_color() {
    assert_eq!(assign_player_color(0), "#FF6B6B");
    assert_eq!(assign_player_color(1), "#4ECDC4");
}

#[test]
fn test_color_wraps_around() {
    let color_at_16 = assign_player_color(16);
    let color_at_0 = assign_player_color(0);
    assert_eq!(color_at_16, color_at_0);
}

#[test]
fn test_get_next_available_color() {
    let taken = vec!["#FF6B6B".to_string(), "#4ECDC4".to_string()];
    assert_eq!(get_next_available_color(&taken), "#45B7D1");
}

#[test]
fn test_get_next_available_color_all_taken() {
    // When all colors are taken, should return the first color
    let taken: Vec<String> = (0..PLAYER_COLOR_COUNT).map(|i| player_color(i).to_string()).collect();
    assert_eq!(get_next_available_color(&taken), "#FF6B6B");
}

#[test]
fn palette_has_sixteen_distinct_colors() {
    let all: Vec<&str> = (0..PLAYER_COLOR_COUNT).map(player_color).collect();
    for i in 0..all.len() {
        for j in (i + 1)..all.len() {
            assert_ne!(all[i], all[j]);
        }
    }
    assert_eq!(all[PLAYER_COLOR_COUNT - 1], "#82E0AA");
}

#[test]
fn next_color_skips_taken_and_is_free() {
    let taken = vec!["#4ECDC4".to_string(), "#FF6B6B".to_string(), "#96CEB4".to_string()];
    let next = get_next_available_color(&taken);
    assert_eq!(next, "#45B7D1");
    assert!(!taken.iter().any(|t| t == next));
    assert_eq!(next_available_color_index(&taken), 2);
}

#[test]
fn next_color_ignores_unknown_colors() {
    let taken = vec!["blue".to_string()];
    assert_eq!(get_next_available_color(&taken), "#FF6B6B");
    assert_eq!(get_next_available_color(&[]), "#FF6B6B");
}

#[test]
fn assignment_cycles_through_palette() {
    for i in 0..40 {
        assert_eq!(assign_player_color(i), player_color(i % PLAYER_COLOR_COUNT));
    }
}
