use snake_game::config::calculate_offsets;
use snake_game::config::new_game;
use snake_game::config::FieldSize;
use snake_game::game::GameStatus;

#[test]
fn preset_dimensions_match_the_menu() {
    let sizes = FieldSize::all();
    let expected = [
        ("Tiny", 20, 10),
        ("Small", 30, 20),
        ("Medium", 40, 30),
        ("Large", 60, 40),
    ];
    assert_eq!(sizes.len(), expected.len());
    for (preset, (label, w, h)) in sizes.iter().zip(expected) {
        assert_eq!(preset.label(), label);
        assert_eq!(preset.width(), w);
        assert_eq!(preset.height(), h);
        assert_eq!(preset.required_width(), w + 2);
        assert_eq!(preset.required_height(), h + 5);
    }
}

#[test]
fn fits_needs_border_and_panel_room() {
    assert!(FieldSize::Tiny.fits(22, 15));
    assert!(!FieldSize::Tiny.fits(21, 15));
    assert!(!FieldSize::Tiny.fits(22, 14));
    // A classic 80x24 terminal takes Tiny but not Small (25 rows needed).
    assert!(FieldSize::Tiny.fits(80, 24));
    assert!(!FieldSize::Small.fits(80, 24));
    assert!(FieldSize::Large.fits(62, 45));
    assert!(!FieldSize::Large.fits(61, 45));
}

#[test]
fn presets_build_fresh_games() {
    for size in FieldSize::all() {
        let game = new_game(size);
        assert_eq!(game.game_width, size.width());
        assert_eq!(game.game_height, size.height());
        assert_eq!(game.score, 0);
        assert_eq!(game.status, GameStatus::Playing);
        assert!(game.waiting_for_start);
        assert_eq!(game.snake.len(), 3);
    }
}

#[test]
fn offsets_center_the_frame() {
    assert_eq!(calculate_offsets(20, 10, 80, 24), (29, 4));
    assert_eq!(calculate_offsets(20, 10, 22, 15), (0, 0));
    // A terminal too small to center in pins the frame to the corner.
    assert_eq!(calculate_offsets(20, 10, 10, 5), (0, 0));
    assert_eq!(calculate_offsets(60, 40, 100, 50), (19, 2));
}
