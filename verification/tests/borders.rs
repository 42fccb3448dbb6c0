use hermes_tui_rust::ui::banner::Banner;
use hermes_tui_rust::ui::borders::{
    border_cells, get_perimeter_pos, is_border_symbol, may_draw_over, piece_symbol, BorderPiece,
};
use hermes_tui_rust::ui::gif::AnimatedGif;

#[test]
fn border_symbols() {
    assert!(is_border_symbol("┏"));
    assert!(is_border_symbol("╰"));
    assert!(!is_border_symbol("x"));
    assert!(may_draw_over(" "));
    assert!(may_draw_over(""));
    assert!(!may_draw_over("a"));
    assert_eq!(piece_symbol(BorderPiece::TopLeft, true), "┏");
    assert_eq!(piece_symbol(BorderPiece::Horizontal, false), "─");
}

#[test]
fn perimeter_positions_go_clockwise() {
    assert_eq!(get_perimeter_pos(0, 0, 5, 4), 0);
    assert_eq!(get_perimeter_pos(4, 0, 5, 4), 4);
    assert_eq!(get_perimeter_pos(4, 2, 5, 4), 6);
    assert_eq!(get_perimeter_pos(1, 3, 5, 4), 10);
    assert_eq!(get_perimeter_pos(0, 1, 5, 4), 13);
}

#[test]
fn border_cells_of_a_box() {
    let cells = border_cells(1, 1, 4, 3);
    assert_eq!(cells.len(), 4 + 4 + 2);
    assert_eq!(cells[0], (1, 1, BorderPiece::TopLeft));
    assert_eq!(cells[3], (4, 3, BorderPiece::BottomRight));
    assert_eq!(cells[4], (2, 1, BorderPiece::Horizontal));
    assert_eq!(cells[5], (2, 3, BorderPiece::Horizontal));
    assert_eq!(cells[8], (1, 2, BorderPiece::Vertical));
    assert_eq!(cells[9], (4, 2, BorderPiece::Vertical));
    assert!(border_cells(0, 0, 1, 5).is_empty());
}

#[test]
fn gif_frames_cycle() {
    assert!(AnimatedGif::from_frames(Vec::new()).is_none());
    let gif = AnimatedGif::from_frames(vec!["a".to_string(), "b".to_string(), "c".to_string()]).unwrap();
    assert_eq!(gif.frame_count(), 3);
    assert_eq!(gif.get_frame(0, 100), "a");
    assert_eq!(gif.get_frame(250, 100), "c");
    assert_eq!(gif.get_frame(300, 100), "a");
}

#[test]
fn mini_banner_dashes() {
    let b = Banner;
    assert_eq!(b.mini_dashes(24), (5, 5));
    assert_eq!(b.mini_dashes(25), (5, 6));
    assert_eq!(b.mini_dashes(10), (0, 0));
}
