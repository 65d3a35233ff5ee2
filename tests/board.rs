use hex_chess::board::{classify_tile, generate_board, BoardState};
use hex_chess::chess::{ChessTile, Occupation, Team, TileColor};
use hex_chess::coord::HexCoord;

fn h(q: i32, r: i32) -> HexCoord {
    HexCoord::new(q, r)
}

#[test]
fn board_of_radius_five_has_91_tiles() {
    let coords = generate_board(h(0, 0), 5);
    assert_eq!(coords.len(), 91);
    assert_eq!(classify_tile(h(0, 0)), TileColor::GREY);
}

#[test]
fn classify_scenarios() {
    assert_eq!(classify_tile(h(2, 1)), TileColor::BLACK);
    assert_eq!(classify_tile(h(2, 3)), TileColor::WHITE);
}

#[test]
fn classify_far_negative() {
    assert_eq!(classify_tile(h(i32::MAX, i32::MIN)), TileColor::GREY);
    assert_eq!(classify_tile(h(-4, -4)), TileColor::GREY);
    assert_eq!(classify_tile(h(0, -2)), TileColor::WHITE);
    assert_eq!(classify_tile(h(0, -1)), TileColor::BLACK);
}

#[test]
fn board_count_formula() {
    for radius in 0u32..8 {
        let coords = generate_board(h(3, -2), radius);
        assert_eq!(coords.len() as u32, 1 + 3 * radius * (radius + 1));
        for (i, a) in coords.iter().enumerate() {
            assert!(a.distance(&h(3, -2)) <= radius as u64);
            for b in coords.iter().skip(i + 1) {
                assert_ne!(a, b);
            }
        }
    }
}

#[test]
fn radius_zero_is_the_origin_alone() {
    let coords = generate_board(h(7, 9), 0);
    assert_eq!(coords, vec![h(7, 9)]);
}

#[test]
fn board_holds_the_whole_hexagon() {
    let coords = generate_board(h(1, 1), 2);
    for q in -3..=5 {
        for r in -3..=5 {
            let c = h(q, r);
            assert_eq!(coords.contains(&c), c.distance(&h(1, 1)) <= 2);
        }
    }
}

#[test]
fn colours_partition_the_board() {
    let b = BoardState::new(h(0, 0), 5);
    let mut counts = [0usize; 3];
    for (c, t) in b.coords.iter().zip(b.tiles.iter()) {
        let d = (c.r - c.q).rem_euclid(3);
        let expected = match d {
            0 => TileColor::GREY,
            1 => TileColor::WHITE,
            _ => TileColor::BLACK,
        };
        assert_eq!(t.color, expected);
        assert_eq!(t.piece, Occupation::NONE);
        match t.color {
            TileColor::GREY => counts[0] += 1,
            TileColor::WHITE => counts[1] += 1,
            TileColor::BLACK => counts[2] += 1,
        }
    }
    assert_eq!(counts[0] + counts[1] + counts[2], 91);
}

#[test]
fn board_lookup() {
    let b = BoardState::new(h(0, 0), 5);
    assert!(b.contains(h(5, -5)));
    assert!(!b.contains(h(5, 1)));
    assert_eq!(b.tile(h(2, 1)), Some(ChessTile::new(TileColor::BLACK, Occupation::NONE)));
    assert_eq!(b.tile(h(6, 0)), None);
    assert!(b.index_of(h(0, 0)).is_some());
    assert_eq!(b.index_of(h(0, 6)), None);
}

#[test]
fn set_piece_changes_one_tile() {
    let mut b = BoardState::new(h(0, 0), 2);
    assert!(b.set_piece(h(1, 0), Occupation::KNIGHT(Team::WHITE)));
    assert_eq!(b.tile(h(1, 0)), Some(ChessTile::new(TileColor::BLACK, Occupation::KNIGHT(Team::WHITE))));
    assert_eq!(b.tile(h(0, 1)).map(|t| t.piece), Some(Occupation::NONE));
    assert!(!b.set_piece(h(3, 0), Occupation::KING(Team::BLACK)));
    assert_eq!(b.coords.len(), 19);
}

#[test]
fn chess_tile_new_keeps_fields() {
    let t = ChessTile::new(TileColor::GREY, Occupation::QUEEN(Team::BLACK));
    assert_eq!(t.color, TileColor::GREY);
    assert_eq!(t.piece, Occupation::QUEEN(Team::BLACK));
}
