use minefield::{Board, Tile, TileStatus, TileValue};

fn open_all(b: &mut Board) -> Vec<TileValue> {
    let mut values = Vec::new();
    for y in 0..b.height() {
        for x in 0..b.width() {
            assert_eq!(b.open(x, y), Some(()));
            values.push(b.tile(x, y).unwrap().value().unwrap());
        }
    }
    values
}

fn brute_force_count(mines: &[usize], width: usize, height: usize, x: usize, y: usize) -> usize {
    let mut n = 0;
    for dy in -1i64..=1 {
        for dx in -1i64..=1 {
            if dx == 0 && dy == 0 {
                continue;
            }
            let nx = x as i64 + dx;
            let ny = y as i64 + dy;
            if nx >= 0 && ny >= 0 && (nx as usize) < width && (ny as usize) < height {
                let i = nx as usize + ny as usize * width;
                if mines.contains(&i) {
                    n += 1;
                }
            }
        }
    }
    n
}

#[test]
fn center_mine_surrounded_by_ones() {
    let mut b = Board::with_mines(3, 3, &vec![4]);
    let values = open_all(&mut b);
    for (i, v) in values.iter().enumerate() {
        if i == 4 {
            assert_eq!(*v, TileValue::Mine);
        } else {
            assert_eq!(*v, TileValue::Neighbored(1));
        }
    }
}

#[test]
fn corner_mine_counts() {
    let mut b = Board::with_mines(3, 3, &vec![0]);
    let values = open_all(&mut b);
    assert_eq!(values[0], TileValue::Mine);
    assert_eq!(values[1], TileValue::Neighbored(1));
    assert_eq!(values[3], TileValue::Neighbored(1));
    assert_eq!(values[4], TileValue::Neighbored(1));
    assert_eq!(values[2], TileValue::Neighbored(0));
    assert_eq!(values[8], TileValue::Neighbored(0));
}

#[test]
fn no_wrap_around_between_rows() {
    // A mine at the end of the first row is no neighbour of the start of the second.
    let mut b = Board::with_mines(4, 2, &vec![3]);
    let values = open_all(&mut b);
    assert_eq!(values[4], TileValue::Neighbored(0));
    assert_eq!(values[0], TileValue::Neighbored(0));
    assert_eq!(values[2], TileValue::Neighbored(1));
    assert_eq!(values[6], TileValue::Neighbored(1));
    assert_eq!(values[7], TileValue::Neighbored(1));
}

#[test]
fn counts_match_brute_force() {
    let width = 5;
    let height = 4;
    let mines = vec![0, 3, 7, 12, 13, 19];
    let mut b = Board::with_mines(width, height, &mines);
    let values = open_all(&mut b);
    for y in 0..height {
        for x in 0..width {
            let i = x + y * width;
            if mines.contains(&i) {
                assert_eq!(values[i], TileValue::Mine);
            } else {
                let n = brute_force_count(&mines, width, height, x, y);
                assert_eq!(values[i], TileValue::Neighbored(n));
            }
        }
    }
}

#[test]
fn corner_and_edge_maxima() {
    // Every tile but one a mine: corner 3, edge 5, interior 8.
    let all_but_corner: Vec<usize> = (1..9).collect();
    let mut b = Board::with_mines(3, 3, &all_but_corner);
    let values = open_all(&mut b);
    assert_eq!(values[0], TileValue::Neighbored(3));
    let all_but_center: Vec<usize> = (0..9).filter(|&i| i != 4).collect();
    let mut b = Board::with_mines(3, 3, &all_but_center);
    let values = open_all(&mut b);
    assert_eq!(values[4], TileValue::Neighbored(8));
    let all_but_edge: Vec<usize> = (0..9).filter(|&i| i != 1).collect();
    let mut b = Board::with_mines(3, 3, &all_but_edge);
    let values = open_all(&mut b);
    assert_eq!(values[1], TileValue::Neighbored(5));
}

#[test]
fn random_board_has_exact_mine_count() {
    for &(w, h, m) in &[(3usize, 3usize, 1usize), (5, 4, 7), (4, 4, 16), (6, 2, 0), (1, 1, 1)] {
        let mut b = Board::new(w, h, m);
        assert_eq!(b.width(), w);
        assert_eq!(b.height(), h);
        assert_eq!(b.mines(), m);
        assert_eq!(b.active_mines(), m);
        assert_eq!(b.turn(), 0);
        let values = open_all(&mut b);
        assert_eq!(values.len(), w * h);
        assert_eq!(values.iter().filter(|v| **v == TileValue::Mine).count(), m);
    }
}

#[test]
fn random_board_counts_match_brute_force() {
    let (w, h) = (7, 5);
    let mut b = Board::new(w, h, 11);
    let values = open_all(&mut b);
    let mines: Vec<usize> = (0..w * h).filter(|&i| values[i] == TileValue::Mine).collect();
    assert_eq!(mines.len(), 11);
    for y in 0..h {
        for x in 0..w {
            let i = x + y * w;
            if values[i] != TileValue::Mine {
                assert_eq!(values[i], TileValue::Neighbored(brute_force_count(&mines, w, h, x, y)));
            }
        }
    }
}

#[test]
fn new_board_is_blank() {
    let b = Board::new(4, 3, 5);
    for y in 0..3 {
        for x in 0..4 {
            let t = b.tile(x, y).unwrap();
            assert_eq!(t.status(), TileStatus::Blank);
            assert_eq!(t.value(), None);
        }
    }
}

#[test]
fn flag_succeeds_once() {
    let mut b = Board::with_mines(3, 3, &vec![4, 8]);
    assert_eq!(b.flag(1, 1), Some(()));
    assert_eq!(b.turn(), 1);
    assert_eq!(b.active_mines(), 1);
    assert_eq!(b.tile(1, 1).unwrap().status(), TileStatus::Flagged);
    assert_eq!(b.flag(1, 1), None);
    assert_eq!(b.turn(), 1);
    assert_eq!(b.active_mines(), 1);
}

#[test]
fn flag_counts_non_mines_too() {
    let mut b = Board::with_mines(3, 3, &vec![4, 8]);
    assert_eq!(b.flag(0, 0), Some(()));
    assert_eq!(b.active_mines(), 1);
    assert_eq!(b.turn(), 1);
}

#[test]
fn flag_out_of_bounds_changes_nothing() {
    let mut b = Board::with_mines(3, 2, &vec![1]);
    assert_eq!(b.flag(3, 0), None);
    assert_eq!(b.flag(0, 2), None);
    assert_eq!(b.turn(), 0);
    assert_eq!(b.active_mines(), 1);
}

#[test]
fn flag_open_tile() {
    let mut b = Board::with_mines(2, 2, &vec![3]);
    assert_eq!(b.open(0, 0), Some(()));
    assert_eq!(b.flag(0, 0), Some(()));
    assert_eq!(b.tile(0, 0).unwrap().status(), TileStatus::Flagged);
    assert_eq!(b.tile(0, 0).unwrap().value(), None);
}

#[test]
fn active_mines_and_flags_balance() {
    let mut b = Board::with_mines(4, 4, &vec![0, 5, 10, 15]);
    let mut flagged = 0;
    for (x, y) in [(0, 0), (1, 0), (2, 2), (3, 3)] {
        assert_eq!(b.flag(x, y), Some(()));
        flagged += 1;
        assert_eq!(b.active_mines() + flagged, b.mines());
        assert_eq!(b.turn(), flagged);
    }
}

#[test]
fn active_mines_stops_at_zero() {
    let mut b = Board::with_mines(2, 1, &vec![0]);
    assert_eq!(b.flag(1, 0), Some(()));
    assert_eq!(b.active_mines(), 0);
    assert_eq!(b.flag(0, 0), Some(()));
    assert_eq!(b.active_mines(), 0);
    assert_eq!(b.turn(), 2);
}

#[test]
fn tile_out_of_bounds() {
    let mut b = Board::with_mines(3, 2, &vec![0]);
    assert!(b.tile(3, 0).is_none());
    assert!(b.tile(0, 2).is_none());
    assert!(b.tile(usize::MAX, usize::MAX).is_none());
    b.flag(2, 1);
    b.open(1, 1);
    assert!(b.tile(3, 1).is_none());
    assert!(b.tile(2, 2).is_none());
}

#[test]
fn empty_grids_have_no_tiles() {
    for (w, h) in [(0usize, 0usize), (0, 5), (5, 0)] {
        let mut b = Board::new(w, h, 0);
        assert!(b.tile(0, 0).is_none());
        assert!(b.tile(w, h).is_none());
        assert_eq!(b.flag(0, 0), None);
        assert_eq!(b.open(0, 0), None);
    }
}

#[test]
fn open_reveals_value() {
    let mut b = Board::with_mines(2, 2, &vec![1]);
    assert_eq!(b.open(1, 0), Some(()));
    assert_eq!(b.tile(1, 0).unwrap().value(), Some(TileValue::Mine));
    assert_eq!(b.open(1, 0), Some(()));
    assert_eq!(b.open(2, 0), None);
    assert_eq!(b.turn(), 0);
    assert_eq!(b.active_mines(), 1);
}

#[test]
fn open_refuses_flagged_tile() {
    let mut b = Board::with_mines(2, 2, &vec![1]);
    assert_eq!(b.flag(0, 1), Some(()));
    assert_eq!(b.open(0, 1), None);
    assert_eq!(b.tile(0, 1).unwrap().status(), TileStatus::Flagged);
}

#[test]
fn tile_new_is_blank_and_hidden() {
    let t = Tile::new(TileValue::Neighbored(2));
    assert_eq!(t.status(), TileStatus::Blank);
    assert_eq!(t.value(), None);
}
