use hebi::config::{Cell, MapData};
use hebi::maps::corridors::heights::{unit_fraction, wall_height, UNIT};
use hebi::maps::corridors::model::{ColumnDraws, Side};
use hebi::maps::corridors::CorridorsMap;
use hebi::Direction;
use rand::{Rng, SeedableRng};
use rand_pcg::Pcg64;

fn picture(map: &MapData) -> Vec<String> {
    let mut lines = Vec::new();
    for y in 0..map.height() {
        let mut line = String::new();
        for x in 0..map.width() {
            line.push(match map.get(x, y).unwrap() {
                Cell::Empty => '.',
                Cell::Wall => '#',
                Cell::Spawn(Direction::Up) => '^',
                Cell::Spawn(Direction::Down) => 'v',
                Cell::Spawn(Direction::Left) => '<',
                Cell::Spawn(Direction::Right) => '>',
            });
        }
        lines.push(line);
    }
    lines
}

fn count(map: &MapData, cell: Cell) -> usize {
    let mut n = 0;
    for x in 0..map.width() {
        for y in 0..map.height() {
            if map.get(x, y) == Some(cell) {
                n += 1;
            }
        }
    }
    n
}

fn assert_border_is_wall(map: &MapData) {
    for x in 0..map.width() {
        for y in 0..map.height() {
            if x == 0 || x == map.width() - 1 || y == 0 || y == map.height() - 1 {
                assert_eq!(map.get(x, y), Some(Cell::Wall), "at ({}, {})", x, y);
            }
        }
    }
}

fn assert_passable(map: &MapData) {
    for x in 1..map.width() - 1 {
        let open = (1..map.height() - 1).any(|y| map.get(x, y) != Some(Cell::Wall));
        assert!(open, "column {}", x);
    }
}

#[test]
fn default_parameters() {
    let params = CorridorsMap::default();
    assert_eq!(params.width, 34);
    assert_eq!(params.height, 17);
    assert_eq!(params.corridor_width(), 3);
    assert_eq!(params.corridor_height(), 10);
    assert_eq!(params.corridor_offset(Side::Top), 3);
    assert_eq!(params.corridor_offset(Side::Bottom), 0);
    assert_eq!(params.wall_variance(), UNIT / 2);
}

#[test]
fn new_keeps_its_arguments() {
    let params = CorridorsMap::new(20, 11, 2, 4, -7, 5, UNIT / 4).unwrap();
    assert_eq!(params.width, 20);
    assert_eq!(params.height, 11);
    assert_eq!(params.corridor_width(), 2);
    assert_eq!(params.corridor_height(), 4);
    assert_eq!(params.corridor_offset(Side::Top), -7);
    assert_eq!(params.corridor_offset(Side::Bottom), 5);
    assert_eq!(params.wall_variance(), UNIT / 4);
}

#[test]
fn new_rejects_a_variance_above_one() {
    assert!(CorridorsMap::new(34, 17, 3, 10, 3, 0, UNIT).is_some());
    assert!(CorridorsMap::new(34, 17, 3, 10, 3, 0, UNIT + 1).is_none());
    assert!(CorridorsMap::new(34, 17, 3, 10, 3, 0, u32::MAX).is_none());
}

#[test]
fn wall_columns_of_the_default_level() {
    let params = CorridorsMap::default();
    let top: Vec<u32> = (0..34).filter(|&x| params.is_wall_column(Side::Top, x)).collect();
    let bottom: Vec<u32> = (0..34).filter(|&x| params.is_wall_column(Side::Bottom, x)).collect();
    assert_eq!(top, vec![3, 7, 11, 15, 19, 23, 27]);
    assert_eq!(bottom, vec![4, 8, 12, 16, 20, 24, 28]);
}

#[test]
fn wall_columns_with_a_negative_offset() {
    let params = CorridorsMap::new(20, 9, 2, 4, -7, -1, 0).unwrap();
    let top: Vec<u32> = (0..20).filter(|&x| params.is_wall_column(Side::Top, x)).collect();
    let bottom: Vec<u32> = (0..20).filter(|&x| params.is_wall_column(Side::Bottom, x)).collect();
    assert_eq!(top, vec![5, 8, 11, 14]);
    assert_eq!(bottom, vec![5, 8, 11, 14]);
}

#[test]
fn no_wall_columns_where_the_corridor_is_wider_than_the_grid() {
    let params = CorridorsMap::new(10, 9, 12, 4, 0, 0, 0).unwrap();
    assert!((0..10).all(|x| !params.is_wall_column(Side::Top, x)));
    let params = CorridorsMap::new(10, 9, u32::MAX, 4, 0, 0, 0).unwrap();
    assert!((0..10).all(|x| !params.is_wall_column(Side::Bottom, x)));
}

#[test]
fn classify_cell_follows_the_walls() {
    let params = CorridorsMap::default();
    // column 3 carries a top wall, column 4 a bottom wall
    assert_eq!(params.classify_cell(3, 5, 0, 5), Cell::Wall);
    assert_eq!(params.classify_cell(3, 5, 0, 6), Cell::Empty);
    assert_eq!(params.classify_cell(4, 0, 5, 10), Cell::Empty);
    assert_eq!(params.classify_cell(4, 0, 5, 11), Cell::Wall);
    assert_eq!(params.classify_cell(5, 9, 9, 8), Cell::Empty);
    assert_eq!(params.classify_cell(0, 0, 0, 8), Cell::Wall);
    assert_eq!(params.classify_cell(33, 0, 0, 8), Cell::Wall);
    assert_eq!(params.classify_cell(5, 0, 0, 0), Cell::Wall);
    assert_eq!(params.classify_cell(5, 0, 0, 16), Cell::Wall);
}

#[test]
fn is_blocked_when_the_walls_meet() {
    let params = CorridorsMap::new(34, 12, 3, 10, 0, 0, UNIT / 2).unwrap();
    // column 4 carries both walls; the rows between them are 1 to 10
    assert!(params.is_blocked(4, 5, 5));
    assert!(!params.is_blocked(4, 5, 4));
    assert!(params.is_blocked(4, 10, 0));
    assert!(!params.is_blocked(4, 9, 0));
    assert!(params.is_blocked(4, 0, 10));
    assert!(!params.is_blocked(5, 10, 10));
    assert!(params.is_blocked(0, 0, 0));
    assert!(params.is_blocked(33, 0, 0));
}

#[test]
fn border_cells_are_the_edge_of_the_grid() {
    let params = CorridorsMap::new(5, 4, 1, 1, 0, 0, 0).unwrap();
    for x in 0..5 {
        for y in 0..4 {
            assert_eq!(params.is_border_cell(x, y), x == 0 || x == 4 || y == 0 || y == 3);
        }
    }
    assert!(!params.is_border_cell(5, 5));
}

#[test]
fn wall_reaches_from_its_edge() {
    let params = CorridorsMap::default();
    // a top wall of height 5 fills the rows 0 to 5
    assert!(params.wall_reaches(Side::Top, 5, 0));
    assert!(params.wall_reaches(Side::Top, 5, 5));
    assert!(!params.wall_reaches(Side::Top, 5, 6));
    assert!(params.wall_reaches(Side::Top, 0, 0));
    assert!(!params.wall_reaches(Side::Top, 0, 1));
    // a bottom wall of height 5 fills the rows 11 to 16
    assert!(params.wall_reaches(Side::Bottom, 5, 16));
    assert!(params.wall_reaches(Side::Bottom, 5, 11));
    assert!(!params.wall_reaches(Side::Bottom, 5, 10));
    assert!(params.wall_reaches(Side::Bottom, 0, 16));
    assert!(!params.wall_reaches(Side::Bottom, 0, 15));
    assert!(params.wall_reaches(Side::Bottom, u32::MAX, 0));
    assert!(params.wall_reaches(Side::Top, u32::MAX, u32::MAX));
}

#[test]
fn heights_are_drawn_where_the_sweep_looks_at_them() {
    let params = CorridorsMap::new(34, 12, 3, 10, 0, 0, UNIT / 2).unwrap();
    // column 4 carries both walls, column 5 none
    assert!(params.is_memoized(Side::Top, 4, 0));
    assert!(params.is_memoized(Side::Top, 4, 99));
    assert!(params.is_memoized(Side::Bottom, 4, 9));
    assert!(!params.is_memoized(Side::Bottom, 4, 10));
    assert!(!params.is_memoized(Side::Top, 5, 0));
    assert!(!params.is_memoized(Side::Bottom, 5, 0));
    // no row off the border: nothing is drawn
    let flat = CorridorsMap::new(34, 2, 3, 10, 0, 0, UNIT / 2).unwrap();
    assert!(!flat.is_memoized(Side::Top, 4, 0));
    assert!(!flat.is_memoized(Side::Bottom, 4, 0));
    // the top wall of column 3 does not keep the bottom wall of column 4 from being drawn
    let params = CorridorsMap::default();
    assert!(params.is_memoized(Side::Bottom, 4, 99));
}

#[test]
fn draws_follow_the_generator_column_by_column() {
    for (params, variance) in [
        (CorridorsMap::default(), UNIT / 2),
        (CorridorsMap::new(34, 12, 3, 10, 0, 0, UNIT / 2).unwrap(), UNIT / 2),
        (CorridorsMap::new(40, 9, 1, 7, 1, 0, UNIT).unwrap(), UNIT),
        (CorridorsMap::new(25, 10, 0, 9, 0, 0, UNIT / 4).unwrap(), UNIT / 4),
    ] {
        for seed in 0..20u64 {
            let mut drawing = Pcg64::seed_from_u64(seed);
            let mut direct = drawing.clone();
            let draws = params.draw_columns(&mut drawing);
            let mut gap = 1;
            let mut previously_blocked = true;
            for x in 0..params.width {
                let mut top = 0;
                if params.is_memoized(Side::Top, x, 0) {
                    let word: u32 = direct.gen();
                    top = wall_height(params.corridor_height(), variance, unit_fraction(word));
                }
                let mut bottom = 0;
                if params.is_memoized(Side::Bottom, x, top) {
                    let word: u32 = direct.gen();
                    bottom = wall_height(params.corridor_height(), variance, unit_fraction(word));
                }
                let blocked = params.is_blocked(x, top, bottom);
                if blocked && x > 0 && x < params.width - 1 && !previously_blocked {
                    gap = direct.gen_range(1..params.height - 1);
                }
                previously_blocked = blocked;
                assert_eq!(draws.top[x as usize], top);
                assert_eq!(draws.bottom[x as usize], bottom);
                assert_eq!(draws.gap[x as usize], gap);
            }
            assert_eq!(drawing, direct);
        }
    }
}

#[test]
fn build_map_of_a_small_level() {
    let params = CorridorsMap::new(9, 8, 1, 3, 1, 0, 0).unwrap();
    let draws = ColumnDraws {
        top: vec![0, 0, 0, 2, 0, 6, 0, 0, 0],
        bottom: vec![0, 0, 0, 0, 3, 0, 1, 0, 0],
        gap: vec![1, 1, 1, 1, 1, 4, 4, 4, 4],
    };
    let map = params.build_map(&draws);
    assert_eq!(
        picture(&map),
        vec![
            "#########",
            "#..#.#..#",
            "#..#v#..#",
            "#.......#",
            "#...#...#",
            "#...#..^#",
            "#...###.#",
            "#########",
        ]
    );
}

#[test]
fn build_map_lets_later_notches_open_earlier_markers() {
    // walls in every column from 3 to 7; each notch empties the marker of the wall on
    // its left, so that only the last marker stays
    let params = CorridorsMap::new(9, 9, 0, 4, 0, 0, 0).unwrap();
    let draws = ColumnDraws {
        top: vec![1; 9],
        bottom: vec![0; 9],
        gap: vec![1; 9],
    };
    let map = params.build_map(&draws);
    assert_eq!(map.get(4, 2), Some(Cell::Empty));
    assert_eq!(map.get(5, 2), Some(Cell::Empty));
    assert_eq!(map.get(6, 2), Some(Cell::Empty));
    assert_eq!(map.get(7, 2), Some(Cell::Empty));
    assert_eq!(map.get(8, 2), Some(Cell::Spawn(Direction::Down)));
    assert_eq!(count(&map, Cell::Spawn(Direction::Down)), 1);
}

#[test]
fn level_without_variance() {
    let params = CorridorsMap::new(34, 17, 3, 10, 3, 0, 0).unwrap();
    let mut generator = Pcg64::seed_from_u64(2021);
    let map = params.get_map_data(&mut generator);
    assert_eq!(map.get(0, 0), Some(Cell::Wall));
    assert_eq!(map.get(33, 16), Some(Cell::Wall));
    assert!((0..34).any(|x| matches!(map.get(x, 2), Some(Cell::Spawn(_)))));
    assert!((0..34).any(|x| matches!(map.get(x, 14), Some(Cell::Spawn(_)))));
    assert_eq!(
        picture(&map),
        vec![
            "##################################",
            "#..#...#...#...#...#...#...#.....#",
            "#..#v..#v..#v..#v..#v..#v..#v....#",
            "#..#...#...#...#...#...#...#.....#",
            "#..#...#...#...#...#...#...#.....#",
            "#................................#",
            "#..##..##..##..##..##..##..##....#",
            "#..##..##..##..##..##..##..##....#",
            "#..##..##..##..##..##..##..##....#",
            "#..##..##..##..##..##..##..##....#",
            "#..##..##..##..##..##..##..##....#",
            "#................................#",
            "#...#...#...#...#...#...#...#....#",
            "#...#...#...#...#...#...#...#....#",
            "#...#^..#^..#^..#^..#^..#^..#^...#",
            "#...#...#...#...#...#...#...#....#",
            "##################################",
        ]
    );
}

#[test]
fn heights_without_variance_are_the_corridor_height() {
    let params = CorridorsMap::new(34, 17, 3, 10, 3, 0, 0).unwrap();
    for seed in 0..20u64 {
        let mut generator = Pcg64::seed_from_u64(seed);
        let draws = params.draw_columns(&mut generator);
        for x in 0..34u32 {
            let top = draws.top[x as usize];
            if params.is_memoized(Side::Top, x, top) {
                assert_eq!(top, 10);
            }
            if params.is_memoized(Side::Bottom, x, top) {
                assert_eq!(draws.bottom[x as usize], 10);
            }
        }
    }
}

#[test]
fn same_seed_same_level() {
    let params = CorridorsMap::default();
    for seed in [0u64, 1, 7, 12345, u64::MAX] {
        let mut first = Pcg64::seed_from_u64(seed);
        let mut second = Pcg64::seed_from_u64(seed);
        let a = params.get_map_data(&mut first);
        let b = params.get_map_data(&mut second);
        assert_eq!(picture(&a), picture(&b));
        assert_eq!(first, second);
    }
}

#[test]
fn other_seed_other_level() {
    let params = CorridorsMap::default();
    let a = params.get_map_data(&mut Pcg64::seed_from_u64(1));
    let b = params.get_map_data(&mut Pcg64::seed_from_u64(2));
    assert_ne!(picture(&a), picture(&b));
}

#[test]
fn get_map_data_is_build_map_of_the_draws() {
    let params = CorridorsMap::default();
    let draws = params.draw_columns(&mut Pcg64::seed_from_u64(7));
    let built = params.build_map(&draws);
    let generated = params.get_map_data(&mut Pcg64::seed_from_u64(7));
    assert_eq!(picture(&built), picture(&generated));
}

#[test]
fn draws_of_the_default_level() {
    let params = CorridorsMap::default();
    let draws = params.draw_columns(&mut Pcg64::seed_from_u64(7));
    assert_eq!(
        draws.top,
        vec![
            0, 0, 0, 9, 0, 0, 0, 6, 0, 0, 0, 5, 0, 0, 0, 8, 0, 0, 0, 5, 0, 0, 0, 5, 0, 0, 0, 5, 0,
            0, 0, 0, 0, 0
        ]
    );
    assert_eq!(
        draws.bottom,
        vec![
            0, 0, 0, 0, 6, 0, 0, 0, 5, 0, 0, 0, 9, 0, 0, 0, 6, 0, 0, 0, 6, 0, 0, 0, 7, 0, 0, 0, 9,
            0, 0, 0, 0, 0
        ]
    );
    assert_eq!(draws.gap, vec![1; 34]);
}

#[test]
fn default_level_for_a_seed() {
    let params = CorridorsMap::default();
    let map = params.get_map_data(&mut Pcg64::seed_from_u64(7));
    assert_eq!(
        picture(&map),
        vec![
            "##################################",
            "#..#...#...#...#...#...#...#.....#",
            "#..#v..#v..#v..#v..#v..#v..#v....#",
            "#..#...#...#...#...#...#...#.....#",
            "#..#...#...#...#...#...#...#.....#",
            "#..#...#...#...#...#...#...#.....#",
            "#..#...#.......#.................#",
            "#..#........#..#............#....#",
            "#..#........#..#............#....#",
            "#...........#...........#...#....#",
            "#...........#...#...#...#...#....#",
            "#...#...#...#...#...#...#...#....#",
            "#...#...#...#...#...#...#...#....#",
            "#...#...#...#...#...#...#...#....#",
            "#...#^..#^..#^..#^..#^..#^..#^...#",
            "#...#...#...#...#...#...#...#....#",
            "##################################",
        ]
    );
}

#[test]
fn gaps_are_drawn_where_the_walls_meet() {
    let params = CorridorsMap::new(34, 12, 3, 10, 0, 0, UNIT / 2).unwrap();
    let draws = params.draw_columns(&mut Pcg64::seed_from_u64(1));
    assert_eq!(
        draws.top,
        vec![
            0, 0, 0, 0, 5, 0, 0, 0, 5, 0, 0, 0, 5, 0, 0, 0, 6, 0, 0, 0, 6, 0, 0, 0, 8, 0, 0, 0, 7,
            0, 0, 0, 0, 0
        ]
    );
    assert_eq!(
        draws.bottom,
        vec![
            0, 0, 0, 0, 7, 0, 0, 0, 9, 0, 0, 0, 7, 0, 0, 0, 5, 0, 0, 0, 6, 0, 0, 0, 6, 0, 0, 0, 9,
            0, 0, 0, 0, 0
        ]
    );
    assert_eq!(
        draws.gap,
        vec![
            1, 1, 1, 1, 10, 10, 10, 10, 4, 4, 4, 4, 6, 6, 6, 6, 2, 2, 2, 2, 2, 2, 2, 2, 10, 10, 10,
            10, 4, 4, 4, 4, 4, 4
        ]
    );
    let map = params.build_map(&draws);
    assert_eq!(
        picture(&map),
        vec![
            "##################################",
            "#...#.......#...#...#...#........#",
            "#...#v..#v..#v...v...v..#v..#v...#",
            "#.......#.......#...#...#...#....#",
            "#...#.......#...#................#",
            "#...#...#...#.......#...#...#....#",
            "#...............#...#...#...#....#",
            "#...#...#...#...........#...#....#",
            "#...#...#...#...#...#...#........#",
            "#...#^..#^..#^..#^..#^......#^...#",
            "#.......#...#...#...#.......#....#",
            "##################################",
        ]
    );
}

#[test]
fn gaps_stay_between_the_first_and_the_last_row() {
    let params = CorridorsMap::new(34, 12, 3, 10, 0, 0, UNIT / 2).unwrap();
    let mut seen = [false; 12];
    for seed in 0..200u64 {
        let draws = params.draw_columns(&mut Pcg64::seed_from_u64(seed));
        for x in 0..34u32 {
            let gap = draws.gap[x as usize];
            assert!(1 <= gap && gap <= 10);
            seen[gap as usize] = true;
        }
    }
    assert!(seen[1..=10].iter().all(|&s| s));
}

#[test]
fn gap_row_is_kept_along_a_run_of_blocked_columns() {
    // walls in every column from 3 on, all from top to bottom
    let params = CorridorsMap::new(12, 8, 0, 7, 0, 0, 0).unwrap();
    let draws = params.draw_columns(&mut Pcg64::seed_from_u64(3));
    let gap = draws.gap[3];
    assert!(1 <= gap && gap <= 6);
    for x in 3..12 {
        assert_eq!(draws.gap[x], gap);
    }
    let map = params.build_map(&draws);
    for y in 1..7 {
        assert_eq!(map.get(3, y) == Some(Cell::Wall), y != gap, "at (3, {})", y);
    }
    for x in 4..11 {
        // the wall on the left sets its marker on row 2
        for y in 1..7 {
            assert_eq!(map.get(x, y) == Some(Cell::Wall), y != gap && y != 2, "at ({}, {})", x, y);
        }
    }
}

#[test]
fn border_is_wall() {
    for params in [
        CorridorsMap::default(),
        CorridorsMap::new(34, 12, 3, 10, 0, 0, UNIT / 2).unwrap(),
        CorridorsMap::new(20, 4, 1, 3, 0, 1, UNIT).unwrap(),
        CorridorsMap::new(50, 30, 5, 40, -3, 9, UNIT / 3).unwrap(),
        CorridorsMap::new(2, 2, 1, 1, 0, 0, 0).unwrap(),
        CorridorsMap::new(9, 1, 1, 1, 0, 0, 0).unwrap(),
        CorridorsMap::new(1, 9, 1, 1, 0, 0, 0).unwrap(),
        CorridorsMap::new(10, 9, 12, 4, 0, 0, 0).unwrap(),
    ] {
        for seed in 0..50u64 {
            let map = params.get_map_data(&mut Pcg64::seed_from_u64(seed));
            assert_border_is_wall(&map);
        }
    }
}

#[test]
fn every_inner_column_is_passable() {
    for params in [
        CorridorsMap::default(),
        CorridorsMap::new(34, 12, 3, 10, 0, 0, UNIT / 2).unwrap(),
        CorridorsMap::new(34, 12, 0, 10, 0, 0, UNIT / 2).unwrap(),
        CorridorsMap::new(20, 3, 1, 3, 0, 1, UNIT).unwrap(),
        CorridorsMap::new(50, 30, 5, 40, -3, 9, UNIT / 3).unwrap(),
        CorridorsMap::new(12, 8, 0, 7, 0, 0, 0).unwrap(),
    ] {
        for seed in 0..50u64 {
            let map = params.get_map_data(&mut Pcg64::seed_from_u64(seed));
            assert_passable(&map);
        }
    }
}

#[test]
fn level_covers_its_grid() {
    let params = CorridorsMap::new(13, 7, 2, 3, 1, 2, UNIT / 2).unwrap();
    let map = params.get_map_data(&mut Pcg64::seed_from_u64(11));
    assert_eq!(map.width(), 13);
    assert_eq!(map.height(), 7);
    for x in 0..20 {
        for y in 0..20 {
            assert_eq!(map.get(x, y).is_some(), x < 13 && y < 7);
        }
    }
}

#[test]
fn spawns_exist() {
    for params in [
        CorridorsMap::default(),
        CorridorsMap::new(34, 17, 3, 10, 3, 0, 0).unwrap(),
        CorridorsMap::new(34, 17, 3, 12, 0, 0, UNIT).unwrap(),
        CorridorsMap::new(11, 6, 3, 1, 0, 9, UNIT).unwrap(),
    ] {
        for seed in 0..50u64 {
            let map = params.get_map_data(&mut Pcg64::seed_from_u64(seed));
            assert!(count(&map, Cell::Spawn(Direction::Up)) >= 1);
            assert!(count(&map, Cell::Spawn(Direction::Down)) >= 1);
            assert_eq!(count(&map, Cell::Spawn(Direction::Left)), 0);
            assert_eq!(count(&map, Cell::Spawn(Direction::Right)), 0);
        }
    }
}

#[test]
fn no_top_spawn_without_a_top_wall_column() {
    // the columns 3 to 5 are the only ones where a wall may stand; with an offset of 2
    // and a period of 4 the top has none of them
    let params = CorridorsMap::new(10, 17, 3, 10, 2, 0, UNIT / 2).unwrap();
    let map = params.get_map_data(&mut Pcg64::seed_from_u64(4));
    assert_eq!(count(&map, Cell::Spawn(Direction::Down)), 0);
    assert_eq!(count(&map, Cell::Spawn(Direction::Up)), 1);
}

#[test]
fn no_spawn_where_the_notch_row_is_the_last_row() {
    // every wall has height 10, so that each notch of the top would lie on row 11
    let params = CorridorsMap::new(34, 12, 3, 10, 3, 0, 0).unwrap();
    let map = params.get_map_data(&mut Pcg64::seed_from_u64(4));
    assert_eq!(count(&map, Cell::Spawn(Direction::Down)), 0);
    assert_eq!(count(&map, Cell::Spawn(Direction::Up)), 0);
    assert_border_is_wall(&map);
    assert_passable(&map);
}

#[test]
fn grid_of_two_rows_gets_its_gaps_on_the_last_row() {
    let params = CorridorsMap::new(5, 2, 1, 1, 0, 0, 0).unwrap();
    let map = params.get_map_data(&mut Pcg64::seed_from_u64(0));
    assert_eq!(picture(&map), vec!["#####", "#...#"]);
}

#[test]
fn grid_of_one_row_is_all_wall() {
    let params = CorridorsMap::new(5, 1, 1, 1, 0, 0, 0).unwrap();
    let map = params.get_map_data(&mut Pcg64::seed_from_u64(0));
    assert_eq!(picture(&map), vec!["#####"]);
}

#[test]
fn grid_of_three_rows_gets_its_markers_on_the_edge() {
    let params = CorridorsMap::new(12, 3, 3, 2, 0, 1, 0).unwrap();
    let map = params.get_map_data(&mut Pcg64::seed_from_u64(0));
    assert_eq!(picture(&map), vec!["######^#####", "#..........#", "#####v######"]);
}

#[test]
fn empty_grids() {
    let no_columns = CorridorsMap::new(0, 9, 1, 1, 0, 0, 0).unwrap();
    let map = no_columns.get_map_data(&mut Pcg64::seed_from_u64(0));
    assert_eq!((map.width(), map.height()), (0, 9));
    assert_eq!(map.get(0, 0), None);
    let no_rows = CorridorsMap::new(9, 0, 1, 1, 0, 0, 0).unwrap();
    let map = no_rows.get_map_data(&mut Pcg64::seed_from_u64(0));
    assert_eq!((map.width(), map.height()), (9, 0));
    assert_eq!(map.get(0, 0), None);
}

#[test]
fn walls_higher_than_the_grid() {
    // both walls of a column reach past the other edge; their notches fall outside the
    // grid and only the markers are set
    let params = CorridorsMap::new(12, 6, 3, 20, 0, 2, 0).unwrap();
    let draws = params.draw_columns(&mut Pcg64::seed_from_u64(9));
    assert_eq!(draws.top, vec![0, 0, 0, 0, 20, 0, 0, 0, 0, 0, 0, 0]);
    assert_eq!(draws.bottom, vec![0, 0, 0, 0, 0, 0, 20, 0, 0, 0, 0, 0]);
    let draws = ColumnDraws {
        top: draws.top,
        bottom: draws.bottom,
        gap: vec![1, 1, 1, 1, 3, 3, 2, 2, 2, 2, 2, 2],
    };
    let map = params.build_map(&draws);
    assert_eq!(
        picture(&map),
        vec![
            "############",
            "#...#.#....#",
            "#...#v.....#",
            "#.....#^...#",
            "#...#.#....#",
            "############",
        ]
    );
}
