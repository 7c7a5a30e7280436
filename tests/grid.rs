use sprite_prefab::grid::SpriteGrid;
use sprite_prefab::region::{Ratio, Sprite};

fn val(r: Ratio) -> f32 {
    r.num as f32 / r.den as f32
}

fn offsets(s: &Sprite) -> [f32; 2] {
    [f32::from_bits(s.offsets.x_bits), f32::from_bits(s.offsets.y_bits)]
}

#[test]
fn grid_col_row() {
    let sprites = SpriteGrid {
        width: 400,
        height: 200,
        columns: 4,
        rows: Some(4),
        ..Default::default()
    }
    .build_sprites();

    assert_eq!(16, sprites.len());
    for sprite in &sprites {
        assert_eq!(50., sprite.height as f32);
        assert_eq!(100., sprite.width as f32);
        assert_eq!([0., 0.], offsets(sprite));
    }
    assert_eq!(0., val(sprites[0].tex_coords.left));
    assert_eq!(0.25, val(sprites[0].tex_coords.right));
    assert_eq!(1.0, val(sprites[0].tex_coords.top));
    assert_eq!(0.75, val(sprites[0].tex_coords.bottom));

    assert_eq!(0.75, val(sprites[7].tex_coords.left));
    assert_eq!(1.0, val(sprites[7].tex_coords.right));
    assert_eq!(0.75, val(sprites[7].tex_coords.top));
    assert_eq!(0.5, val(sprites[7].tex_coords.bottom));

    assert_eq!(0.25, val(sprites[9].tex_coords.left));
    assert_eq!(0.5, val(sprites[9].tex_coords.right));
    assert_eq!(0.5, val(sprites[9].tex_coords.top));
    assert_eq!(0.25, val(sprites[9].tex_coords.bottom));

    let sprites = SpriteGrid {
        width: 192,
        height: 64,
        columns: 6,
        rows: Some(2),
        ..Default::default()
    }
    .build_sprites();

    assert_eq!(12, sprites.len());
    for sprite in &sprites {
        assert_eq!(32.0, sprite.height as f32);
        assert_eq!(32.0, sprite.width as f32);
        assert_eq!([0.0, 0.0], offsets(sprite));
    }
    assert_eq!(0.0, val(sprites[0].tex_coords.left));
    assert_eq!(0.16666667, val(sprites[0].tex_coords.right));
    assert_eq!(1.0, val(sprites[0].tex_coords.top));
    assert_eq!(0.5, val(sprites[0].tex_coords.bottom));

    assert_eq!(0.16666667, val(sprites[7].tex_coords.left));
    assert_eq!(0.33333334, val(sprites[7].tex_coords.right));
    assert_eq!(0.5, val(sprites[7].tex_coords.top));
    assert_eq!(0.0, val(sprites[7].tex_coords.bottom));

    assert_eq!(0.5, val(sprites[9].tex_coords.left));
    assert_eq!(0.6666667, val(sprites[9].tex_coords.right));
    assert_eq!(0.5, val(sprites[9].tex_coords.top));
    assert_eq!(0.0, val(sprites[9].tex_coords.bottom));
}

#[test]
fn grid_position() {
    let sprites = SpriteGrid {
        width: 192,
        height: 64,
        columns: 5,
        rows: Some(1),
        position: Some((32, 32)),
        ..Default::default()
    }
    .build_sprites();

    assert_eq!(5, sprites.len());
    for sprite in &sprites {
        assert_eq!(32.0, sprite.height as f32);
        assert_eq!(32.0, sprite.width as f32);
        assert_eq!([0.0, 0.0], offsets(sprite));
    }

    assert_eq!(0.16666667, val(sprites[0].tex_coords.left));
    assert_eq!(0.33333334, val(sprites[0].tex_coords.right));
    assert_eq!(0.5, val(sprites[0].tex_coords.top));
    assert_eq!(0.0, val(sprites[0].tex_coords.bottom));

    assert_eq!(0.8333333, val(sprites[4].tex_coords.left));
    assert_eq!(1.0, val(sprites[4].tex_coords.right));
    assert_eq!(0.5, val(sprites[4].tex_coords.top));
    assert_eq!(0.0, val(sprites[4].tex_coords.bottom));
}

#[test]
fn repeat_cell_size_set() {
    assert_eq!(
        (100, 100),
        SpriteGrid {
            width: 200,
            height: 200,
            columns: 4,
            cell_size: Some((100, 100)),
            ..Default::default()
        }
        .cell_size()
    );
}

#[test]
fn repeat_cell_size_no_set() {
    assert_eq!(
        (50, 100),
        SpriteGrid {
            width: 200,
            height: 400,
            columns: 4,
            rows: Some(4),
            ..Default::default()
        }
        .cell_size()
    );
}

#[test]
fn repeat_count_count_set() {
    assert_eq!(
        12,
        SpriteGrid {
            width: 200,
            height: 400,
            columns: 5,
            count: Some(12),
            ..Default::default()
        }
        .count()
    );
}

#[test]
fn repeat_count_no_set() {
    assert_eq!(
        10,
        SpriteGrid {
            width: 200,
            height: 400,
            columns: 5,
            rows: Some(2),
            ..Default::default()
        }
        .count()
    );
}

#[test]
fn repeat_rows_rows_set() {
    assert_eq!(
        5,
        SpriteGrid {
            width: 200,
            height: 400,
            columns: 5,
            rows: Some(5),
            ..Default::default()
        }
        .rows()
    );
}

#[test]
fn repeat_rows_count_set() {
    assert_eq!(
        3,
        SpriteGrid {
            width: 200,
            height: 400,
            columns: 5,
            count: Some(12),
            ..Default::default()
        }
        .rows()
    );
    assert_eq!(
        3,
        SpriteGrid {
            width: 200,
            height: 400,
            columns: 5,
            count: Some(15),
            ..Default::default()
        }
        .rows()
    );
}

#[test]
fn repeat_rows_cell_size_set() {
    assert_eq!(
        2,
        SpriteGrid {
            width: 200,
            height: 400,
            columns: 5,
            cell_size: Some((200, 200)),
            ..Default::default()
        }
        .rows()
    );
    assert_eq!(
        2,
        SpriteGrid {
            width: 200,
            height: 400,
            columns: 5,
            cell_size: Some((150, 150)),
            ..Default::default()
        }
        .rows()
    );
    assert_eq!(
        2,
        SpriteGrid {
            width: 200,
            height: 400,
            columns: 5,
            cell_size: Some((199, 199)),
            ..Default::default()
        }
        .rows()
    );
}

#[test]
fn repeat_rows_cell_no_set() {
    assert_eq!(
        1,
        SpriteGrid {
            width: 200,
            height: 400,
            columns: 5,
            ..Default::default()
        }
        .rows()
    );
}

#[test]
fn rows_given_win_over_count_and_cell_size() {
    let g = SpriteGrid {
        width: 200,
        height: 400,
        columns: 5,
        rows: Some(7),
        count: Some(3),
        cell_size: Some((10, 10)),
        ..Default::default()
    };
    assert_eq!(7, g.rows());
    assert_eq!(3, g.count());
    assert_eq!((10, 10), g.cell_size());
}

#[test]
fn rows_from_count_round_up() {
    let g = SpriteGrid { width: 100, height: 100, columns: 4, count: Some(9), ..Default::default() };
    assert_eq!(3, g.rows());
    let g = SpriteGrid { width: 100, height: 100, columns: 4, count: Some(0), ..Default::default() };
    assert_eq!(0, g.rows());
    assert_eq!(0, g.count());
}

#[test]
fn rows_from_cell_size_use_height_left_by_position() {
    let g = SpriteGrid {
        width: 100,
        height: 100,
        columns: 2,
        cell_size: Some((10, 30)),
        position: Some((0, 20)),
        ..Default::default()
    };
    assert_eq!(80, g.height());
    assert_eq!(2, g.rows());
    assert_eq!(4, g.count());
}

#[test]
fn cell_size_explicit_is_kept() {
    let g = SpriteGrid { width: 200, height: 200, columns: 4, cell_size: Some((100, 100)), ..Default::default() };
    assert_eq!((100, 100), g.cell_size());
    assert_eq!(2, g.rows());
    assert_eq!(8, g.count());
    assert!(g.exceeds_width());
    assert!(!g.exceeds_height());
}

#[test]
fn cell_size_inferred_rounds_down() {
    let g = SpriteGrid { width: 100, height: 50, columns: 3, rows: Some(4), ..Default::default() };
    assert_eq!((33, 12), g.cell_size());
    assert!(!g.exceeds_width());
    assert!(!g.exceeds_height());
}

#[test]
fn count_set_smaller_than_grid_stops_early() {
    let sprites = SpriteGrid { width: 300, height: 200, columns: 3, count: Some(4), ..Default::default() }.build_sprites();
    assert_eq!(4, sprites.len());
    // two rows of height 100, three columns of width 100
    assert_eq!(Ratio { num: 0, den: 300 }, sprites[3].tex_coords.left);
    assert_eq!(Ratio { num: 100, den: 200 }, sprites[3].tex_coords.top);
    assert_eq!(Ratio { num: 0, den: 200 }, sprites[3].tex_coords.bottom);
    assert_eq!(Ratio { num: 300, den: 300 }, sprites[2].tex_coords.right);
}

#[test]
fn position_defaults_to_origin() {
    let g = SpriteGrid { width: 10, height: 20, columns: 1, ..Default::default() };
    assert_eq!((0, 0), g.position());
    assert_eq!(10, g.width());
    assert_eq!(20, g.height());
    let g = SpriteGrid { width: 10, height: 20, columns: 1, position: Some((3, 4)), ..Default::default() };
    assert_eq!((3, 4), g.position());
    assert_eq!(7, g.width());
    assert_eq!(16, g.height());
}

#[test]
fn oversized_grid_still_builds() {
    let g = SpriteGrid {
        width: 100,
        height: 100,
        columns: 2,
        rows: Some(2),
        cell_size: Some((80, 80)),
        ..Default::default()
    };
    assert!(g.exceeds_width());
    assert!(g.exceeds_height());
    let sprites = g.build_sprites();
    assert_eq!(4, sprites.len());
    assert_eq!(Ratio { num: 160, den: 100 }, sprites[3].tex_coords.right);
    assert_eq!(Ratio { num: -60, den: 100 }, sprites[3].tex_coords.bottom);
}
