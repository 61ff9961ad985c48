use heightmap_mesh::facet::{create_triangle, Corner, Facet, Level};
use heightmap_mesh::heightmap::Heightmap;
use heightmap_mesh::mesh::{
    emit_back_wall, emit_floor_cap, emit_front_wall, emit_left_wall, emit_right_wall,
    emit_top_surface, generate_mesh,
};
use heightmap_mesh::planner::calculate_triangle_count;

fn s(x: u32, y: u32) -> Corner {
    Corner::surface(x, y)
}

fn f(x: u32, y: u32) -> Corner {
    Corner::floor(x, y)
}

fn t(a: Corner, b: Corner, c: Corner) -> Facet {
    Facet { a, b, c, flip_normal: false }
}

fn height_of(map: &Heightmap, corner: Corner, model_height: f32, floor: f32) -> f32 {
    match corner.level {
        Level::Surface => map.sample(corner.x, corner.y) as f32 / 255.0 * model_height,
        Level::Floor => floor,
    }
}

fn point(map: &Heightmap, corner: Corner, model_height: f32, floor: f32) -> [f32; 3] {
    [corner.x as f32, corner.y as f32, height_of(map, corner, model_height, floor)]
}

fn cross_of_edges(a: [f32; 3], b: [f32; 3], c: [f32; 3]) -> [f32; 3] {
    let u = [b[0] - a[0], b[1] - a[1], b[2] - a[2]];
    let v = [c[0] - a[0], c[1] - a[1], c[2] - a[2]];
    [u[1] * v[2] - u[2] * v[1], u[2] * v[0] - u[0] * v[2], u[0] * v[1] - u[1] * v[0]]
}

#[test]
fn corners_are_built_on_their_level() {
    assert_eq!(Corner::surface(3, 4), Corner { x: 3, y: 4, level: Level::Surface });
    assert_eq!(Corner::floor(5, 6), Corner { x: 5, y: 6, level: Level::Floor });
}

#[test]
fn create_triangle_keeps_the_winding() {
    let made = create_triangle(s(0, 0), s(1, 0), f(0, 1), false);
    assert_eq!(made, Facet { a: s(0, 0), b: s(1, 0), c: f(0, 1), flip_normal: false });
    let flipped = create_triangle(s(0, 0), s(1, 0), f(0, 1), true);
    assert_eq!(flipped, Facet { a: s(0, 0), b: s(1, 0), c: f(0, 1), flip_normal: true });
    assert_ne!(made, flipped);
}

#[test]
fn smallest_mesh_facet_by_facet() {
    let mesh = generate_mesh(2, 2);
    let expected = vec![
        // top surface
        t(s(0, 0), s(1, 0), s(0, 1)),
        t(s(1, 0), s(1, 1), s(0, 1)),
        // front wall
        t(f(0, 0), f(1, 0), s(0, 0)),
        t(s(1, 0), s(0, 0), f(1, 0)),
        // back wall
        t(s(0, 1), f(1, 1), f(0, 1)),
        t(f(1, 1), s(0, 1), s(1, 1)),
        // right wall
        t(f(1, 0), f(1, 1), s(1, 0)),
        t(s(1, 1), s(1, 0), f(1, 1)),
        // left wall
        t(s(0, 0), f(0, 1), f(0, 0)),
        t(f(0, 1), s(0, 0), s(0, 1)),
        // floor cap
        t(f(0, 1), f(1, 0), f(0, 0)),
        t(f(0, 1), f(1, 1), f(1, 0)),
    ];
    assert_eq!(mesh, expected);
}

#[test]
fn top_surface_runs_down_the_columns() {
    let mut mesh = Vec::new();
    emit_top_surface(&mut mesh, 3, 3);
    let expected = vec![
        t(s(0, 0), s(1, 0), s(0, 1)),
        t(s(1, 0), s(1, 1), s(0, 1)),
        t(s(0, 1), s(1, 1), s(0, 2)),
        t(s(1, 1), s(1, 2), s(0, 2)),
        t(s(1, 0), s(2, 0), s(1, 1)),
        t(s(2, 0), s(2, 1), s(1, 1)),
        t(s(1, 1), s(2, 1), s(1, 2)),
        t(s(2, 1), s(2, 2), s(1, 2)),
    ];
    assert_eq!(mesh, expected);
}

#[test]
fn walls_of_a_three_by_four_grid() {
    let mut front = Vec::new();
    emit_front_wall(&mut front, 3);
    assert_eq!(
        front,
        vec![
            t(f(0, 0), f(1, 0), s(0, 0)),
            t(s(1, 0), s(0, 0), f(1, 0)),
            t(f(1, 0), f(2, 0), s(1, 0)),
            t(s(2, 0), s(1, 0), f(2, 0)),
        ]
    );
    let mut back = Vec::new();
    emit_back_wall(&mut back, 3, 4);
    assert_eq!(
        back,
        vec![
            t(s(0, 3), f(1, 3), f(0, 3)),
            t(f(1, 3), s(0, 3), s(1, 3)),
            t(s(1, 3), f(2, 3), f(1, 3)),
            t(f(2, 3), s(1, 3), s(2, 3)),
        ]
    );
    let mut right = Vec::new();
    emit_right_wall(&mut right, 3, 4);
    assert_eq!(
        right,
        vec![
            t(f(2, 0), f(2, 1), s(2, 0)),
            t(s(2, 1), s(2, 0), f(2, 1)),
            t(f(2, 1), f(2, 2), s(2, 1)),
            t(s(2, 2), s(2, 1), f(2, 2)),
            t(f(2, 2), f(2, 3), s(2, 2)),
            t(s(2, 3), s(2, 2), f(2, 3)),
        ]
    );
    let mut left = Vec::new();
    emit_left_wall(&mut left, 4);
    assert_eq!(
        left,
        vec![
            t(s(0, 0), f(0, 1), f(0, 0)),
            t(f(0, 1), s(0, 0), s(0, 1)),
            t(s(0, 1), f(0, 2), f(0, 1)),
            t(f(0, 2), s(0, 1), s(0, 2)),
            t(s(0, 2), f(0, 3), f(0, 2)),
            t(f(0, 3), s(0, 2), s(0, 3)),
        ]
    );
    let mut cap = Vec::new();
    emit_floor_cap(&mut cap, 3, 4);
    assert_eq!(cap, vec![t(f(0, 3), f(2, 0), f(0, 0)), t(f(0, 3), f(2, 3), f(2, 0))]);
}

#[test]
fn sections_are_appended_after_what_is_there() {
    let mut mesh = vec![t(f(9, 9), f(9, 9), f(9, 9))];
    emit_floor_cap(&mut mesh, 2, 2);
    emit_front_wall(&mut mesh, 2);
    assert_eq!(
        mesh,
        vec![
            t(f(9, 9), f(9, 9), f(9, 9)),
            t(f(0, 1), f(1, 0), f(0, 0)),
            t(f(0, 1), f(1, 1), f(1, 0)),
            t(f(0, 0), f(1, 0), s(0, 0)),
            t(s(1, 0), s(0, 0), f(1, 0)),
        ]
    );
}

#[test]
fn mesh_is_the_sections_in_order() {
    let (width, height) = (5, 4);
    let mut expected = Vec::new();
    emit_top_surface(&mut expected, width, height);
    emit_front_wall(&mut expected, width);
    emit_back_wall(&mut expected, width, height);
    emit_right_wall(&mut expected, width, height);
    emit_left_wall(&mut expected, height);
    emit_floor_cap(&mut expected, width, height);
    assert_eq!(generate_mesh(width, height), expected);
}

#[test]
fn mesh_has_exactly_the_planned_number_of_facets() {
    for width in 2u32..12 {
        for height in 2u32..12 {
            let mesh = generate_mesh(width, height);
            assert_eq!(mesh.len(), calculate_triangle_count(width, height));
            for facet in &mesh {
                assert!(!facet.flip_normal);
                for corner in [facet.a, facet.b, facet.c] {
                    assert!(corner.x < width && corner.y < height);
                }
                // A facet left at a zero default would have three equal corners.
                assert!(facet.a != facet.b && facet.b != facet.c && facet.c != facet.a);
            }
        }
    }
}

#[test]
fn no_facet_is_emitted_twice() {
    for (width, height) in [(2u32, 2u32), (3, 3), (4, 7), (7, 4)] {
        let mesh = generate_mesh(width, height);
        for first in 0..mesh.len() {
            for second in first + 1..mesh.len() {
                assert_ne!(mesh[first], mesh[second]);
            }
        }
    }
}

#[test]
fn wall_corners_take_the_height_of_their_own_position() {
    // A corner is a grid position and a level, so a wall's upper corner
    // stands at the sample of the position it is drawn at.
    let map = Heightmap::from_samples(2, 3, vec![10, 20, 30, 40, 50, 60]).unwrap();
    let mut right = Vec::new();
    emit_right_wall(&mut right, 2, 3);
    let second = right[1];
    assert_eq!(second, t(s(1, 1), s(1, 0), f(1, 1)));
    assert_eq!(height_of(&map, second.a, 255.0, 0.0), 40.0);
    assert_eq!(height_of(&map, second.b, 255.0, 0.0), 20.0);
    let mut left = Vec::new();
    emit_left_wall(&mut left, 3);
    let second = left[3];
    assert_eq!(second, t(f(0, 2), s(0, 1), s(0, 2)));
    assert_eq!(height_of(&map, second.b, 255.0, 0.0), 30.0);
    assert_eq!(height_of(&map, second.c, 255.0, 0.0), 50.0);
}

#[test]
fn all_white_two_by_two_image() {
    let map = Heightmap::from_samples(2, 2, vec![255, 255, 255, 255]).unwrap();
    let model_height: f32 = 1.0;
    let base_height: f32 = 0.0;
    let min_height = map.lowest_sample() as f32 / 255.0 * model_height;
    let model_min_height = min_height - base_height;
    assert_eq!(min_height, 1.0);
    assert_eq!(model_min_height, 1.0);
    for y in 0..2 {
        for x in 0..2 {
            assert_eq!(map.sample(x, y) as f32 / 255.0 * model_height, 1.0);
        }
    }
    assert_eq!(calculate_triangle_count(map.width(), map.height()), 12);
    let mesh = generate_mesh(map.width(), map.height());
    assert_eq!(mesh.len(), 12);
    // Top and floor lie in one plane, so every wall facet has no area.
    for facet in &mesh[2..10] {
        let a = point(&map, facet.a, model_height, model_min_height);
        let b = point(&map, facet.b, model_height, model_min_height);
        let c = point(&map, facet.c, model_height, model_min_height);
        assert_eq!(cross_of_edges(a, b, c), [0.0, 0.0, 0.0]);
    }
    for facet in &mesh[0..2] {
        let a = point(&map, facet.a, model_height, model_min_height);
        let b = point(&map, facet.b, model_height, model_min_height);
        let c = point(&map, facet.c, model_height, model_min_height);
        assert_eq!(cross_of_edges(a, b, c), [0.0, 0.0, 1.0]);
    }
    for facet in &mesh[10..12] {
        let a = point(&map, facet.a, model_height, model_min_height);
        let b = point(&map, facet.b, model_height, model_min_height);
        let c = point(&map, facet.c, model_height, model_min_height);
        assert_eq!(cross_of_edges(a, b, c), [0.0, 0.0, -1.0]);
    }
}

#[test]
fn single_bright_pixel_in_a_three_by_three_image() {
    let map = Heightmap::from_samples(3, 3, vec![0, 0, 0, 0, 255, 0, 0, 0, 0]).unwrap();
    let model_height: f32 = 5.0;
    let base_height: f32 = 1.0;
    let min_height = map.lowest_sample() as f32 / 255.0 * model_height;
    let model_min_height = min_height - base_height;
    assert_eq!(min_height, 0.0);
    assert_eq!(model_min_height, -1.0);
    let mesh = generate_mesh(3, 3);
    assert_eq!(mesh.len(), 26);
    let mut peaks = 0;
    for (index, facet) in mesh.iter().enumerate() {
        for corner in [facet.a, facet.b, facet.c] {
            let z = height_of(&map, corner, model_height, model_min_height);
            match corner.level {
                Level::Floor => assert_eq!(z, -1.0),
                Level::Surface => {
                    if corner.x == 1 && corner.y == 1 {
                        assert_eq!(z, 5.0);
                        assert!(index < 8);
                        peaks += 1;
                    } else {
                        assert_eq!(z, 0.0);
                    }
                }
            }
        }
    }
    // The peak is a corner of six facets of the top surface.
    assert_eq!(peaks, 6);
    for facet in &mesh[24..26] {
        for corner in [facet.a, facet.b, facet.c] {
            assert_eq!(corner.level, Level::Floor);
        }
    }
    for facet in &mesh[8..24] {
        let levels = [facet.a.level, facet.b.level, facet.c.level];
        assert!(levels.contains(&Level::Floor) && levels.contains(&Level::Surface));
    }
}
