use heightmap_mesh::facet::{Corner, Facet, Level};
use heightmap_mesh::mesh::generate_mesh;

type Edge = (Corner, Corner);

fn edges(facet: &Facet) -> [Edge; 3] {
    [(facet.a, facet.b), (facet.b, facet.c), (facet.c, facet.a)]
}

fn all_edges(mesh: &[Facet]) -> Vec<Edge> {
    let mut all = Vec::new();
    for facet in mesh {
        for edge in edges(facet) {
            all.push(edge);
        }
    }
    all
}

fn on_floor_rim(edge: &Edge) -> bool {
    edge.0.level == Level::Floor
        && edge.1.level == Level::Floor
        && (edge.0.x == edge.1.x || edge.0.y == edge.1.y)
}

fn count_of(all: &[Edge], wanted: Edge) -> usize {
    all.iter().filter(|edge| **edge == wanted).count()
}

fn check_closed(width: u32, height: u32) {
    let mesh = generate_mesh(width, height);
    let all = all_edges(&mesh);
    let walls = &mesh[..mesh.len() - 2];
    let cap = &mesh[mesh.len() - 2..];
    for edge in &all {
        // No edge is walked twice the same way.
        assert_eq!(count_of(&all, *edge), 1);
        if !on_floor_rim(edge) {
            // Off the rim each edge is walked exactly once the other way.
            assert_eq!(count_of(&all, (edge.1, edge.0)), 1);
        }
    }
    // The foot of each wall is made of single grid steps.
    let mut steps = 0;
    for edge in all_edges(walls) {
        if on_floor_rim(&edge) {
            let dx = edge.1.x as i64 - edge.0.x as i64;
            let dy = edge.1.y as i64 - edge.0.y as i64;
            assert_eq!(dx.abs() + dy.abs(), 1);
            steps += 1;
        }
    }
    assert_eq!(steps, 2 * (width - 1) + 2 * (height - 1));
    // Each side of the floor cap is walked the other way, step by step, by the wall above it.
    let wall_edges = all_edges(walls);
    let mut sides = 0;
    for side in all_edges(cap) {
        if !on_floor_rim(&side) {
            continue;
        }
        sides += 1;
        let dx = (side.1.x as i64 - side.0.x as i64).signum();
        let dy = (side.1.y as i64 - side.0.y as i64).signum();
        let mut at = side.0;
        while at != side.1 {
            let next = Corner {
                x: (at.x as i64 + dx) as u32,
                y: (at.y as i64 + dy) as u32,
                level: Level::Floor,
            };
            assert_eq!(count_of(&wall_edges, (next, at)), 1);
            at = next;
        }
    }
    assert_eq!(sides, 4);
}

#[test]
fn smallest_solid_is_closed_edge_to_edge() {
    let mesh = generate_mesh(2, 2);
    let all = all_edges(&mesh);
    assert_eq!(all.len(), 36);
    for edge in &all {
        assert_eq!(count_of(&all, *edge), 1);
        assert_eq!(count_of(&all, (edge.1, edge.0)), 1);
    }
}

#[test]
fn solids_are_closed() {
    for (width, height) in [(2u32, 2u32), (2, 3), (3, 2), (3, 3), (4, 6), (7, 5), (9, 9)] {
        check_closed(width, height);
    }
}

#[test]
fn a_long_floor_side_has_no_single_opposite_edge() {
    let mesh = generate_mesh(3, 2);
    let all = all_edges(&mesh);
    let front_side = (
        Corner { x: 2, y: 0, level: Level::Floor },
        Corner { x: 0, y: 0, level: Level::Floor },
    );
    assert_eq!(count_of(&all, front_side), 1);
    assert_eq!(count_of(&all, (front_side.1, front_side.0)), 0);
    let middle = Corner { x: 1, y: 0, level: Level::Floor };
    assert_eq!(count_of(&all, (front_side.1, middle)), 1);
    assert_eq!(count_of(&all, (middle, front_side.0)), 1);
}

#[test]
fn solid_has_the_euler_characteristic_of_a_sphere() {
    // With each floor side cut at the grid positions, the faces are the
    // facets, the edges are the directed edges paired up, and the corners
    // are the distinct corners: V - E + F = 2. The two floor facets then
    // count as polygons with more than three sides.
    for (width, height) in [(2u32, 2u32), (3, 4), (6, 5)] {
        let mesh = generate_mesh(width, height);
        let mut corners: Vec<Corner> = Vec::new();
        for facet in &mesh {
            for corner in [facet.a, facet.b, facet.c] {
                if !corners.contains(&corner) {
                    corners.push(corner);
                }
            }
        }
        let walls = &mesh[..mesh.len() - 2];
        let rim_steps = (2 * (width - 1) + 2 * (height - 1)) as usize;
        // Every wall and top edge is walked twice, but for the rim steps, which the
        // walls walk once; the floor cap adds its diagonal.
        let undirected = (all_edges(walls).len() - rim_steps) / 2 + rim_steps + 1;
        let v = corners.len() as i64;
        let e = undirected as i64;
        let f = mesh.len() as i64;
        assert_eq!(v - e + f, 2);
    }
}
