use freddie::bind::{DerivedLevel, HasTreePath};
use freddie::laserbeam::PathMut;

struct Root {
    layer: u32,
}

type Proj<P, N> = for<'p> fn(&'p mut P) -> &'p mut N;
type Shared<P, N> = for<'p> fn(&'p P) -> &'p N;
type Path<N, P> = PathMut<N, P, Proj<P, N>, Shared<P, N>>;

fn path(root: &mut Root) -> Path<u32, &mut Root> {
    PathMut::from_fn(root, |r| &mut r.layer, |r| &r.layer)
}

#[test]
fn a_root_path_is_its_own_place() {
    let mut root = Root { layer: 7 };
    let place: &mut Root = HasTreePath::into_tree_path(&mut root);
    place.layer = 8;
    assert_eq!(root.layer, 8);
}

#[test]
fn a_path_mut_is_its_own_place() {
    let mut root = Root { layer: 7 };
    {
        let mut place: Path<u32, &mut Root> = HasTreePath::into_tree_path(path(&mut root));
        *place.get_mut() = 9;
    }
    assert_eq!(root.layer, 9);
}

#[test]
fn a_node_flattens_to_its_parent_path() {
    let mut root = Root { layer: 7 };
    {
        let node = DerivedLevel {
            parent: path(&mut root),
            data: "derived",
        };
        let mut place: Path<u32, &mut Root> = HasTreePath::into_tree_path(node);
        *place.get_mut() = 10;
    }
    assert_eq!(root.layer, 10);
}

#[test]
fn two_node_layers_flatten_to_the_same_place() {
    let mut root = Root { layer: 7 };
    {
        let node = DerivedLevel {
            parent: DerivedLevel {
                parent: path(&mut root),
                data: "outer",
            },
            data: 3_u8,
        };
        let mut place: Path<u32, &mut Root> = HasTreePath::into_tree_path(node);
        *place.get_mut() = 11;
    }
    assert_eq!(root.layer, 11);
}
