//! The element query facade: bounded deep descent from a root element to the
//! most specific element at a point, and assembly of the query result.
//!
//! Starting from the element found at the pointer, the current element is
//! repeatedly replaced by its best child (see [`crate::hittest`]) for at most
//! a fixed number of steps, stopping early as soon as no child qualifies.
//! The bound guarantees termination even over a pathologically deep or
//! misbehaving externally supplied tree. From the final element the result
//! carries geometry (required), role (defaulting when unreadable) and an
//! owning window identifier (zero when unresolved).

use vstd::prelude::*;
use crate::geometry::coord_in_range;
use crate::hittest::{drill_down, lemma_no_candidate_selects_none, spec_best_child, wf_nodes, UiNode};

verus! {

/// The maximum number of drill-down steps of one query.
pub const ACCESSIBILITY_RECURSION_LIMIT: usize = 50;

/// The geometry and metadata of the element a query resolved. `(x, y)` is
/// window-local once a coordinate transform has been applied, while
/// `(global_x, global_y)` always keeps the untransformed screen position;
/// a freshly built value has both equal. `window_id` is zero when no owning
/// window could be resolved.
#[derive(Clone, Debug)]
pub struct UIElementInfo {
    pub x: i64,
    pub y: i64,
    pub width: i64,
    pub height: i64,
    pub global_x: i64,
    pub global_y: i64,
    pub window_id: u32,
    pub role: String,
}

impl UIElementInfo {
    /// Coordinates stay in the range that keeps the coordinate transform
    /// free of overflow: local coordinates are a difference of two bounded
    /// coordinates, so they get twice the basic range.
    pub open spec fn wf(self) -> bool {
        &&& -2 * crate::geometry::COORD_LIMIT <= self.x <= 2 * crate::geometry::COORD_LIMIT
        &&& -2 * crate::geometry::COORD_LIMIT <= self.y <= 2 * crate::geometry::COORD_LIMIT
        &&& 0 <= self.width <= crate::geometry::COORD_LIMIT
        &&& 0 <= self.height <= crate::geometry::COORD_LIMIT
        &&& coord_in_range(self.global_x as int)
        &&& coord_in_range(self.global_y as int)
    }
}

/// The element reached from `n` by replacing the current element with its
/// best child at most `fuel` times, stopping as soon as no child qualifies.
pub open spec fn spec_descend(n: UiNode, px: int, py: int, fuel: nat) -> UiNode
    decreases fuel,
{
    if fuel == 0 {
        n
    } else {
        match spec_best_child(n.children@, px, py) {
            Option::None => n,
            Option::Some(i) => spec_descend(n.children@[i], px, py, (fuel - 1) as nat),
        }
    }
}

/// Bounded deep descent: the most specific element at the point, reached
/// from `root` within the fixed step bound.
pub fn resolve_element<'a>(root: &'a UiNode, px: i64, py: i64) -> (r: &'a UiNode)
    requires
        root.wf(),
        coord_in_range(px as int),
        coord_in_range(py as int),
    ensures
        *r == spec_descend(*root, px as int, py as int, ACCESSIBILITY_RECURSION_LIMIT as nat),
        r.wf(),
{
    let mut cur: &UiNode = root;
    let mut steps: usize = 0;
    while steps < ACCESSIBILITY_RECURSION_LIMIT
        invariant_except_break
            steps <= ACCESSIBILITY_RECURSION_LIMIT,
            cur.wf(),
            coord_in_range(px as int),
            coord_in_range(py as int),
            spec_descend(*root, px as int, py as int, ACCESSIBILITY_RECURSION_LIMIT as nat)
                == spec_descend(
                *cur,
                px as int,
                py as int,
                (ACCESSIBILITY_RECURSION_LIMIT - steps) as nat,
            ),
        ensures
            cur.wf(),
            *cur == spec_descend(
                *root,
                px as int,
                py as int,
                ACCESSIBILITY_RECURSION_LIMIT as nat,
            ),
        decreases ACCESSIBILITY_RECURSION_LIMIT - steps,
    {
        proof {
            assert(wf_nodes(cur.children@));
        }
        match drill_down(&cur.children, px, py) {
            Option::Some(i) => {
                cur = &cur.children[i];
                steps = steps + 1;
            },
            Option::None => {
                break;
            },
        }
    }
    cur
}

/// Resolves the most specific element at the point and assembles the query
/// result. Returns nothing when the final element's geometry could not be
/// read — whatever its role — since an element without a usable rectangle
/// is of no use downstream. An unreadable role defaults to `"Unknown"`; the
/// caller supplies the owning window identifier it resolved (zero for none).
/// Local and global coordinates start out equal.
pub fn element_at_point(root: &UiNode, px: i64, py: i64, window_id: u32) -> (r: Option<
    UIElementInfo,
>)
    requires
        root.wf(),
        coord_in_range(px as int),
        coord_in_range(py as int),
    ensures
        ({
            let fin = spec_descend(
                *root,
                px as int,
                py as int,
                ACCESSIBILITY_RECURSION_LIMIT as nat,
            );
            match r {
                Option::None => fin.geometry is None,
                Option::Some(info) => {
                    &&& fin.geometry matches Option::Some(g)
                    &&& info.x == g.x
                    &&& info.y == g.y
                    &&& info.width == g.width
                    &&& info.height == g.height
                    &&& info.global_x == g.x
                    &&& info.global_y == g.y
                    &&& info.window_id == window_id
                    &&& info.role@ == match fin.role {
                        Option::Some(s) => s@,
                        Option::None => "Unknown"@,
                    }
                    &&& info.wf()
                },
            }
        }),
{
    let fin = resolve_element(root, px, py);
    let role: String = match &fin.role {
        Option::Some(s) => s.clone(),
        Option::None => "Unknown".to_owned(),
    };
    match fin.geometry {
        Option::Some(g) => Option::Some(
            UIElementInfo {
                x: g.x,
                y: g.y,
                width: g.width,
                height: g.height,
                global_x: g.x,
                global_y: g.y,
                window_id,
                role,
            },
        ),
        Option::None => Option::None,
    }
}

/// The node reached from `n` by taking the recorded child indices in turn.
pub open spec fn node_along(n: UiNode, path: Seq<int>) -> UiNode
    decreases path.len(),
{
    if path.len() == 0 {
        n
    } else {
        node_along(n.children@[path[0]], path.skip(1))
    }
}

/// The first `steps` entries of `path` record exactly the choices the
/// hit-test engine makes descending from `n`: at each node along the way
/// the engine selects the recorded child.
pub open spec fn path_chosen(n: UiNode, px: int, py: int, path: Seq<int>, steps: nat) -> bool
    decreases steps,
{
    steps == 0 || {
        &&& path.len() >= steps
        &&& spec_best_child(n.children@, px, py) == Option::Some(path[0])
        &&& path_chosen(n.children@[path[0]], px, py, path.skip(1), (steps - 1) as nat)
    }
}

/// A path chosen for some number of steps is chosen for any smaller number.
proof fn lemma_path_chosen_mono(n: UiNode, px: int, py: int, path: Seq<int>, steps: nat, fewer: nat)
    requires
        path_chosen(n, px, py, path, steps),
        fewer <= steps,
    ensures
        path_chosen(n, px, py, path, fewer),
    decreases fewer,
{
    if fewer > 0 {
        lemma_path_chosen_mono(
            n.children@[path[0]],
            px,
            py,
            path.skip(1),
            (steps - 1) as nat,
            (fewer - 1) as nat,
        );
    }
}

/// While fuel lasts, descent follows a chosen path step for step.
proof fn lemma_descend_follows_path(n: UiNode, px: int, py: int, path: Seq<int>, fuel: nat)
    requires
        path_chosen(n, px, py, path, fuel),
    ensures
        spec_descend(n, px, py, fuel) == node_along(n, path.take(fuel as int)),
    decreases fuel,
{
    if fuel == 0 {
        assert(path.take(0) =~= Seq::<int>::empty());
    } else {
        let child = n.children@[path[0]];
        lemma_descend_follows_path(child, px, py, path.skip(1), (fuel - 1) as nat);
        assert(path.skip(1).take(fuel - 1) =~= path.take(fuel as int).skip(1));
        assert(path.take(fuel as int)[0] == path[0]);
    }
}

/// Along a path chosen for `steps` steps, the engine still selects the
/// recorded child at every depth `k < steps`.
proof fn lemma_path_chosen_at_depth(
    n: UiNode,
    px: int,
    py: int,
    path: Seq<int>,
    steps: nat,
    k: nat,
)
    requires
        path_chosen(n, px, py, path, steps),
        k < steps,
    ensures
        spec_best_child(node_along(n, path.take(k as int)).children@, px, py)
            == Option::Some(path[k as int]),
    decreases k,
{
    if k == 0 {
        assert(path.take(0) =~= Seq::<int>::empty());
    } else {
        let child = n.children@[path[0]];
        lemma_path_chosen_at_depth(
            child,
            px,
            py,
            path.skip(1),
            (steps - 1) as nat,
            (k - 1) as nat,
        );
        assert(path.skip(1).take(k - 1) =~= path.take(k as int).skip(1));
        assert(path.take(k as int)[0] == path[0]);
        assert(path.skip(1)[k - 1] == path[k as int]);
    }
}

/// Recursion termination at the fixed bound: in a tree that offers a chosen
/// child at every one of the first `ACCESSIBILITY_RECURSION_LIMIT + 1`
/// levels under the point, descent stops after exactly
/// `ACCESSIBILITY_RECURSION_LIMIT` steps and yields the node at that depth —
/// even though one level further down a candidate still existed.
pub proof fn lemma_descent_stops_at_bound(root: UiNode, px: int, py: int, path: Seq<int>)
    requires
        path_chosen(root, px, py, path, (ACCESSIBILITY_RECURSION_LIMIT + 1) as nat),
    ensures
        spec_descend(root, px, py, ACCESSIBILITY_RECURSION_LIMIT as nat) == node_along(
            root,
            path.take(ACCESSIBILITY_RECURSION_LIMIT as int),
        ),
        spec_best_child(
            node_along(root, path.take(ACCESSIBILITY_RECURSION_LIMIT as int)).children@,
            px,
            py,
        ) is Some,
{
    lemma_path_chosen_mono(
        root,
        px,
        py,
        path,
        (ACCESSIBILITY_RECURSION_LIMIT + 1) as nat,
        ACCESSIBILITY_RECURSION_LIMIT as nat,
    );
    lemma_descend_follows_path(root, px, py, path, ACCESSIBILITY_RECURSION_LIMIT as nat);
    lemma_path_chosen_at_depth(
        root,
        px,
        py,
        path,
        (ACCESSIBILITY_RECURSION_LIMIT + 1) as nat,
        ACCESSIBILITY_RECURSION_LIMIT as nat,
    );
}

/// Smallest enclosing element wins across levels: when a containing child
/// of strictly smallest area sits under the point at each of two levels —
/// roles never consulted — and the element so reached has no candidate
/// child, descent from the outermost element returns exactly the innermost
/// one.
pub proof fn lemma_nested_smallest_selected(outer: UiNode, px: int, py: int, i: int, j: int)
    requires
        0 <= i < outer.children@.len(),
        outer.children@[i].is_candidate(px, py),
        forall|k: int|
            0 <= k < outer.children@.len() && k != i
                && (#[trigger] outer.children@[k]).is_candidate(px, py)
                ==> outer.children@[i].spec_area() < outer.children@[k].spec_area(),
        0 <= j < outer.children@[i].children@.len(),
        outer.children@[i].children@[j].is_candidate(px, py),
        forall|k: int|
            0 <= k < outer.children@[i].children@.len() && k != j
                && (#[trigger] outer.children@[i].children@[k]).is_candidate(px, py)
                ==> outer.children@[i].children@[j].spec_area()
                    < outer.children@[i].children@[k].spec_area(),
        forall|k: int|
            0 <= k < outer.children@[i].children@[j].children@.len()
                ==> !(#[trigger] outer.children@[i].children@[j].children@[k]).is_candidate(
                px,
                py,
            ),
    ensures
        spec_descend(outer, px, py, ACCESSIBILITY_RECURSION_LIMIT as nat)
            == outer.children@[i].children@[j],
{
    let mid = outer.children@[i];
    let fin = mid.children@[j];
    let limit = ACCESSIBILITY_RECURSION_LIMIT as nat;
    crate::hittest::lemma_smallest_area_wins(outer.children@, px, py, i);
    crate::hittest::lemma_smallest_area_wins(mid.children@, px, py, j);
    lemma_no_candidate_selects_none(fin.children@, px, py);
    assert(spec_descend(outer, px, py, limit) == spec_descend(mid, px, py, (limit - 1) as nat));
    assert(spec_descend(mid, px, py, (limit - 1) as nat)
        == spec_descend(fin, px, py, (limit - 2) as nat));
    assert(spec_descend(fin, px, py, (limit - 2) as nat) == fin);
}

/// An element without children is its own query result: descent makes no
/// replacement and returns it unchanged, whatever fuel is available.
pub proof fn lemma_leaf_descends_to_itself(n: UiNode, px: int, py: int, fuel: nat)
    requires
        n.children@.len() == 0,
    ensures
        spec_descend(n, px, py, fuel) == n,
{
    if fuel > 0 {
        lemma_no_candidate_selects_none(n.children@, px, py);
    }
}

} // verus!
