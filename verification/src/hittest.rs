//! The hit-test engine: among the children of a container, select the single
//! best child containing a point.
//!
//! A child qualifies (is a candidate) when it has readable geometry that
//! contains the point under the half-open rule. Among candidates, a running
//! best is kept by ascending area — strictly smaller area always wins — and
//! an exactly equal area is resolved by the role tie-break of [`crate::role`].
//! The selection scans children in enumeration order, so the tie-break is
//! order-sensitive exactly where the rules of [`crate::role`] make it so.

use vstd::prelude::*;
use crate::geometry::{coord_in_range, Rect};
use crate::role::{should_update_based_on_role, spec_role_replaces, spec_role_tier, RoleTier};

verus! {

broadcast use vstd::std_specs::vec::group_vec_axioms;

/// One node of the accessibility tree as the library models it: the two
/// geometry attributes collapsed into an optional rectangle, the optional
/// role string, and the children in platform enumeration order.
#[derive(Debug)]
pub struct UiNode {
    /// Position and size; absent when either attribute could not be read.
    pub geometry: Option<Rect>,
    /// The role string; absent when it could not be read.
    pub role: Option<String>,
    /// Child elements, in the order the platform enumerates them.
    pub children: Vec<UiNode>,
}

impl UiNode {
    /// The role characters the tie-break sees: an unreadable role reads as
    /// the empty string.
    pub open spec fn spec_tie_role(self) -> Seq<char> {
        match self.role {
            Option::Some(r) => r@,
            Option::None => Seq::<char>::empty(),
        }
    }

    /// The node's tier in the role tie-break.
    pub open spec fn spec_tier(self) -> RoleTier {
        spec_role_tier(self.spec_tie_role())
    }

    /// A candidate at a point: the node has geometry and it contains the
    /// point.
    pub open spec fn is_candidate(self, px: int, py: int) -> bool {
        match self.geometry {
            Option::Some(g) => g.spec_contains(px, py),
            Option::None => false,
        }
    }

    /// The node's area; meaningful only when the node has geometry.
    pub open spec fn spec_area(self) -> int {
        self.geometry->Some_0.spec_area()
    }

    /// Deep well-formedness: every geometry anywhere in the tree is
    /// well-formed.
    pub open spec fn wf(self) -> bool
        decreases self,
    {
        &&& (match self.geometry {
            Option::Some(g) => g.wf(),
            Option::None => true,
        })
        &&& (forall|i: int|
            0 <= i < self.children@.len() ==> (#[trigger] self.children@[i]).wf())
    }
}

/// Every node of a child sequence is deeply well-formed.
pub open spec fn wf_nodes(children: Seq<UiNode>) -> bool {
    forall|i: int| 0 <= i < children.len() ==> (#[trigger] children[i]).wf()
}

/// Whether candidate `new` replaces the current best candidate `best`:
/// strictly smaller area always, exactly equal area by the role tie-break.
pub open spec fn spec_replaces(best: UiNode, new: UiNode) -> bool {
    ||| new.spec_area() < best.spec_area()
    ||| (new.spec_area() == best.spec_area()
        && spec_role_replaces(best.spec_tier(), new.spec_tier()))
}

/// The running best over `children[i..]`, continuing from an already chosen
/// best index. This is the engine's selection rule: candidates are visited
/// in order, and each one replaces the running best exactly when
/// [`spec_replaces`] says so (a candidate with no current best is always
/// accepted).
pub open spec fn spec_scan(
    children: Seq<UiNode>,
    px: int,
    py: int,
    i: int,
    best: Option<int>,
) -> Option<int>
    decreases children.len() - i,
{
    if i < 0 || i >= children.len() {
        best
    } else {
        let next = if children[i].is_candidate(px, py) && (match best {
            Option::None => true,
            Option::Some(b) => spec_replaces(children[b], children[i]),
        }) {
            Option::Some(i)
        } else {
            best
        };
        spec_scan(children, px, py, i + 1, next)
    }
}

/// The index of the child the hit-test engine selects among `children` at
/// the point, or none when no child is a candidate.
pub open spec fn spec_best_child(children: Seq<UiNode>, px: int, py: int) -> Option<int> {
    spec_scan(children, px, py, 0, Option::None)
}

/// An `Option<usize>` read as an `Option<int>` index.
pub open spec fn opt_index(o: Option<usize>) -> Option<int> {
    match o {
        Option::Some(u) => Option::Some(u as int),
        Option::None => Option::None,
    }
}

/// The role string handed to the tie-break: an unreadable role reads as the
/// empty string.
fn tie_role(n: &UiNode) -> (r: &str)
    ensures
        r@ == n.spec_tie_role(),
{
    match &n.role {
        Option::Some(s) => s.as_str(),
        Option::None => {
            proof {
                reveal_strlit("");
                assert(""@ =~= Seq::<char>::empty());
            }
            ""
        },
    }
}

/// Selects the best child of a container at a point: the index of the
/// candidate the scan keeps, or none when no child is a candidate.
pub fn drill_down(children: &Vec<UiNode>, px: i64, py: i64) -> (r: Option<usize>)
    requires
        wf_nodes(children@),
        coord_in_range(px as int),
        coord_in_range(py as int),
    ensures
        opt_index(r) == spec_best_child(children@, px as int, py as int),
        r matches Option::Some(b) ==> b < children@.len(),
{
    let mut best: Option<usize> = Option::None;
    let mut best_area: i64 = 0;
    let mut i: usize = 0;
    while i < children.len()
        invariant
            i <= children@.len(),
            wf_nodes(children@),
            coord_in_range(px as int),
            coord_in_range(py as int),
            match best {
                Option::Some(b) => b < i && children@[b as int].is_candidate(
                    px as int,
                    py as int,
                ) && best_area == children@[b as int].spec_area(),
                Option::None => true,
            },
            spec_scan(children@, px as int, py as int, i as int, opt_index(best))
                == spec_best_child(children@, px as int, py as int),
        decreases children@.len() - i,
    {
        let child = &children[i];
        if let Option::Some(g) = child.geometry {
            if g.contains_point(px, py) {
                let area = g.area();
                let replace = match best {
                    Option::None => true,
                    Option::Some(b) => area < best_area || (area == best_area
                        && should_update_based_on_role(
                        Option::Some(tie_role(&children[b])),
                        tie_role(child),
                    )),
                };
                if replace {
                    best = Option::Some(i);
                    best_area = area;
                }
            }
        }
        i = i + 1;
    }
    best
}

/// The scan only ever returns a candidate, and returns none exactly when it
/// started from none and saw no candidate.
proof fn lemma_scan_candidate(
    children: Seq<UiNode>,
    px: int,
    py: int,
    i: int,
    best: Option<int>,
)
    requires
        0 <= i <= children.len(),
        best matches Option::Some(b) ==> 0 <= b < children.len()
            && children[b].is_candidate(px, py),
    ensures
        spec_scan(children, px, py, i, best) matches Option::Some(j) ==> 0 <= j
            < children.len() && children[j].is_candidate(px, py),
        spec_scan(children, px, py, i, best) is None ==> best is None && (forall|k: int|
            i <= k < children.len() ==> !(#[trigger] children[k]).is_candidate(px, py)),
    decreases children.len() - i,
{
    if i < children.len() {
        let next = if children[i].is_candidate(px, py) && (match best {
            Option::None => true,
            Option::Some(b) => spec_replaces(children[b], children[i]),
        }) {
            Option::Some(i)
        } else {
            best
        };
        lemma_scan_candidate(children, px, py, i + 1, next);
    }
}

/// The candidate the scan keeps has an area no larger than that of any
/// candidate it visited, nor than that of the best it started from.
proof fn lemma_scan_min_area(
    children: Seq<UiNode>,
    px: int,
    py: int,
    i: int,
    best: Option<int>,
)
    requires
        0 <= i <= children.len(),
        best matches Option::Some(b) ==> 0 <= b < children.len()
            && children[b].is_candidate(px, py),
    ensures
        spec_scan(children, px, py, i, best) matches Option::Some(j) ==> (forall|k: int|
            i <= k < children.len() && (#[trigger] children[k]).is_candidate(px, py)
                ==> children[j].spec_area() <= children[k].spec_area()),
        spec_scan(children, px, py, i, best) matches Option::Some(j) ==> (
        best matches Option::Some(b) ==> children[j].spec_area() <= children[b].spec_area()),
    decreases children.len() - i,
{
    if i < children.len() {
        let next = if children[i].is_candidate(px, py) && (match best {
            Option::None => true,
            Option::Some(b) => spec_replaces(children[b], children[i]),
        }) {
            Option::Some(i)
        } else {
            best
        };
        lemma_scan_min_area(children, px, py, i + 1, next);
    }
}

/// A stretch of non-candidates does not change the scan.
proof fn lemma_scan_skip(
    children: Seq<UiNode>,
    px: int,
    py: int,
    i: int,
    j: int,
    best: Option<int>,
)
    requires
        0 <= i <= j <= children.len(),
        forall|k: int| i <= k < j ==> !(#[trigger] children[k]).is_candidate(px, py),
    ensures
        spec_scan(children, px, py, i, best) == spec_scan(children, px, py, j, best),
    decreases j - i,
{
    if i < j {
        lemma_scan_skip(children, px, py, i + 1, j, best);
    }
}

/// When no child is a candidate at the point, the engine selects nothing.
pub proof fn lemma_no_candidate_selects_none(children: Seq<UiNode>, px: int, py: int)
    requires
        forall|k: int| 0 <= k < children.len()
            ==> !(#[trigger] children[k]).is_candidate(px, py),
    ensures
        spec_best_child(children, px, py) is None,
{
    lemma_scan_skip(children, px, py, 0, children.len() as int, Option::None);
}

/// The engine only ever selects a candidate: a child with geometry that
/// contains the point.
pub proof fn lemma_selected_is_candidate(children: Seq<UiNode>, px: int, py: int)
    ensures
        spec_best_child(children, px, py) matches Option::Some(j) ==> 0 <= j < children.len()
            && children[j].is_candidate(px, py),
{
    lemma_scan_candidate(children, px, py, 0, Option::None);
}

/// The selected child's area is minimal among all candidates.
pub proof fn lemma_selected_has_minimal_area(children: Seq<UiNode>, px: int, py: int)
    ensures
        spec_best_child(children, px, py) matches Option::Some(j) ==> (forall|k: int|
            0 <= k < children.len() && (#[trigger] children[k]).is_candidate(px, py)
                ==> children[j].spec_area() <= children[k].spec_area()),
{
    lemma_scan_min_area(children, px, py, 0, Option::None);
}

/// Smallest enclosing area wins: a candidate whose area is strictly smaller
/// than that of every other candidate is selected, whatever the enumeration
/// order and whatever the roles.
pub proof fn lemma_smallest_area_wins(children: Seq<UiNode>, px: int, py: int, w: int)
    requires
        0 <= w < children.len(),
        children[w].is_candidate(px, py),
        forall|k: int|
            0 <= k < children.len() && k != w && (#[trigger] children[k]).is_candidate(px, py)
                ==> children[w].spec_area() < children[k].spec_area(),
    ensures
        spec_best_child(children, px, py) == Option::Some(w),
{
    lemma_scan_candidate(children, px, py, 0, Option::None);
    lemma_scan_min_area(children, px, py, 0, Option::None);
    let r = spec_best_child(children, px, py);
    match r {
        Option::None => {
            assert(!children[w].is_candidate(px, py));
        },
        Option::Some(j) => {
            if j != w {
                assert(children[j].spec_area() <= children[w].spec_area());
                assert(children[w].spec_area() < children[j].spec_area());
            }
        },
    }
}

/// Tier tie-break: of two candidates with exactly equal area, one terminal
/// and one a container, the terminal one is selected — in either enumeration
/// order — provided no other child is a candidate.
pub proof fn lemma_tier_tiebreak(children: Seq<UiNode>, px: int, py: int, a: int, b: int)
    requires
        0 <= a < b < children.len(),
        children[a].is_candidate(px, py),
        children[b].is_candidate(px, py),
        forall|k: int|
            0 <= k < children.len() && k != a && k != b
                ==> !(#[trigger] children[k]).is_candidate(px, py),
        children[a].spec_area() == children[b].spec_area(),
        (children[a].spec_tier() is Terminal && children[b].spec_tier() is Container)
            || (children[a].spec_tier() is Container && children[b].spec_tier() is Terminal),
    ensures
        spec_best_child(children, px, py) == Option::Some(
            if children[a].spec_tier() is Terminal {
                a
            } else {
                b
            },
        ),
{
    lemma_scan_skip(children, px, py, 0, a, Option::None);
    assert(spec_scan(children, px, py, a, Option::None)
        == spec_scan(children, px, py, a + 1, Option::Some(a)));
    lemma_scan_skip(children, px, py, a + 1, b, Option::Some(a));
    let after = if spec_replaces(children[a], children[b]) {
        Option::Some(b)
    } else {
        Option::Some(a)
    };
    assert(spec_scan(children, px, py, b, Option::Some(a))
        == spec_scan(children, px, py, b + 1, after));
    lemma_scan_skip(children, px, py, b + 1, children.len() as int, after);
}

} // verus!
