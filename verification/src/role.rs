//! Role classification and the role-based tie-break used when two containing
//! children have exactly equal area.
//!
//! The platform reports an element's role as a string (`"AXImage"`,
//! `"AXButton"`, ...). The tie-break only needs a coarse ranking, so the
//! string is classified once into a closed enumeration of three ranks plus a
//! catch-all.

use vstd::prelude::*;
use vstd::string::StrSliceExecFns;

verus! {

/// The rank of a role in the tie-break, most specific first.
#[derive(Clone, Copy, Debug, PartialEq, Eq, Structural)]
pub enum RoleTier {
    /// Terminal visual elements: image, checkbox, radio button.
    Terminal,
    /// Text or interactive elements: static text, heading, button.
    Interactive,
    /// Containers: link, group, web area, scroll area.
    Container,
    /// Any role outside the three ranked groups, including an unreadable one.
    Other,
}

/// Character-wise string equality.
pub fn str_eq(a: &str, b: &str) -> (r: bool)
    ensures
        r == (a@ == b@),
{
    let a_len = a.unicode_len();
    let b_len = b.unicode_len();
    if a_len != b_len {
        return false;
    }
    let mut i: usize = 0;
    while i < a_len
        invariant
            a_len == a@.len(),
            a_len == b@.len(),
            i <= a_len,
            forall|j: int| 0 <= j < i ==> a@[j] == b@[j],
        decreases a_len - i,
    {
        if a.get_char(i) != b.get_char(i) {
            return false;
        }
        i = i + 1;
    }
    proof {
        assert(a@ =~= b@);
    }
    true
}

/// The rank of a role string.
pub open spec fn spec_role_tier(s: Seq<char>) -> RoleTier {
    if s == "AXImage"@ || s == "AXCheckBox"@ || s == "AXRadioButton"@ {
        RoleTier::Terminal
    } else if s == "AXStaticText"@ || s == "AXHeading"@ || s == "AXButton"@ {
        RoleTier::Interactive
    } else if s == "AXLink"@ || s == "AXGroup"@ || s == "AXWebArea"@ || s == "AXScrollArea"@ {
        RoleTier::Container
    } else {
        RoleTier::Other
    }
}

/// Classifies a role string into its tier.
pub fn classify_role(role: &str) -> (r: RoleTier)
    ensures
        r == spec_role_tier(role@),
{
    if str_eq(role, "AXImage") || str_eq(role, "AXCheckBox") || str_eq(role, "AXRadioButton") {
        RoleTier::Terminal
    } else if str_eq(role, "AXStaticText") || str_eq(role, "AXHeading") || str_eq(role, "AXButton") {
        RoleTier::Interactive
    } else if str_eq(role, "AXLink") || str_eq(role, "AXGroup") || str_eq(role, "AXWebArea")
        || str_eq(role, "AXScrollArea") {
        RoleTier::Container
    } else {
        RoleTier::Other
    }
}

/// Whether a new candidate of tier `new` replaces the current best of tier
/// `best` when both have exactly equal area: a terminal element displaces
/// anything (a later terminal displaces an earlier one), and an interactive
/// element displaces a container. Every other pairing keeps the current best.
pub open spec fn spec_role_replaces(best: RoleTier, new: RoleTier) -> bool {
    ||| (new is Terminal && !(best is Terminal))
    ||| (new is Interactive && best is Container)
    ||| (new is Terminal && best is Terminal)
}

/// Decides the equal-area tie-break from the two role strings. A candidate
/// compared against no current best is always accepted.
pub fn should_update_based_on_role(current_best: Option<&str>, new_candidate: &str) -> (r: bool)
    ensures
        r == match current_best {
            Option::None => true,
            Option::Some(b) => spec_role_replaces(
                spec_role_tier(b@),
                spec_role_tier(new_candidate@),
            ),
        },
{
    let best = match current_best {
        Option::None => {
            return true;
        },
        Option::Some(b) => b,
    };
    let best_tier = classify_role(best);
    let new_tier = classify_role(new_candidate);

    if matches!(new_tier, RoleTier::Terminal) && !matches!(best_tier, RoleTier::Terminal) {
        return true;
    }
    if matches!(new_tier, RoleTier::Interactive) && matches!(best_tier, RoleTier::Container) {
        return true;
    }
    if matches!(new_tier, RoleTier::Terminal) && matches!(best_tier, RoleTier::Terminal) {
        return true;
    }
    false
}

} // verus!
