//! The package-count fact's wording.
//!
//! The host side runs each detected package manager's listing command;
//! what arrives here is, per manager, its display name and the listing
//! output (or `None` when the command failed).  The count is the total
//! number of output lines; a failed listing contributes nothing, and
//! with no manager detected at all the text is "unknown".

use vstd::prelude::*;

use crate::layout::sat_add;
use crate::text::{join_with, spec_dec, spec_join, spec_lines, split_lines, u64_to_string};

verus! {

/// How many packages one listing reports: its line count, or zero for
/// a failed listing.
pub open spec fn spec_one_count(out: Option<Seq<char>>) -> nat {
    match out {
        Some(o) => spec_lines(o).len(),
        None => 0,
    }
}

/// The total package count over all detected managers, saturating at
/// the output type's maximum.
pub open spec fn spec_pkg_count(outs: Seq<(Seq<char>, Option<Seq<char>>)>) -> nat
    decreases outs.len(),
{
    if outs.len() == 0 {
        0
    } else {
        sat_add(spec_pkg_count(outs.drop_last()), spec_one_count(outs.last().1))
    }
}

/// The package fact's text: "unknown" with no manager detected, the
/// bare count, or "count (name, name)" when manager names are wanted.
pub open spec fn spec_packages_text(
    outs: Seq<(Seq<char>, Option<Seq<char>>)>,
    print_names: bool,
) -> Seq<char> {
    if outs.len() == 0 {
        "unknown"@
    } else if print_names {
        spec_dec(spec_pkg_count(outs)) + " ("@ + spec_join(
            outs.map_values(|p: (Seq<char>, Option<Seq<char>>)| p.0),
            ", "@,
        ) + ")"@
    } else {
        spec_dec(spec_pkg_count(outs))
    }
}

/// Count the lines of one listing output.
fn count_lines(out: &str) -> (r: usize)
    ensures
        r == spec_lines(out@).len(),
{
    let ls = split_lines(out);
    proof {
        assert(ls.deep_view().len() == ls@.len());
    }
    ls.len()
}

/// Render the package-count fact from the detected managers' listing
/// outputs.
pub fn get_packages(
    print_package_manager_names: bool,
    outputs: &Vec<(String, Option<String>)>,
) -> (r: String)
    ensures
        r@ == spec_packages_text(outputs.deep_view(), print_package_manager_names),
{
    let ghost deep = outputs.deep_view();
    if outputs.len() == 0 {
        proof {
            assert(deep.len() == 0);
        }
        return "unknown".to_owned();
    }
    let mut count: usize = 0;
    let mut i: usize = 0;
    proof {
        assert(deep.take(0) =~= Seq::<(Seq<char>, Option<Seq<char>>)>::empty());
    }
    while i < outputs.len()
        invariant
            deep == outputs.deep_view(),
            deep.len() == outputs@.len(),
            forall|j: int| 0 <= j < deep.len() ==> deep[j] == outputs@[j].deep_view(),
            i <= outputs@.len(),
            count == spec_pkg_count(deep.take(i as int)),
        decreases outputs@.len() - i,
    {
        let add = match &outputs[i].1 {
            Some(o) => count_lines(o.as_str()),
            None => 0,
        };
        count = crate::layout::saturating_add(count, add);
        proof {
            assert(deep.take(i + 1).drop_last() =~= deep.take(i as int));
            assert(deep.take(i + 1).last() == deep[i as int]);
        }
        i = i + 1;
    }
    proof {
        assert(deep.take(deep.len() as int) =~= deep);
    }
    let count_str = u64_to_string(count as u64);
    if print_package_manager_names {
        let mut names: Vec<String> = Vec::new();
        let mut i: usize = 0;
        while i < outputs.len()
            invariant
                deep == outputs.deep_view(),
                deep.len() == outputs@.len(),
                forall|j: int| 0 <= j < deep.len() ==> deep[j] == outputs@[j].deep_view(),
                i <= outputs@.len(),
                names@.len() == i,
                forall|j: int| 0 <= j < i ==> #[trigger] names@[j]@ == deep[j].0,
            decreases outputs@.len() - i,
        {
            names.push(outputs[i].0.clone());
            i = i + 1;
        }
        proof {
            assert(names.deep_view() =~= deep.map_values(
                |p: (Seq<char>, Option<Seq<char>>)| p.0,
            ));
        }
        let mut r = count_str;
        r.append(" (");
        let joined = join_with(&names, ", ");
        r.append(joined.as_str());
        r.append(")");
        r
    } else {
        count_str
    }
}

} // verus!
