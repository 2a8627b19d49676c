use vstd::prelude::*;
use vstd::string::StringExecFns;

use crate::a3d_rules::{blank, is_blank};

verus! {

/// What the validation of axis metadata reads of one axis: its id, whether
/// its length is greater than zero, and its positive label.
#[derive(Debug, Clone, PartialEq, Eq)]
pub struct AxisSummary {
    pub id: String,
    pub has_positive_length: bool,
    pub positive_label: String,
}

/// What the validation of Cartesian axes metadata reads: its name, its
/// geometry asset and its axes.
#[derive(Debug, Clone, PartialEq, Eq)]
pub struct AxesSummary {
    pub name: String,
    pub geometry_asset: String,
    pub axes: Vec<AxisSummary>,
}

/// `index` is the first place of an axis with id `id`.
pub open spec fn is_first_axis(axes: Seq<AxisSummary>, id: Seq<char>, index: int) -> bool {
    &&& 0 <= index < axes.len()
    &&& axes[index].id@ == id
    &&& forall|k: int| 0 <= k < index ==> axes[k].id@ != id
}

/// Some axis has id `id`.
pub open spec fn has_axis(axes: Seq<AxisSummary>, id: Seq<char>) -> bool {
    exists|index: int| 0 <= index < axes.len() && #[trigger] axes[index].id@ == id
}

/// What is wrong with one axis, if anything: a blank id, a length that is
/// not greater than zero, or a blank positive label, in that order.
pub open spec fn axis_error(axis: AxisSummary) -> Option<Seq<char>> {
    if is_blank(axis.id@) {
        Some("axis id must not be empty"@)
    } else if !axis.has_positive_length {
        Some("axis '"@ + axis.id@ + "' length must be greater than zero"@)
    } else if is_blank(axis.positive_label@) {
        Some("axis '"@ + axis.id@ + "' positive label must not be empty"@)
    } else {
        None
    }
}

/// The error of the first axis that has one.
pub open spec fn first_axis_error(axes: Seq<AxisSummary>) -> Option<Seq<char>>
    decreases axes.len(),
{
    if axes.len() == 0 {
        None
    } else {
        match axis_error(axes[0]) {
            Some(message) => Some(message),
            None => first_axis_error(axes.drop_first()),
        }
    }
}

/// The error reported for a required axis that is missing.
pub open spec fn missing_axis_message(id: Seq<char>) -> Seq<char> {
    "axis metadata is missing required '"@ + id + "' axis"@
}

/// The error that validation reports for axis metadata, if any: a blank
/// name, a blank geometry asset, no axes, a missing `x`, `y` or `z` axis,
/// then the first axis with something wrong.
pub open spec fn axes_error(summary: AxesSummary) -> Option<Seq<char>> {
    let axes = summary.axes@;
    if is_blank(summary.name@) {
        Some("axis metadata name must not be empty"@)
    } else if is_blank(summary.geometry_asset@) {
        Some("axis metadata geometry_asset must not be empty"@)
    } else if axes.len() == 0 {
        Some("axis metadata must contain at least one axis"@)
    } else if !has_axis(axes, "x"@) {
        Some(missing_axis_message("x"@))
    } else if !has_axis(axes, "y"@) {
        Some(missing_axis_message("y"@))
    } else if !has_axis(axes, "z"@) {
        Some(missing_axis_message("z"@))
    } else {
        first_axis_error(axes)
    }
}

/// `piece` added to the end of `text`.
fn appended(text: String, piece: &str) -> (joined: String)
    ensures
        joined@ == text@ + piece@,
{
    let mut joined = text;
    joined.append(piece);
    joined
}

/// What is wrong with `axis`, if anything; see `axis_error`.
fn check_axis(axis: &AxisSummary) -> (error: Option<String>)
    ensures
        match axis_error(*axis) {
            Some(message) => error is Some && error->0@ == message,
            None => error is None,
        },
{
    if blank(axis.id.as_str()) {
        return Some(String::from_str("axis id must not be empty"));
    }
    if !axis.has_positive_length {
        let message = appended(String::from_str("axis '"), axis.id.as_str());
        return Some(appended(message, "' length must be greater than zero"));
    }
    if blank(axis.positive_label.as_str()) {
        let message = appended(String::from_str("axis '"), axis.id.as_str());
        return Some(appended(message, "' positive label must not be empty"));
    }
    None
}

impl AxesSummary {
    /// The first axis with id `id`.
    pub fn axis(&self, id: &str) -> (axis: Option<&AxisSummary>)
        ensures
            axis is None <==> !has_axis(self.axes@, id@),
            axis matches Some(found) ==> exists|index: int|
                is_first_axis(self.axes@, id@, index) && *found == self.axes@[index],
    {
        let own = String::from_str(id);
        let mut index: usize = 0;
        while index < self.axes.len()
            invariant
                own@ == id@,
                index <= self.axes@.len(),
                forall|k: int| 0 <= k < index ==> self.axes@[k].id@ != id@,
            decreases self.axes@.len() - index,
        {
            if self.axes[index].id == own {
                assert(is_first_axis(self.axes@, id@, index as int));
                return Some(&self.axes[index]);
            }
            index = index + 1;
        }
        assert forall|k: int| 0 <= k < self.axes@.len() implies #[trigger] self.axes@[k].id@ != id@ by {}
        None
    }

    /// Checks the name, the geometry asset, the axes that must be there and
    /// each axis; see `axes_error`.
    pub fn validate(&self) -> (checked: Result<(), String>)
        ensures
            match axes_error(*self) {
                Some(message) => checked is Err && checked->Err_0@ == message,
                None => checked is Ok,
            },
    {
        if blank(self.name.as_str()) {
            return Err(String::from_str("axis metadata name must not be empty"));
        }
        if blank(self.geometry_asset.as_str()) {
            return Err(String::from_str("axis metadata geometry_asset must not be empty"));
        }
        if self.axes.len() == 0 {
            return Err(String::from_str("axis metadata must contain at least one axis"));
        }
        if self.axis("x").is_none() {
            proof {
                reveal_strlit("axis metadata is missing required 'x' axis");
                reveal_strlit("axis metadata is missing required '");
                reveal_strlit("x");
                reveal_strlit("' axis");
                assert("axis metadata is missing required 'x' axis"@ =~= missing_axis_message(
                    "x"@,
                ));
            }
            return Err(String::from_str("axis metadata is missing required 'x' axis"));
        }
        if self.axis("y").is_none() {
            proof {
                reveal_strlit("axis metadata is missing required 'y' axis");
                reveal_strlit("axis metadata is missing required '");
                reveal_strlit("y");
                reveal_strlit("' axis");
                assert("axis metadata is missing required 'y' axis"@ =~= missing_axis_message(
                    "y"@,
                ));
            }
            return Err(String::from_str("axis metadata is missing required 'y' axis"));
        }
        if self.axis("z").is_none() {
            proof {
                reveal_strlit("axis metadata is missing required 'z' axis");
                reveal_strlit("axis metadata is missing required '");
                reveal_strlit("z");
                reveal_strlit("' axis");
                assert("axis metadata is missing required 'z' axis"@ =~= missing_axis_message(
                    "z"@,
                ));
            }
            return Err(String::from_str("axis metadata is missing required 'z' axis"));
        }
        assert(self.axes@.skip(0) =~= self.axes@);
        let mut index: usize = 0;
        while index < self.axes.len()
            invariant
                axes_error(*self) == first_axis_error(self.axes@),
                index <= self.axes@.len(),
                first_axis_error(self.axes@) == first_axis_error(self.axes@.skip(index as int)),
            decreases self.axes@.len() - index,
        {
            let ghost rest = self.axes@.skip(index as int);
            assert(rest.drop_first() =~= self.axes@.skip(index + 1));
            match check_axis(&self.axes[index]) {
                Some(message) => {
                    return Err(message);
                },
                None => {},
            }
            index = index + 1;
        }
        assert(self.axes@.skip(self.axes@.len() as int).len() == 0);
        Ok(())
    }
}

} // verus!
