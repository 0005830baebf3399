use vstd::prelude::*;
use vstd::string::*;
use crate::order::{compare_str, Order};

verus! {

/// The category a filter list belongs to.
#[derive(Debug, Clone, Copy, PartialEq, Eq, Structural)]
pub enum FilterGroup {
    Default,
    Regional,
    Ads,
    Privacy,
    Malware,
    Social,
}

/// The lower-case name under which a group is written out.
pub open spec fn group_name(group: FilterGroup) -> Seq<char> {
    match group {
        FilterGroup::Default => "default"@,
        FilterGroup::Regional => "regional"@,
        FilterGroup::Ads => "ads"@,
        FilterGroup::Privacy => "privacy"@,
        FilterGroup::Malware => "malware"@,
        FilterGroup::Social => "social"@,
    }
}

/// The group whose name is `name`, if any.
pub open spec fn group_of_name(name: Seq<char>) -> Option<FilterGroup> {
    if name == "default"@ {
        Some(FilterGroup::Default)
    } else if name == "regional"@ {
        Some(FilterGroup::Regional)
    } else if name == "ads"@ {
        Some(FilterGroup::Ads)
    } else if name == "privacy"@ {
        Some(FilterGroup::Privacy)
    } else if name == "malware"@ {
        Some(FilterGroup::Malware)
    } else if name == "social"@ {
        Some(FilterGroup::Social)
    } else {
        None
    }
}

/// Reading back the name of a group gives that group: the six names differ.
pub proof fn lemma_group_name_round_trip(group: FilterGroup)
    ensures
        group_of_name(group_name(group)) == Some(group),
{
    reveal_strlit("default");
    reveal_strlit("regional");
    reveal_strlit("ads");
    reveal_strlit("privacy");
    reveal_strlit("malware");
    reveal_strlit("social");
    assert("default"@[0] == 'd' && "regional"@[0] == 'r' && "ads"@[0] == 'a');
    assert("privacy"@[0] == 'p' && "malware"@[0] == 'm' && "social"@[0] == 's');
}

impl FilterGroup {
    /// The group whose name is `name`, or `None` where no group has that name.
    pub fn from_name(name: &str) -> (group: Option<FilterGroup>)
        ensures
            group == group_of_name(name@),
    {
        if compare_str(name, "default") == Order::Equal {
            Some(FilterGroup::Default)
        } else if compare_str(name, "regional") == Order::Equal {
            Some(FilterGroup::Regional)
        } else if compare_str(name, "ads") == Order::Equal {
            Some(FilterGroup::Ads)
        } else if compare_str(name, "privacy") == Order::Equal {
            Some(FilterGroup::Privacy)
        } else if compare_str(name, "malware") == Order::Equal {
            Some(FilterGroup::Malware)
        } else if compare_str(name, "social") == Order::Equal {
            Some(FilterGroup::Social)
        } else {
            None
        }
    }

    /// The group's name as an owned string.
    pub fn to_string(&self) -> (name: String)
        ensures
            name@ == group_name(*self),
    {
        let name = match self {
            FilterGroup::Default => "default",
            FilterGroup::Regional => "regional",
            FilterGroup::Ads => "ads",
            FilterGroup::Privacy => "privacy",
            FilterGroup::Malware => "malware",
            FilterGroup::Social => "social",
        };
        String::from_str(name)
    }
}

} // verus!
