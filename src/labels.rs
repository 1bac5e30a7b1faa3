use vstd::prelude::*;

verus! {

/// Number of classes in the news-topic enumeration.
pub open spec fn spec_num_classes() -> nat {
    4
}

/// The name of the class with index `label`, for `label < spec_num_classes()`.
pub open spec fn spec_class_name(label: nat) -> Seq<char> {
    if label == 0 {
        "World"@
    } else if label == 1 {
        "Sports"@
    } else if label == 2 {
        "Business"@
    } else {
        "Technology"@
    }
}

/// Number of classes the model distinguishes.
pub fn num_classes() -> (r: usize)
    ensures
        r == spec_num_classes(),
{
    4
}

/// Human-readable name of the class with index `label`.
pub fn class_name(label: usize) -> (r: String)
    requires
        label < spec_num_classes(),
    ensures
        r@ == spec_class_name(label as nat),
{
    if label == 0 {
        "World".to_owned()
    } else if label == 1 {
        "Sports".to_owned()
    } else if label == 2 {
        "Business".to_owned()
    } else {
        "Technology".to_owned()
    }
}

/// The fixed class enumeration, in index order.
pub open spec fn class_enumeration() -> Seq<Seq<char>> {
    seq!["World"@, "Sports"@, "Business"@, "Technology"@]
}

/// Every index inside the enumeration names its own entry of it, so a name is never out of range.
pub proof fn lemma_class_name_in_enumeration(label: nat)
    requires
        label < spec_num_classes(),
    ensures
        class_enumeration().len() == spec_num_classes(),
        class_enumeration()[label as int] == spec_class_name(label),
        class_enumeration().contains(spec_class_name(label)),
{
    assert(class_enumeration()[label as int] == spec_class_name(label));
}

} // verus!
