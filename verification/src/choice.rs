//! Choosing a value by its name, as a prompt for one of a few words does.

use vstd::prelude::*;

verus! {

/// Whether entry `i` of `mappings` is the first one named `name`.
pub open spec fn is_first_named<T>(mappings: Seq<(&str, T)>, name: Seq<char>, i: int) -> bool {
    &&& 0 <= i < mappings.len()
    &&& mappings[i].0@ == name
    &&& forall|j: int| 0 <= j < i ==> (#[trigger] mappings[j]).0@ != name
}

/// Whether two strings hold the same characters.
fn same_text(a: &str, b: &str) -> (same: bool)
    ensures
        same == (a@ == b@),
{
    String::from_str(a) == String::from_str(b)
}

/// The value of the first entry whose name is `name`, if there is one.
pub fn lookup_name<T: Copy>(mappings: &[(&str, T)], name: &str) -> (found: Option<T>)
    ensures
        match found {
            Some(value) => exists|i: int|
                is_first_named(mappings@, name@, i) && value == (#[trigger] mappings@[i]).1,
            None => forall|i: int|
                0 <= i < mappings@.len() ==> (#[trigger] mappings@[i]).0@ != name@,
        },
{
    let mut i: usize = 0;
    while i < mappings.len()
        invariant
            i <= mappings@.len(),
            forall|j: int| 0 <= j < i ==> (#[trigger] mappings@[j]).0@ != name@,
        decreases mappings@.len() - i,
    {
        if same_text(mappings[i].0, name) {
            assert(is_first_named(mappings@, name@, i as int));
            return Some(mappings[i].1);
        }
        i += 1;
    }
    None
}

} // verus!
