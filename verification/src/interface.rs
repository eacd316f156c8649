//! Selection of the network interface by name.
//!
//! The process asks the system for its interfaces and hands their names
//! here; the choice among them is the library's. Opening the chosen
//! interface is the caller's affair.

use vstd::prelude::*;

verus! {

/// The position of the first interface whose name is `wanted`, among the
/// names the system reported, or `None` when no interface has that name.
pub fn select_interface(names: &Vec<String>, wanted: &String) -> (r: Option<usize>)
    ensures
        match r {
            Some(i) => {
                &&& i < names@.len()
                &&& names@[i as int]@ == wanted@
                &&& forall|j: int| 0 <= j < i ==> names@[j]@ != wanted@
            },
            None => forall|j: int| 0 <= j < names@.len() ==> names@[j]@ != wanted@,
        },
{
    let mut i: usize = 0;
    while i < names.len()
        invariant
            i <= names@.len(),
            forall|j: int| 0 <= j < i ==> names@[j]@ != wanted@,
        decreases names@.len() - i,
    {
        if names[i] == *wanted {
            return Some(i);
        }
        i += 1;
    }
    None
}

} // verus!
