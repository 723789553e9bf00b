//! Lists of names: device paths, capture devices.

use vstd::prelude::*;

verus! {

/// The names of a list as sequences of characters.
pub open spec fn names_of(list: Seq<String>) -> Seq<Seq<char>> {
    Seq::new(list.len(), |i: int| list[i]@)
}

/// The first place at which `name` stands in `names`, if it stands there.
pub open spec fn first_place(names: Seq<Seq<char>>, name: Seq<char>) -> Option<usize> {
    if exists|i: int| 0 <= i < names.len() && names[i] == name {
        let i = choose|i: int|
            0 <= i < names.len() && names[i] == name && forall|j: int|
                0 <= j < i ==> names[j] != name;
        Some(i as usize)
    } else {
        None
    }
}

/// Whether two lists hold the same names in the same order.
pub fn same_names(a: &Vec<String>, b: &Vec<String>) -> (r: bool)
    ensures
        r == (names_of(a@) == names_of(b@)),
{
    if a.len() != b.len() {
        assert(names_of(a@).len() != names_of(b@).len());
        return false;
    }
    let mut i: usize = 0;
    while i < a.len()
        invariant
            a@.len() == b@.len(),
            i <= a@.len(),
            forall|j: int| 0 <= j < i ==> a@[j]@ == b@[j]@,
        decreases a@.len() - i,
    {
        if a[i] != b[i] {
            assert(names_of(a@)[i as int] != names_of(b@)[i as int]);
            return false;
        }
        i += 1;
    }
    assert(names_of(a@) =~= names_of(b@));
    true
}

/// The first place at which `name` stands in `list`.
pub fn position(list: &Vec<String>, name: &String) -> (r: Option<usize>)
    ensures
        r == first_place(names_of(list@), name@),
        r matches Some(i) ==> i < list@.len() && list@[i as int]@ == name@,
{
    let ghost names = names_of(list@);
    let mut i: usize = 0;
    while i < list.len()
        invariant
            names == names_of(list@),
            i <= list@.len(),
            forall|j: int| 0 <= j < i ==> names[j] != name@,
        decreases list@.len() - i,
    {
        if list[i] == *name {
            assert(names[i as int] == name@);
            let ghost found = choose|k: int|
                0 <= k < names.len() && names[k] == name@ && forall|j: int|
                    0 <= j < k ==> names[j] != name@;
            assert(found == i) by {
                if found < i {
                    assert(names[found] != name@);
                }
                if i < found {
                    assert(names[i as int] != name@);
                }
            }
            return Some(i);
        }
        i += 1;
    }
    assert(!exists|k: int| 0 <= k < names.len() && names[k] == name@);
    None
}

} // verus!
