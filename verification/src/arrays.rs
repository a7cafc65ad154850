//! Element-wise array modification dispatched by element type. Numeric
//! elements at odd indices are incremented in place and the changed values
//! reported in a map; string-like elements are left alone and returned as a
//! fresh copy; an element type that opts out is rejected with a message.

use std::collections::HashMap;
use vstd::prelude::*;
use vstd::string::StringExecFns;

verus! {

broadcast use vstd::std_specs::hash::group_hash_axioms;

/// How one call of the array modifier reports its work: changed values by
/// index for in-place element types, a fresh copy for copy-out element
/// types, or a message for anything else.
pub enum ModArrResult<T> {
    ModifiedValues(HashMap<usize, T>),
    NewArray(Vec<T>),
    Error(String),
}

/// An element type the array modifier knows how to touch.
pub trait ModifiableArray: Sized {
    /// When modifying the element at `index` cannot overflow.
    spec fn spec_can_modify(self, index: int) -> bool;

    /// The element's value after a visit at `index`.
    spec fn spec_modified(self, index: int) -> Self;

    /// Whether this element type asks for a fresh copy of the array instead
    /// of in-place modification.
    spec fn spec_returns_copy() -> bool;

    /// Visit the element at `index`, updating it in place.
    fn modify_array(&mut self, index: usize)
        requires
            old(self).spec_can_modify(index as int),
        ensures
            *final(self) == old(self).spec_modified(index as int),
    ;

    fn should_return_copy() -> (r: bool)
        ensures
            r == Self::spec_returns_copy(),
    ;
}

/// An element type's self-description: whether the modifier supports it, and
/// the name used in the rejection message.
pub trait SupportedType {
    spec fn spec_supported() -> bool;

    spec fn spec_type_label() -> Seq<char>;

    fn is_supported() -> (r: bool)
        ensures
            r == Self::spec_supported(),
    ;

    fn type_label() -> (r: &'static str)
        ensures
            r@ == Self::spec_type_label(),
    ;
}

impl ModifiableArray for i8 {
    open spec fn spec_can_modify(self, index: int) -> bool {
        index % 2 == 1 ==> self < i8::MAX
    }

    open spec fn spec_modified(self, index: int) -> i8 {
        if index % 2 == 1 {
            (self + 1) as i8
        } else {
            self
        }
    }

    open spec fn spec_returns_copy() -> bool {
        false
    }

    fn modify_array(&mut self, index: usize) {
        if index % 2 == 1 {
            *self = *self + 1;
        }
    }

    fn should_return_copy() -> bool {
        false
    }
}

impl SupportedType for i8 {
    open spec fn spec_supported() -> bool {
        true
    }

    open spec fn spec_type_label() -> Seq<char> {
        "i8"@
    }

    fn is_supported() -> bool {
        true
    }

    fn type_label() -> &'static str {
        "i8"
    }
}

impl ModifiableArray for i32 {
    open spec fn spec_can_modify(self, index: int) -> bool {
        index % 2 == 1 ==> self < i32::MAX
    }

    open spec fn spec_modified(self, index: int) -> i32 {
        if index % 2 == 1 {
            (self + 1) as i32
        } else {
            self
        }
    }

    open spec fn spec_returns_copy() -> bool {
        false
    }

    fn modify_array(&mut self, index: usize) {
        if index % 2 == 1 {
            *self = *self + 1;
        }
    }

    fn should_return_copy() -> bool {
        false
    }
}

impl SupportedType for i32 {
    open spec fn spec_supported() -> bool {
        true
    }

    open spec fn spec_type_label() -> Seq<char> {
        "i32"@
    }

    fn is_supported() -> bool {
        true
    }

    fn type_label() -> &'static str {
        "i32"
    }
}

impl ModifiableArray for String {
    open spec fn spec_can_modify(self, index: int) -> bool {
        true
    }

    open spec fn spec_modified(self, index: int) -> String {
        self
    }

    open spec fn spec_returns_copy() -> bool {
        true
    }

    fn modify_array(&mut self, index: usize) {
    }

    fn should_return_copy() -> bool {
        true
    }
}

impl SupportedType for String {
    open spec fn spec_supported() -> bool {
        true
    }

    open spec fn spec_type_label() -> Seq<char> {
        "String"@
    }

    fn is_supported() -> bool {
        true
    }

    fn type_label() -> &'static str {
        "String"
    }
}

impl ModifiableArray for bool {
    open spec fn spec_can_modify(self, index: int) -> bool {
        true
    }

    open spec fn spec_modified(self, index: int) -> bool {
        self
    }

    open spec fn spec_returns_copy() -> bool {
        false
    }

    fn modify_array(&mut self, index: usize) {
    }

    fn should_return_copy() -> bool {
        false
    }
}

impl SupportedType for bool {
    open spec fn spec_supported() -> bool {
        false
    }

    open spec fn spec_type_label() -> Seq<char> {
        "bool"@
    }

    fn is_supported() -> bool {
        false
    }

    fn type_label() -> &'static str {
        "bool"
    }
}

impl<'a> ModifiableArray for &'a str {
    open spec fn spec_can_modify(self, index: int) -> bool {
        true
    }

    open spec fn spec_modified(self, index: int) -> &'a str {
        self
    }

    open spec fn spec_returns_copy() -> bool {
        true
    }

    fn modify_array(&mut self, index: usize) {
    }

    fn should_return_copy() -> bool {
        true
    }
}

impl<'a> SupportedType for &'a str {
    open spec fn spec_supported() -> bool {
        true
    }

    open spec fn spec_type_label() -> Seq<char> {
        "&str"@
    }

    fn is_supported() -> bool {
        true
    }

    fn type_label() -> &'static str {
        "&str"
    }
}

/// The message rejecting an element type the modifier does not support.
pub open spec fn spec_unsupported_message(name: Seq<char>) -> Seq<char> {
    "Unsupported types of array: "@ + name + ". Use integers, floats, or string arrays"@
}

fn unsupported_message<T: SupportedType>() -> (msg: String)
    ensures
        msg@ == spec_unsupported_message(T::spec_type_label()),
{
    let mut msg = "Unsupported types of array: ".to_owned();
    msg.append(T::type_label());
    msg.append(". Use integers, floats, or string arrays");
    proof {
        assert(msg@ =~= spec_unsupported_message(T::spec_type_label()));
    }
    msg
}

/// The in-place pass did its work: every element was visited in order, and
/// the map holds a clone of each odd-indexed (hence changed) element, keyed
/// by its index, and nothing else.
pub open spec fn spec_modified_ok<T: ModifiableArray + Clone>(
    before: Seq<T>,
    after: Seq<T>,
    m: Map<usize, T>,
) -> bool {
    &&& after.len() == before.len()
    &&& forall|i: int| 0 <= i < before.len() ==> after[i] == before[i].spec_modified(i)
    &&& forall|k: usize|
        #[trigger] m.contains_key(k) <==> (k % 2 == 1 && (k as int) < before.len())
    &&& forall|k: usize| #[trigger] m.contains_key(k) ==> cloned::<T>(after[k as int], m[k])
}

/// The copy-out pass did its work: the array is untouched and the fresh
/// array holds a clone of each element.
pub open spec fn spec_copied_ok<T: Clone>(before: Seq<T>, copy: Seq<T>) -> bool {
    &&& copy.len() == before.len()
    &&& forall|i: int| 0 <= i < before.len() ==> cloned::<T>(before[i], #[trigger] copy[i])
}

fn modify_in_place<T: ModifiableArray + Clone>(array: &mut Vec<T>) -> (m: HashMap<usize, T>)
    requires
        forall|i: int| 0 <= i < old(array)@.len() ==> old(array)@[i].spec_can_modify(i),
    ensures
        spec_modified_ok(old(array)@, final(array)@, m@),
{
    let mut modified_map: HashMap<usize, T> = HashMap::new();
    let mut i: usize = 0;
    while i < array.len()
        invariant
            i <= array@.len(),
            array@.len() == old(array)@.len(),
            forall|j: int| 0 <= j < old(array)@.len() ==> old(array)@[j].spec_can_modify(j),
            forall|j: int| 0 <= j < i ==> array@[j] == old(array)@[j].spec_modified(j),
            forall|j: int| i <= j < array@.len() ==> array@[j] == old(array)@[j],
            forall|k: usize|
                #[trigger] modified_map@.contains_key(k) <==> (k % 2 == 1 && (k as int) < i),
            forall|k: usize|
                #[trigger] modified_map@.contains_key(k) ==> cloned::<T>(
                    array@[k as int],
                    modified_map@[k],
                ),
        decreases array@.len() - i,
    {
        let ghost prev = array@;
        let mut x = array.remove(i);
        x.modify_array(i);
        if i % 2 == 1 {
            let y = x.clone();
            array.insert(i, x);
            modified_map.insert(i, y);
        } else {
            array.insert(i, x);
        }
        proof {
            assert(array@ =~= prev.update(i as int, array@[i as int]));
        }
        i = i + 1;
    }
    modified_map
}

/// Modify an array according to its element type: numeric elements at odd
/// indices are incremented in place and reported by index, string-like
/// elements are returned as a fresh copy, and an unsupported element type is
/// rejected with a message naming it.
pub fn mod_arr<T: ModifiableArray + Clone + 'static + SupportedType>(array: &mut Vec<T>) -> (result:
    ModArrResult<T>)
    requires
        forall|i: int| 0 <= i < old(array)@.len() ==> old(array)@[i].spec_can_modify(i),
    ensures
        !T::spec_supported() ==> {
            &&& result matches ModArrResult::Error(msg) && msg@ == spec_unsupported_message(
                T::spec_type_label(),
            )
            &&& *final(array) == *old(array)
        },
        T::spec_supported() && T::spec_returns_copy() ==> {
            &&& result matches ModArrResult::NewArray(copy) && spec_copied_ok(
                old(array)@,
                copy@,
            )
            &&& *final(array) == *old(array)
        },
        T::spec_supported() && !T::spec_returns_copy() ==> {
            result matches ModArrResult::ModifiedValues(m) && spec_modified_ok(
                old(array)@,
                final(array)@,
                m@,
            )
        },
{
    if !T::is_supported() {
        return ModArrResult::Error(unsupported_message::<T>());
    }
    if T::should_return_copy() {
        let new_array = array.clone();
        ModArrResult::NewArray(new_array)
    } else {
        ModArrResult::ModifiedValues(modify_in_place(array))
    }
}

/// Like [`mod_arr`], but rejecting arrays that are empty or longer than a
/// thousand elements before doing any work.
pub fn mod_arr_with_validation<T: ModifiableArray + Clone + 'static + SupportedType>(
    array: &mut Vec<T>,
) -> (result: ModArrResult<T>)
    requires
        forall|i: int| 0 <= i < old(array)@.len() ==> old(array)@[i].spec_can_modify(i),
    ensures
        !T::spec_supported() ==> {
            &&& result matches ModArrResult::Error(msg) && msg@ == spec_unsupported_message(
                T::spec_type_label(),
            )
            &&& *final(array) == *old(array)
        },
        T::spec_supported() && old(array)@.len() == 0 ==> {
            &&& result matches ModArrResult::Error(msg) && msg@ == "Array cannot be empty"@
            &&& *final(array) == *old(array)
        },
        T::spec_supported() && old(array)@.len() > 1000 ==> {
            &&& result matches ModArrResult::Error(msg) && msg@
                == "Array too large (max 1000 elements)"@
            &&& *final(array) == *old(array)
        },
        T::spec_supported() && 0 < old(array)@.len() <= 1000 && T::spec_returns_copy() ==> {
            &&& result matches ModArrResult::NewArray(copy) && spec_copied_ok(
                old(array)@,
                copy@,
            )
            &&& *final(array) == *old(array)
        },
        T::spec_supported() && 0 < old(array)@.len() <= 1000 && !T::spec_returns_copy() ==> {
            result matches ModArrResult::ModifiedValues(m) && spec_modified_ok(
                old(array)@,
                final(array)@,
                m@,
            )
        },
{
    if !T::is_supported() {
        return ModArrResult::Error(unsupported_message::<T>());
    }
    if array.len() == 0 {
        return ModArrResult::Error("Array cannot be empty".to_owned());
    }
    if array.len() > 1000 {
        return ModArrResult::Error("Array too large (max 1000 elements)".to_owned());
    }
    if T::should_return_copy() {
        let new_array = array.clone();
        ModArrResult::NewArray(new_array)
    } else {
        ModArrResult::ModifiedValues(modify_in_place(array))
    }
}

} // verus!
