//! Move-based traits for taking a part out of an object and for putting one
//! in. Every operation consumes its receiver and returns the rebuilt object,
//! so a failed step can always hand the original parts back.

use vstd::prelude::*;

verus! {

/// Pops a part of type `V` out of an object, returning the remainder and the
/// part. `split_spec` pins down exactly which pair comes back.
pub trait SplitTrait<V>: Sized {
    type Other;

    spec fn split_spec(self) -> (Self::Other, V);

    fn split(self) -> (r: (Self::Other, V))
        ensures
            r == self.split_spec(),
    ;

    fn split_value(self) -> (r: V)
        ensures
            r == self.split_spec().1,
    {
        let (_other, value) = self.split();
        value
    }

    fn split_other(self) -> (r: Self::Other)
        ensures
            r == self.split_spec().0,
    {
        let (other, _value) = self.split();
        other
    }
}

/// Adds a part of type `V` into an object, returning the merged object.
/// `merge_spec` pins down the result.
pub trait MergeTrait<V>: Sized {
    type MergedObject;

    spec fn merge_spec(self, value: V) -> Self::MergedObject;

    fn merge(self, value: V) -> (r: Self::MergedObject)
        ensures
            r == self.merge_spec(value),
    ;

    fn merge_option(self, value_option: Option<V>) -> (r: Result<Self::MergedObject, Self>)
        ensures
            match value_option {
                Some(value) => r matches Ok(merged) && merged == self.merge_spec(value),
                None => r matches Err(original) && original == self,
            },
    {
        if let Some(value) = value_option {
            Ok(self.merge(value))
        } else {
            Err(self)
        }
    }
}

/// Maps the part of type `V` held by an object to a new one, rebuilding the
/// object around the result.
pub trait MapTrait<V, MappedValue>: Sized {
    type MappedObject;

    fn map<F: FnOnce(V) -> MappedValue>(self, wrap_value: F) -> Self::MappedObject;
}

} // verus!
