//! Validated references to objects in the object store.

use vstd::prelude::*;

verus! {

/// A bucket name and an object key, as sequences of characters.
pub struct ReferenceModel {
    pub bucket: Seq<char>,
    pub key: Seq<char>,
}

/// A validated `(bucket, key)` pair naming one object. Neither part is empty.
#[derive(Debug, PartialEq, Eq)]
pub struct ObjectReference {
    bucket: String,
    key: String,
}

impl View for ObjectReference {
    type V = ReferenceModel;

    closed spec fn view(&self) -> ReferenceModel {
        ReferenceModel { bucket: self.bucket@, key: self.key@ }
    }
}

impl ObjectReference {
    #[verifier::type_invariant]
    spec fn well_formed(&self) -> bool {
        self.bucket@.len() > 0 && self.key@.len() > 0
    }

    /// The reference to `key` in `bucket`, both taken verbatim, or `None` when
    /// either is empty.
    pub fn new(bucket: String, key: String) -> (reference: Option<ObjectReference>)
        ensures
            reference is Some <==> bucket@.len() > 0 && key@.len() > 0,
            reference matches Some(r) ==> r@ == (ReferenceModel { bucket: bucket@, key: key@ }),
    {
        if bucket.as_str().is_empty() || key.as_str().is_empty() {
            None
        } else {
            Some(ObjectReference { bucket, key })
        }
    }

    /// The bucket name.
    pub fn bucket(&self) -> (bucket: &str)
        ensures
            bucket@ == self@.bucket,
            bucket@.len() > 0,
    {
        proof {
            use_type_invariant(self);
        }
        self.bucket.as_str()
    }

    /// The object key.
    pub fn key(&self) -> (key: &str)
        ensures
            key@ == self@.key,
            key@.len() > 0,
    {
        proof {
            use_type_invariant(self);
        }
        self.key.as_str()
    }

}

impl Clone for ObjectReference {
    fn clone(&self) -> (copy: Self)
        ensures
            copy@ == self@,
    {
        proof {
            use_type_invariant(self);
        }
        ObjectReference { bucket: self.bucket.clone(), key: self.key.clone() }
    }
}

} // verus!
