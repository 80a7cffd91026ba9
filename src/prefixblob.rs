use vstd::prelude::*;
use vstd::string::StringExecFns;

verus! {

/// A layer over a blobstore that prepends a fixed string to every key.
#[derive(Clone, Debug)]
pub struct PrefixBlobstore<T> {
    prefix: String,
    blobstore: T,
}

impl<T> PrefixBlobstore<T> {
    pub closed spec fn prefix_view(&self) -> Seq<char> {
        self.prefix@
    }

    pub closed spec fn inner(&self) -> T {
        self.blobstore
    }

    pub fn new(blobstore: T, prefix: String) -> (r: Self)
        ensures
            r.prefix_view() == prefix@,
            r.inner() == blobstore,
    {
        PrefixBlobstore { prefix, blobstore }
    }

    pub fn into_inner(self) -> (r: T)
        ensures
            r == self.inner(),
    {
        self.blobstore
    }

    pub fn as_inner(&self) -> (r: &T)
        ensures
            *r == self.inner(),
    {
        &self.blobstore
    }

    /// The key under which `key` is stored in the inner blobstore.
    pub fn prepend(&self, key: String) -> (r: String)
        ensures
            r@ == self.prefix_view() + key@,
    {
        self.prefix.clone().concat(key.as_str())
    }
}

} // verus!
