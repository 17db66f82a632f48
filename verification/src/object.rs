use crate::errors::ScrapeError;
use vstd::prelude::*;

verus! {

/// The common interface of the scraped domain objects (units and persons).
///
/// Every object carries a mandatory display name and a mandatory numeric
/// identifier, and is produced by a single-use builder.
pub trait Object: Sized {
    type Builder: ObjectBuilder<Object = Self>;

    /// The object's display name.
    spec fn spec_name(&self) -> Seq<char>;

    /// The object's unique identifier.
    spec fn spec_id(&self) -> u32;

    /// A fresh builder with no field set yet.
    fn builder() -> (r: Self::Builder)
        ensures
            r.builder_name() is None,
            r.builder_id() is None,
    ;

    /// The object's display name.
    fn name(&self) -> (r: &str)
        ensures
            r@ == self.spec_name(),
    ;

    /// The object's unique identifier.
    fn id(&self) -> (r: u32)
        ensures
            r == self.spec_id(),
    ;
}

/// A single-use accumulator that validates and assembles one domain object.
///
/// `name` and `id` are mandatory: `build` succeeds exactly when both were
/// set, and fails with [`ScrapeError::MissingRequiredField`] otherwise.
pub trait ObjectBuilder: Sized {
    type Object;

    /// The name recorded so far, if any.
    spec fn builder_name(&self) -> Option<Seq<char>>;

    /// The identifier recorded so far, if any.
    spec fn builder_id(&self) -> Option<u32>;

    /// The full relation between a consumed builder and what `build` returned.
    spec fn build_ens(self, r: Result<Self::Object, ScrapeError>) -> bool;

    /// Every optional field of `other` is as it is in `self`.
    spec fn same_optional_fields(&self, other: &Self) -> bool;

    /// Records the mandatory display name.
    fn name(&mut self, name: &str)
        ensures
            final(self).builder_name() == Some(name@),
            final(self).builder_id() == old(self).builder_id(),
            old(self).same_optional_fields(final(self)),
    ;

    /// Records the mandatory identifier.
    fn id(&mut self, id: u32)
        ensures
            final(self).builder_id() == Some(id),
            final(self).builder_name() == old(self).builder_name(),
            old(self).same_optional_fields(final(self)),
    ;

    /// Consumes the builder and constructs the object.
    fn build(self) -> (r: Result<Self::Object, ScrapeError>)
        ensures
            self.build_ens(r),
            r is Ok <==> (self.builder_name() is Some && self.builder_id() is Some),
            r is Err ==> r->Err_0 is MissingRequiredField,
    ;
}

} // verus!
