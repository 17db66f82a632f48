use crate::errors::ScrapeError;
use crate::object::{Object, ObjectBuilder};
use crate::person::Person;
use vstd::prelude::*;

verus! {

/// The kind of an organisational unit.
#[derive(Debug, Clone)]
pub enum Type {
    Druzina,
    Oddiel,
    Zbor,
    Oblast,
    Rada,
}

/// The parent recorded for a unit, with the box stripped.
pub open spec fn unbox_parent(p: Option<Box<Unit>>) -> Option<Unit> {
    match p {
        Some(b) => Some(*b),
        None => None,
    }
}

/// An organisational unit scraped from the portal.
///
/// Units form a tree: each unit exclusively owns its child units and its
/// person list, both of which only ever grow by appending during scraping.
/// The parent link is informational and never needed for traversal.
#[derive(Debug, Default)]
pub struct Unit {
    name: String,
    id: u32,
    parent_unit: Option<Box<Unit>>,
    child_units: Vec<Unit>,
    persons: Vec<Person>,
    supplementary_name: Option<String>,
    unit_type: Option<Type>,
    number: Option<u32>,
}

impl Unit {
    pub closed spec fn spec_parent(&self) -> Option<Unit> {
        unbox_parent(self.parent_unit)
    }

    pub closed spec fn spec_children(&self) -> Seq<Unit> {
        self.child_units@
    }

    pub closed spec fn spec_persons(&self) -> Seq<Person> {
        self.persons@
    }

    pub closed spec fn spec_supplementary_name(&self) -> Option<Seq<char>> {
        self.supplementary_name.deep_view()
    }

    pub closed spec fn spec_type(&self) -> Option<Type> {
        self.unit_type
    }

    pub closed spec fn spec_number(&self) -> Option<u32> {
        self.number
    }

    /// Everything but the child list is as it was in `pre`.
    pub open spec fn only_children_changed(&self, pre: &Self) -> bool {
        self.spec_name() == pre.spec_name() && self.spec_id() == pre.spec_id()
            && self.spec_parent() == pre.spec_parent() && self.spec_persons() == pre.spec_persons()
            && self.spec_supplementary_name() == pre.spec_supplementary_name() && self.spec_type()
            == pre.spec_type() && self.spec_number() == pre.spec_number()
    }

    /// Everything but the person list is as it was in `pre`.
    pub open spec fn only_persons_changed(&self, pre: &Self) -> bool {
        self.spec_name() == pre.spec_name() && self.spec_id() == pre.spec_id()
            && self.spec_parent() == pre.spec_parent() && self.spec_children()
            == pre.spec_children() && self.spec_supplementary_name()
            == pre.spec_supplementary_name() && self.spec_type() == pre.spec_type()
            && self.spec_number() == pre.spec_number()
    }

    /// Constructs a unit with no children and no persons yet.
    pub fn new(
        name: &str,
        id: u32,
        parent_unit: Option<Box<Unit>>,
        supplementary_name: Option<String>,
        unit_type: Option<Type>,
        number: Option<u32>,
    ) -> (r: Unit)
        ensures
            r.spec_name() == name@,
            r.spec_id() == id,
            r.spec_parent() == unbox_parent(parent_unit),
            r.spec_children() == Seq::<Unit>::empty(),
            r.spec_persons() == Seq::<Person>::empty(),
            r.spec_supplementary_name() == supplementary_name.deep_view(),
            r.spec_type() == unit_type,
            r.spec_number() == number,
    {
        let u = Unit {
            name: name.to_owned(),
            id,
            parent_unit,
            child_units: Vec::new(),
            persons: Vec::new(),
            supplementary_name,
            unit_type,
            number,
        };
        proof {
            assert(u.spec_children() =~= Seq::<Unit>::empty());
            assert(u.spec_persons() =~= Seq::<Person>::empty());
        }
        u
    }

    /// The parent unit, if one was recorded.
    pub fn parent_unit(&self) -> (r: &Option<Box<Unit>>)
        ensures
            unbox_parent(*r) == self.spec_parent(),
    {
        &self.parent_unit
    }

    /// The child units scraped so far, in document order.
    pub fn child_units(&self) -> (r: &Vec<Unit>)
        ensures
            r@ == self.spec_children(),
    {
        &self.child_units
    }

    /// Exclusive access to the child units.
    pub fn child_units_mut(&mut self) -> (r: &mut Vec<Unit>)
        ensures
            r@ == old(self).spec_children(),
            final(self).spec_children() == final(r)@,
            final(self).only_children_changed(old(self)),
    {
        &mut self.child_units
    }

    /// Consumes the unit and yields its child units.
    pub fn into_child_units(self) -> (r: Vec<Unit>)
        ensures
            r@ == self.spec_children(),
    {
        self.child_units
    }

    /// The supplementary name, if one was recorded.
    pub fn supplementary_name(&self) -> (r: &Option<String>)
        ensures
            r.deep_view() == self.spec_supplementary_name(),
    {
        &self.supplementary_name
    }

    /// The unit's kind, if one was recorded.
    pub fn unit_type(&self) -> (r: &Option<Type>)
        ensures
            *r == self.spec_type(),
    {
        &self.unit_type
    }

    /// The unit's ordinal number, if one was recorded.
    pub fn number(&self) -> (r: Option<u32>)
        ensures
            r == self.spec_number(),
    {
        self.number
    }

    /// Appends one child unit.
    pub fn add_child_unit(&mut self, unit: Unit)
        ensures
            final(self).spec_children() == old(self).spec_children().push(unit),
            final(self).only_children_changed(old(self)),
    {
        self.child_units.push(unit);
    }

    /// The persons scraped so far, in document order.
    pub fn persons(&self) -> (r: &Vec<Person>)
        ensures
            r@ == self.spec_persons(),
    {
        &self.persons
    }

    /// Exclusive access to the person list.
    pub fn persons_mut(&mut self) -> (r: &mut Vec<Person>)
        ensures
            r@ == old(self).spec_persons(),
            final(self).spec_persons() == final(r)@,
            final(self).only_persons_changed(old(self)),
    {
        &mut self.persons
    }

    /// Consumes the unit and yields its person list.
    pub fn into_persons(self) -> (r: Vec<Person>)
        ensures
            r@ == self.spec_persons(),
    {
        self.persons
    }

    /// Appends one person.
    pub fn add_person(&mut self, person: Person)
        ensures
            final(self).spec_persons() == old(self).spec_persons().push(person),
            final(self).only_persons_changed(old(self)),
    {
        self.persons.push(person);
    }
}

impl Object for Unit {
    type Builder = UnitBuilder;

    closed spec fn spec_name(&self) -> Seq<char> {
        self.name@
    }

    closed spec fn spec_id(&self) -> u32 {
        self.id
    }

    fn builder() -> (r: UnitBuilder) {
        let b = UnitBuilder {
            name: None,
            id: None,
            parent_unit: None,
            supplementary_name: None,
            unit_type: None,
            number: None,
        };
        proof {
            assert(b.builder_name() is None);
            assert(b.builder_id() is None);
        }
        b
    }

    fn name(&self) -> (r: &str) {
        self.name.as_str()
    }

    fn id(&self) -> (r: u32) {
        self.id
    }
}

/// A single-use accumulator for [`Unit`] objects.
pub struct UnitBuilder {
    name: Option<String>,
    id: Option<u32>,
    parent_unit: Option<Box<Unit>>,
    supplementary_name: Option<String>,
    unit_type: Option<Type>,
    number: Option<u32>,
}

impl UnitBuilder {
    pub closed spec fn builder_parent(&self) -> Option<Unit> {
        unbox_parent(self.parent_unit)
    }

    pub closed spec fn builder_supplementary_name(&self) -> Option<Seq<char>> {
        self.supplementary_name.deep_view()
    }

    pub closed spec fn builder_type(&self) -> Option<Type> {
        self.unit_type
    }

    pub closed spec fn builder_number(&self) -> Option<u32> {
        self.number
    }

    /// All optional attributes are as they were before the call.
    pub open spec fn optional_fields_unchanged(&self, post: &Self) -> bool {
        post.builder_parent() == self.builder_parent() && post.builder_supplementary_name()
            == self.builder_supplementary_name() && post.builder_type() == self.builder_type()
            && post.builder_number() == self.builder_number()
    }

    /// Records the parent unit.
    pub fn parent_unit(&mut self, parent_unit: Unit)
        ensures
            final(self).builder_parent() == Some(parent_unit),
            final(self).builder_name() == old(self).builder_name(),
            final(self).builder_id() == old(self).builder_id(),
            final(self).builder_supplementary_name() == old(self).builder_supplementary_name(),
            final(self).builder_type() == old(self).builder_type(),
            final(self).builder_number() == old(self).builder_number(),
    {
        self.parent_unit = Some(Box::new(parent_unit));
    }

    /// Records the supplementary name.
    pub fn supplementary_name(&mut self, supplementary_name: &str)
        ensures
            final(self).builder_supplementary_name() == Some(supplementary_name@),
            final(self).builder_name() == old(self).builder_name(),
            final(self).builder_id() == old(self).builder_id(),
            final(self).builder_parent() == old(self).builder_parent(),
            final(self).builder_type() == old(self).builder_type(),
            final(self).builder_number() == old(self).builder_number(),
    {
        self.supplementary_name = Some(supplementary_name.to_owned());
    }

    /// Records the unit's kind.
    pub fn unit_type(&mut self, unit_type: Type)
        ensures
            final(self).builder_type() == Some(unit_type),
            final(self).builder_name() == old(self).builder_name(),
            final(self).builder_id() == old(self).builder_id(),
            final(self).builder_parent() == old(self).builder_parent(),
            final(self).builder_supplementary_name() == old(self).builder_supplementary_name(),
            final(self).builder_number() == old(self).builder_number(),
    {
        self.unit_type = Some(unit_type);
    }

    /// Records the unit's ordinal number.
    pub fn number(&mut self, number: u32)
        ensures
            final(self).builder_number() == Some(number),
            final(self).builder_name() == old(self).builder_name(),
            final(self).builder_id() == old(self).builder_id(),
            final(self).builder_parent() == old(self).builder_parent(),
            final(self).builder_supplementary_name() == old(self).builder_supplementary_name(),
            final(self).builder_type() == old(self).builder_type(),
    {
        self.number = Some(number);
    }
}

/// What building a unit yields: exactly the recorded fields, an empty child
/// list and an empty person list when both mandatory fields are present, and
/// `MissingRequiredField` otherwise.
pub proof fn lemma_unit_build(b: UnitBuilder, r: Result<Unit, ScrapeError>)
    requires
        b.build_ens(r),
    ensures
        match r {
            Ok(u) => b.builder_name() is Some && b.builder_id() is Some && u.spec_name()
                == b.builder_name()->0 && u.spec_id() == b.builder_id()->0 && u.spec_parent()
                == b.builder_parent() && u.spec_children() =~= Seq::<Unit>::empty()
                && u.spec_persons() =~= Seq::<Person>::empty() && u.spec_supplementary_name()
                == b.builder_supplementary_name() && u.spec_type() == b.builder_type()
                && u.spec_number() == b.builder_number(),
            Err(e) => (b.builder_name() is None || b.builder_id() is None)
                && e is MissingRequiredField,
        },
{
}

impl Default for UnitBuilder {
    /// A builder with no field set.
    fn default() -> (r: UnitBuilder)
        ensures
            r.builder_name() is None,
            r.builder_id() is None,
            r.builder_parent() is None,
            r.builder_supplementary_name() is None,
            r.builder_type() is None,
            r.builder_number() is None,
    {
        UnitBuilder {
            name: None,
            id: None,
            parent_unit: None,
            supplementary_name: None,
            unit_type: None,
            number: None,
        }
    }
}

impl ObjectBuilder for UnitBuilder {
    type Object = Unit;

    closed spec fn builder_name(&self) -> Option<Seq<char>> {
        self.name.deep_view()
    }

    closed spec fn builder_id(&self) -> Option<u32> {
        self.id
    }

    open spec fn same_optional_fields(&self, other: &Self) -> bool {
        self.optional_fields_unchanged(other)
    }

    closed spec fn build_ens(self, r: Result<Unit, ScrapeError>) -> bool {
        match r {
            Ok(u) => self.name is Some && self.id is Some && u.name == self.name->0 && u.id
                == self.id->0 && u.parent_unit == self.parent_unit && u.child_units@.len() == 0
                && u.persons@.len() == 0 && u.supplementary_name == self.supplementary_name
                && u.unit_type == self.unit_type && u.number == self.number,
            Err(e) => (self.name is None || self.id is None) && e is MissingRequiredField,
        }
    }

    fn name(&mut self, name: &str) {
        self.name = Some(name.to_owned());
    }

    fn id(&mut self, id: u32) {
        self.id = Some(id);
    }

    fn build(self) -> (r: Result<Unit, ScrapeError>) {
        let UnitBuilder { name, id, parent_unit, supplementary_name, unit_type, number } = self;
        match (name, id) {
            (Some(name), Some(id)) => Ok(
                Unit {
                    name,
                    id,
                    parent_unit,
                    child_units: Vec::new(),
                    persons: Vec::new(),
                    supplementary_name,
                    unit_type,
                    number,
                },
            ),
            _ => Err(ScrapeError::MissingRequiredField),
        }
    }
}

} // verus!
