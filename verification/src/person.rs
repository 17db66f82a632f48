use crate::errors::ScrapeError;
use crate::object::{Object, ObjectBuilder};
use vstd::prelude::*;

verus! {

/// The gender recorded for a person, when the portal exposes it.
#[derive(Debug, Clone)]
pub enum Gender {
    Male,
    Female,
}

/// A person scraped from a unit's member listing.
///
/// `name` and `id` are mandatory; every other attribute is optional and kept
/// exactly as the builder recorded it.
#[derive(Debug, Clone, Default)]
pub struct Person {
    name: String,
    id: u32,
    gender: Option<Gender>,
    birth_date: Option<String>,
    nickname: Option<String>,
    volunteer: Option<bool>,
    ztp: Option<bool>,
}

impl Person {
    pub closed spec fn spec_gender(&self) -> Option<Gender> {
        self.gender
    }

    pub closed spec fn spec_birth_date(&self) -> Option<Seq<char>> {
        self.birth_date.deep_view()
    }

    pub closed spec fn spec_nickname(&self) -> Option<Seq<char>> {
        self.nickname.deep_view()
    }

    pub closed spec fn spec_volunteer(&self) -> Option<bool> {
        self.volunteer
    }

    pub closed spec fn spec_ztp(&self) -> Option<bool> {
        self.ztp
    }

    /// Constructs a person from all of its attributes at once.
    pub fn new(
        name: &str,
        id: u32,
        gender: Option<Gender>,
        birth_date: Option<String>,
        nickname: Option<String>,
        volunteer: Option<bool>,
        ztp: Option<bool>,
    ) -> (r: Person)
        ensures
            r.spec_name() == name@,
            r.spec_id() == id,
            r.spec_gender() == gender,
            r.spec_birth_date() == birth_date.deep_view(),
            r.spec_nickname() == nickname.deep_view(),
            r.spec_volunteer() == volunteer,
            r.spec_ztp() == ztp,
    {
        Person { name: name.to_owned(), id, gender, birth_date, nickname, volunteer, ztp }
    }

    /// The person's gender, if recorded.
    pub fn gender(&self) -> (r: &Option<Gender>)
        ensures
            *r == self.spec_gender(),
    {
        &self.gender
    }

    /// The person's birth date, if recorded.
    pub fn birth_date(&self) -> (r: &Option<String>)
        ensures
            r.deep_view() == self.spec_birth_date(),
    {
        &self.birth_date
    }

    /// The person's nickname, if recorded.
    pub fn nickname(&self) -> (r: &Option<String>)
        ensures
            r.deep_view() == self.spec_nickname(),
    {
        &self.nickname
    }

    /// Whether the person is a volunteer, if recorded.
    pub fn volunteer(&self) -> (r: Option<bool>)
        ensures
            r == self.spec_volunteer(),
    {
        self.volunteer
    }

    /// Whether the person has a disability card, if recorded.
    pub fn ztp(&self) -> (r: Option<bool>)
        ensures
            r == self.spec_ztp(),
    {
        self.ztp
    }
}

impl Object for Person {
    type Builder = PersonBuilder;

    closed spec fn spec_name(&self) -> Seq<char> {
        self.name@
    }

    closed spec fn spec_id(&self) -> u32 {
        self.id
    }

    fn builder() -> (r: PersonBuilder) {
        PersonBuilder {
            name: None,
            id: None,
            gender: None,
            birth_date: None,
            nickname: None,
            volunteer: None,
            ztp: None,
        }
    }

    fn name(&self) -> (r: &str) {
        self.name.as_str()
    }

    fn id(&self) -> (r: u32) {
        self.id
    }
}

/// A single-use accumulator for [`Person`] objects.
pub struct PersonBuilder {
    name: Option<String>,
    id: Option<u32>,
    gender: Option<Gender>,
    birth_date: Option<String>,
    nickname: Option<String>,
    volunteer: Option<bool>,
    ztp: Option<bool>,
}

impl PersonBuilder {
    pub closed spec fn builder_gender(&self) -> Option<Gender> {
        self.gender
    }

    pub closed spec fn builder_birth_date(&self) -> Option<Seq<char>> {
        self.birth_date.deep_view()
    }

    pub closed spec fn builder_nickname(&self) -> Option<Seq<char>> {
        self.nickname.deep_view()
    }

    pub closed spec fn builder_volunteer(&self) -> Option<bool> {
        self.volunteer
    }

    pub closed spec fn builder_ztp(&self) -> Option<bool> {
        self.ztp
    }

    /// All optional attributes are as they were before the call.
    pub open spec fn optional_fields_unchanged(&self, post: &Self) -> bool {
        post.builder_gender() == self.builder_gender() && post.builder_birth_date()
            == self.builder_birth_date() && post.builder_nickname() == self.builder_nickname()
            && post.builder_volunteer() == self.builder_volunteer() && post.builder_ztp()
            == self.builder_ztp()
    }

    /// Records the person's gender.
    pub fn gender(&mut self, gender: Gender)
        ensures
            final(self).builder_gender() == Some(gender),
            final(self).builder_name() == old(self).builder_name(),
            final(self).builder_id() == old(self).builder_id(),
            final(self).builder_birth_date() == old(self).builder_birth_date(),
            final(self).builder_nickname() == old(self).builder_nickname(),
            final(self).builder_volunteer() == old(self).builder_volunteer(),
            final(self).builder_ztp() == old(self).builder_ztp(),
    {
        self.gender = Some(gender);
    }

    /// Records the person's birth date.
    pub fn birth_date(&mut self, birth_date: &str)
        ensures
            final(self).builder_birth_date() == Some(birth_date@),
            final(self).builder_name() == old(self).builder_name(),
            final(self).builder_id() == old(self).builder_id(),
            final(self).builder_gender() == old(self).builder_gender(),
            final(self).builder_nickname() == old(self).builder_nickname(),
            final(self).builder_volunteer() == old(self).builder_volunteer(),
            final(self).builder_ztp() == old(self).builder_ztp(),
    {
        self.birth_date = Some(birth_date.to_owned());
    }

    /// Records the person's nickname.
    pub fn nickname(&mut self, nickname: &str)
        ensures
            final(self).builder_nickname() == Some(nickname@),
            final(self).builder_name() == old(self).builder_name(),
            final(self).builder_id() == old(self).builder_id(),
            final(self).builder_gender() == old(self).builder_gender(),
            final(self).builder_birth_date() == old(self).builder_birth_date(),
            final(self).builder_volunteer() == old(self).builder_volunteer(),
            final(self).builder_ztp() == old(self).builder_ztp(),
    {
        self.nickname = Some(nickname.to_owned());
    }

    /// Records whether the person is a volunteer.
    pub fn volunteer(&mut self, volunteer: bool)
        ensures
            final(self).builder_volunteer() == Some(volunteer),
            final(self).builder_name() == old(self).builder_name(),
            final(self).builder_id() == old(self).builder_id(),
            final(self).builder_gender() == old(self).builder_gender(),
            final(self).builder_birth_date() == old(self).builder_birth_date(),
            final(self).builder_nickname() == old(self).builder_nickname(),
            final(self).builder_ztp() == old(self).builder_ztp(),
    {
        self.volunteer = Some(volunteer);
    }

    /// Records whether the person has a disability card.
    pub fn ztp(&mut self, ztp: bool)
        ensures
            final(self).builder_ztp() == Some(ztp),
            final(self).builder_name() == old(self).builder_name(),
            final(self).builder_id() == old(self).builder_id(),
            final(self).builder_gender() == old(self).builder_gender(),
            final(self).builder_birth_date() == old(self).builder_birth_date(),
            final(self).builder_nickname() == old(self).builder_nickname(),
            final(self).builder_volunteer() == old(self).builder_volunteer(),
    {
        self.ztp = Some(ztp);
    }
}

/// What building a person yields: exactly the recorded fields when both
/// mandatory ones are present, and `MissingRequiredField` otherwise.
pub proof fn lemma_person_build(b: PersonBuilder, r: Result<Person, ScrapeError>)
    requires
        b.build_ens(r),
    ensures
        match r {
            Ok(p) => b.builder_name() is Some && b.builder_id() is Some && p.spec_name()
                == b.builder_name()->0 && p.spec_id() == b.builder_id()->0 && p.spec_gender()
                == b.builder_gender() && p.spec_birth_date() == b.builder_birth_date()
                && p.spec_nickname() == b.builder_nickname() && p.spec_volunteer()
                == b.builder_volunteer() && p.spec_ztp() == b.builder_ztp(),
            Err(e) => (b.builder_name() is None || b.builder_id() is None)
                && e is MissingRequiredField,
        },
{
}

impl Default for PersonBuilder {
    /// A builder with no field set.
    fn default() -> (r: PersonBuilder)
        ensures
            r.builder_name() is None,
            r.builder_id() is None,
            r.builder_gender() is None,
            r.builder_birth_date() is None,
            r.builder_nickname() is None,
            r.builder_volunteer() is None,
            r.builder_ztp() is None,
    {
        PersonBuilder {
            name: None,
            id: None,
            gender: None,
            birth_date: None,
            nickname: None,
            volunteer: None,
            ztp: None,
        }
    }
}

impl ObjectBuilder for PersonBuilder {
    type Object = Person;

    closed spec fn builder_name(&self) -> Option<Seq<char>> {
        self.name.deep_view()
    }

    closed spec fn builder_id(&self) -> Option<u32> {
        self.id
    }

    open spec fn same_optional_fields(&self, other: &Self) -> bool {
        self.optional_fields_unchanged(other)
    }

    closed spec fn build_ens(self, r: Result<Person, ScrapeError>) -> bool {
        match r {
            Ok(p) => self.name is Some && self.id is Some && p.name == self.name->0 && p.id
                == self.id->0 && p.gender == self.gender && p.birth_date == self.birth_date
                && p.nickname == self.nickname && p.volunteer == self.volunteer && p.ztp
                == self.ztp,
            Err(e) => (self.name is None || self.id is None) && e is MissingRequiredField,
        }
    }

    fn name(&mut self, name: &str) {
        self.name = Some(name.to_owned());
    }

    fn id(&mut self, id: u32) {
        self.id = Some(id);
    }

    fn build(self) -> (r: Result<Person, ScrapeError>) {
        let PersonBuilder { name, id, gender, birth_date, nickname, volunteer, ztp } = self;
        match (name, id) {
            (Some(name), Some(id)) => Ok(
                Person { name, id, gender, birth_date, nickname, volunteer, ztp },
            ),
            _ => Err(ScrapeError::MissingRequiredField),
        }
    }
}

} // verus!
