use tee_pee_scraper::person::Gender;
use tee_pee_scraper::unit::Type;
use tee_pee_scraper::{Object, ObjectBuilder, Person, PersonBuilder, ScrapeError, Unit, UnitBuilder};

#[test]
fn unit_builder_without_id_fails() {
    let mut builder = UnitBuilder::default();
    builder.name("Rysi");
    let err = builder.build().unwrap_err();
    assert!(matches!(err, ScrapeError::MissingRequiredField));
}

#[test]
fn unit_builder_without_name_fails() {
    let mut builder = UnitBuilder::default();
    builder.id(7);
    let err = builder.build().unwrap_err();
    assert!(matches!(err, ScrapeError::MissingRequiredField));
}

#[test]
fn unit_builder_with_both_reports_them_exactly() {
    let mut builder = UnitBuilder::default();
    builder.name("Rysi");
    builder.id(42);
    let unit = builder.build().unwrap();
    assert_eq!(unit.name(), "Rysi");
    assert_eq!(unit.id(), 42);
    assert!(unit.child_units().is_empty());
    assert!(unit.persons().is_empty());
    assert!(unit.parent_unit().is_none());
}

#[test]
fn unit_builder_carries_optional_fields() {
    let parent = Unit::new("Zbor", 1, None, None, None, None);
    let mut builder = UnitBuilder::default();
    builder.name("Oddiel");
    builder.id(2);
    builder.parent_unit(parent);
    builder.supplementary_name("druhy");
    builder.unit_type(Type::Oddiel);
    builder.number(9);
    let unit = builder.build().unwrap();
    assert_eq!(unit.name(), "Oddiel");
    assert_eq!(unit.id(), 2);
    assert_eq!(unit.parent_unit().as_ref().unwrap().name(), "Zbor");
    assert_eq!(unit.supplementary_name().as_deref(), Some("druhy"));
    assert!(matches!(unit.unit_type(), Some(Type::Oddiel)));
    assert_eq!(unit.number(), Some(9));
}

#[test]
fn person_builder_without_id_fails() {
    let mut builder = PersonBuilder::default();
    builder.name("Jana");
    let err = builder.build().unwrap_err();
    assert!(matches!(err, ScrapeError::MissingRequiredField));
}

#[test]
fn person_builder_with_both_reports_them_exactly() {
    let mut builder = PersonBuilder::default();
    builder.name("Jana");
    builder.id(17);
    let person = builder.build().unwrap();
    assert_eq!(person.name(), "Jana");
    assert_eq!(person.id(), 17);
    assert!(person.gender().is_none());
    assert!(person.birth_date().is_none());
}

#[test]
fn person_builder_carries_optional_fields() {
    let mut builder = PersonBuilder::default();
    builder.name("Jana");
    builder.id(17);
    builder.gender(Gender::Female);
    builder.birth_date("2001-05-09");
    builder.nickname("Janka");
    builder.volunteer(true);
    builder.ztp(false);
    let person = builder.build().unwrap();
    assert!(matches!(person.gender(), Some(Gender::Female)));
    assert_eq!(person.birth_date().as_deref(), Some("2001-05-09"));
    assert_eq!(person.nickname().as_deref(), Some("Janka"));
    assert_eq!(person.volunteer(), Some(true));
    assert_eq!(person.ztp(), Some(false));
}

#[test]
fn person_new_keeps_every_field() {
    let person = Person::new("Ema", 3, Some(Gender::Female), None, None, Some(false), None);
    assert_eq!(person.name(), "Ema");
    assert_eq!(person.id(), 3);
    assert!(matches!(person.gender(), Some(Gender::Female)));
    assert_eq!(person.volunteer(), Some(false));
    assert_eq!(person.ztp(), None);
}

#[test]
fn unit_tree_grows_by_appending() {
    let mut unit = Unit::new("Zbor", 1, None, None, None, None);
    unit.add_child_unit(Unit::new("Oddiel", 2, None, None, None, None));
    unit.add_child_unit(Unit::new("Druzina", 3, None, None, None, None));
    unit.add_person(Person::new("Ema", 4, None, None, None, None, None));
    assert_eq!(unit.child_units().len(), 2);
    assert_eq!(unit.child_units()[0].name(), "Oddiel");
    assert_eq!(unit.child_units()[1].name(), "Druzina");
    assert_eq!(unit.persons().len(), 1);
    let persons = unit.into_persons();
    assert_eq!(persons[0].name(), "Ema");
}

#[test]
fn into_child_units_yields_the_children() {
    let mut unit = Unit::new("Zbor", 1, None, None, None, None);
    unit.add_child_unit(Unit::new("Oddiel", 2, None, None, None, None));
    let children = unit.into_child_units();
    assert_eq!(children.len(), 1);
    assert_eq!(children[0].id(), 2);
}
