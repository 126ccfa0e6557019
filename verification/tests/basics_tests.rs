use manufacturers::collections::get_values;
use manufacturers::error_handling::{
    get_first_name, get_first_name_err, get_full_name, get_full_name_err, get_last_name,
    get_last_name_err, gets_user_name, gets_user_name_with_err,
};
use manufacturers::functions::{process_name, say_hello_to_person, say_hello_world};
use manufacturers::generics::PointT;
use manufacturers::lifetime::{
    get_full_name as get_static_full_name, get_random_name, get_random_name_2, PersonName,
    _get_full_name_elision, _get_full_name_string,
};
use manufacturers::ownership::{empty_string, get_name};
use manufacturers::pointers::{BoxedValue, Person as AgingPerson};
use manufacturers::structures::create_person;
use manufacturers::strutil::{str_contains, u64_to_string};
use manufacturers::traits::{HasFullName, Person};

#[test]
fn the_tuple_holds_the_fixed_values() {
    let (hello, world, age) = get_values();
    assert_eq!(hello, "Hello");
    assert_eq!(world, "World");
    assert_eq!(age, 30);
}

#[test]
fn user_name_lookups_succeed_or_fail_as_stated() {
    assert_eq!(gets_user_name(), Ok("Buckminster".to_string()));
    assert_eq!(gets_user_name_with_err(), Err(()));
    assert_eq!(get_first_name(), Ok("Mileva".to_string()));
    assert_eq!(get_last_name(), Ok("Maric".to_string()));
    assert_eq!(get_full_name(), Ok("Mileva Maric".to_string()));
}

#[test]
fn the_failing_lookup_poisons_the_full_name() {
    assert_eq!(get_first_name_err(), Ok("Mileva".to_string()));
    assert_eq!(
        get_last_name_err(),
        Err("I don't know your last name".to_string())
    );
    assert_eq!(
        get_full_name_err(),
        Err("I don't know your last name".to_string())
    );
}

#[test]
fn greetings_read_as_stated() {
    assert_eq!(say_hello_world(), "Hello World!");
    assert_eq!(say_hello_to_person("Lestat".to_string()), "Hello Lestat !");
}

#[test]
fn the_callback_is_handed_the_name() {
    let seen = std::cell::Cell::new(false);
    process_name("Lestat", |name: &str| {
        assert_eq!(name, "Lestat");
        seen.set(true);
    });
    assert!(seen.get());
}

#[test]
fn borrowed_names_come_back_unchanged() {
    assert_eq!(_get_full_name_string(), "John Doe");
    assert_eq!(get_static_full_name(), "John Doe");
    assert_eq!(get_random_name("Marie", "Curie"), "Marie");
    assert_eq!(get_random_name_2("Marie", "Curie"), "Curie");
    assert_eq!(_get_full_name_elision("John Doe"), "John Doe");
}

#[test]
fn person_name_slices_and_joins() {
    let person = PersonName {
        first_name: "Marie".to_string(),
        last_name: "Curie".to_string(),
    };
    assert_eq!(person.first_char_or_first_name(), "M");
    assert_eq!(person.return_full_name(), "Marie Curie");
}

#[test]
fn emptying_a_string_leaves_nothing() {
    let mut name = "Lestat".to_string();
    empty_string(&mut name);
    assert_eq!(name, "");
    assert_eq!(get_name(), "John");
}

#[test]
fn the_boxed_value_holds_what_it_was_given() {
    let boxed = BoxedValue::new(22);
    assert_eq!(boxed.value, 22);
}

#[test]
fn incrementing_the_age_adds_one_year() {
    let mut person = AgingPerson {
        name: "Zack".to_string(),
        age: 20,
    };
    let new_age = person.increment_age();
    assert_eq!(new_age, 21);
    assert_eq!(person.age, 21);
    assert_eq!(person.name, "Zack");
}

#[test]
fn created_person_keeps_both_fields() {
    let person = create_person("Louis".to_string(), 143);
    assert_eq!(person.name, "Louis");
    assert_eq!(person.age, 143);
}

#[test]
fn moving_the_point_adds_the_offsets() {
    let mut point = PointT { x: 1i64, y: 2i64 };
    point.move_offset_2(3, 4);
    assert_eq!(point.x, 4);
    assert_eq!(point.y, 6);
}

#[test]
fn a_full_name_splits_at_the_first_space() {
    let person = Person::new("Marky Ramone", 57);
    assert_eq!(person.first_name, "Marky");
    assert_eq!(person.last_name, "Ramone");
    assert_eq!(person.age, 57);
    assert_eq!(person.full_name(), "Marky Ramone");
}

#[test]
fn a_third_name_part_is_dropped() {
    let person = Person::new("Anna Maria Luisa", 40);
    assert_eq!(person.first_name, "Anna");
    assert_eq!(person.last_name, "Maria");
}

#[test]
fn the_description_spells_out_the_age() {
    let person = Person {
        first_name: "Lestat".to_string(),
        last_name: "Vampire".to_string(),
        age: 251,
    };
    assert_eq!(person.describe(), "Lestat Vampire is 251 years old");
}

#[test]
fn substring_search_is_exact() {
    assert!(str_contains("hello world", "lo wo"));
    assert!(str_contains("hello world", ""));
    assert!(str_contains("hello world", "hello world"));
    assert!(!str_contains("hello world", "world hello"));
    assert!(!str_contains("short", "much too long"));
    assert!(!str_contains("Hello", "hello"));
}

#[test]
fn decimal_rendering_matches_the_usual_notation() {
    assert_eq!(u64_to_string(0), "0");
    assert_eq!(u64_to_string(7), "7");
    assert_eq!(u64_to_string(10), "10");
    assert_eq!(u64_to_string(251), "251");
    assert_eq!(u64_to_string(18446744073709551615), "18446744073709551615");
}
