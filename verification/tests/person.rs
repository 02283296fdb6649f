use ownership_demo::person::debug_person;
use ownership_demo::person::new_person;
use ownership_demo::person::print_person;
use ownership_demo::person::print_person_borrowed;
use ownership_demo::person::transfer;

#[test]
fn render_supplies_name_and_age_unchanged() {
    let p = new_person(String::from("Erika Musterfrau"), 99);
    assert_eq!(print_person_borrowed(&p), "Erika Musterfrau is 99 years old.");
}

#[test]
fn transfer_then_print() {
    let person = new_person(String::from("Rainer Zufall"), 42);
    let person1 = transfer(person);
    assert_eq!(print_person(person1), "Rainer Zufall is 42 years old.");
}

#[test]
fn borrow_print_twice_in_inner_scope() {
    {
        let person2 = new_person(String::from("Anna Zufall"), 13);
        let first = print_person_borrowed(&person2);
        let second = print_person_borrowed(&person2);
        assert_eq!(first, "Anna Zufall is 13 years old.");
        assert_eq!(second, "Anna Zufall is 13 years old.");
        assert_eq!(first, second);
    }
}

#[test]
fn consuming_and_borrowing_print_agree() {
    let p = new_person(String::from("Max"), 7);
    let borrowed = print_person_borrowed(&p);
    let consumed = print_person(p);
    assert_eq!(borrowed, consumed);
}

#[test]
fn empty_name_renders_frame_only() {
    let p = new_person(String::new(), 0);
    assert_eq!(print_person(p), " is 0 years old.");
}

#[test]
fn debug_render_shows_both_fields() {
    let p = new_person(String::from("Rainer Zufall"), 42);
    assert_eq!(debug_person(&p), "Person { name: \"Rainer Zufall\", age: 42 }");
}
