//! A `Person` value under unique ownership.
//!
//! A value has exactly one owner at a time.  `transfer` moves it to a new
//! binding; the previous binding is then statically unusable, so a use
//! after the transfer is rejected before the program can run.  Printing is
//! rendering to a `String`: the consuming and the borrowing form produce
//! the same line, and the borrowing form can be repeated at will without
//! touching the value.

use vstd::prelude::*;
use vstd::string::StringExecFns;
use crate::decimal::spec_decimal;
use crate::decimal::u64_to_decimal;

verus! {

/// A person: a name and an age in whole years.
pub struct Person {
    pub name: String,
    pub age: u64,
}

/// The line the printing functions render: the name and the age exactly as
/// supplied, in the fixed frame `"<name> is <age> years old."`.
pub open spec fn render_spec(p: Person) -> Seq<char> {
    p.name@ + " is "@ + spec_decimal(p.age as nat) + " years old."@
}

/// The debug-style rendering of a person's fields,
/// `Person { name: "<name>", age: <age> }`.
pub open spec fn debug_render_spec(p: Person) -> Seq<char> {
    "Person { name: \""@ + p.name@ + "\", age: "@ + spec_decimal(p.age as nat) + " }"@
}

/// Constructs a person from its two attributes, unchanged.
pub fn new_person(name: String, age: u64) -> (p: Person)
    ensures
        p.name == name,
        p.age == age,
{
    Person { name, age }
}

/// Transfers ownership to a new binding.  The argument is consumed, so the
/// source binding is invalidated at compile time; the value itself is
/// handed on unchanged.
pub fn transfer(person: Person) -> (owned: Person)
    ensures
        owned == person,
{
    person
}

/// Renders the person's line through a read-only borrow: the value is left
/// exactly as it was, so the call can be repeated any number of times and
/// always yields the same line.
pub fn print_person_borrowed(person: &Person) -> (r: String)
    ensures
        r@ == render_spec(*person),
{
    let mut r = String::new();
    r.append(person.name.as_str());
    r.append(" is ");
    let age = u64_to_decimal(person.age);
    r.append(age.as_str());
    r.append(" years old.");
    proof {
        assert(r@ =~= render_spec(*person));
    }
    r
}

/// Renders the person's line, consuming the value: the binding that held
/// it is statically unusable afterwards.  The line is the same one the
/// borrowing form renders.
pub fn print_person(person: Person) -> (r: String)
    ensures
        r@ == render_spec(person),
{
    print_person_borrowed(&person)
}

/// Renders the person's fields in debug style, through a read-only borrow.
pub fn debug_person(person: &Person) -> (r: String)
    ensures
        r@ == debug_render_spec(*person),
{
    let mut r = String::new();
    r.append("Person { name: \"");
    r.append(person.name.as_str());
    r.append("\", age: ");
    let age = u64_to_decimal(person.age);
    r.append(age.as_str());
    r.append(" }");
    proof {
        assert(r@ =~= debug_render_spec(*person));
    }
    r
}

/// Printing renders the name and the age exactly as supplied: the rendered
/// line carries the name unchanged as its head, and the decimal digits of
/// the age immediately after the fixed infix `" is "`.
pub proof fn lemma_render_exact(p: Person)
    ensures
        render_spec(p).subrange(0, p.name@.len() as int) == p.name@,
        render_spec(p).subrange(
            (p.name@.len() + " is "@.len()) as int,
            (p.name@.len() + " is "@.len() + spec_decimal(p.age as nat).len()) as int,
        ) == spec_decimal(p.age as nat),
{
    assert(render_spec(p).subrange(0, p.name@.len() as int) =~= p.name@);
    assert(render_spec(p).subrange(
        (p.name@.len() + " is "@.len()) as int,
        (p.name@.len() + " is "@.len() + spec_decimal(p.age as nat).len()) as int,
    ) =~= spec_decimal(p.age as nat));
}

/// Read-only printing is stable: any two lines rendered from the same
/// person are the same line, so borrow-printing never changes the value's
/// subsequent printable content.
pub proof fn lemma_borrowed_print_stable(p: Person, first: Seq<char>, second: Seq<char>)
    requires
        first == render_spec(p),
        second == render_spec(p),
    ensures
        first == second,
{
}

} // verus!
