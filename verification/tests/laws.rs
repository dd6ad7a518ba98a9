use std::rc::Rc;

use parsekit::parser::Parser;
use parsekit::parser::ParserOps;
use parsekit::primitive::Item;
use parsekit::primitive::Return;
use parsekit::transform::Chained;
use parsekit::transform::CharToString;
use parsekit::transform::Composed;
use parsekit::transform::Identity;
use parsekit::transform::MapReturn;
use parsekit::transform::ThenItem;
use parsekit::transform::ToReturn;
use parsekit::transform::ToUpper;

#[test]
fn functor_identity_on_a_concrete_input() {
    let mapped = Item::new().map(Identity::new()).call("ab");
    let plain = Item::new().call("ab");
    assert_eq!(plain, mapped);
    assert_eq!(Some(('a', "b")), mapped);
}

#[test]
fn functor_composition_on_a_concrete_input() {
    let twice = Item::new()
        .map(ToUpper::new())
        .map(CharToString::new())
        .call("hi");
    let once = Item::new()
        .map(Composed::new(ToUpper::new(), CharToString::new()))
        .call("hi");
    assert_eq!(once, twice);
    assert_eq!(Some(("H".to_string(), "i")), once);
}

#[test]
fn monad_left_identity_on_a_concrete_input() {
    let continuation: ThenItem<Rc<char>> = ThenItem::new();
    let bound = Return::new('q').bind(continuation).call("abc");
    let direct = Item::new().call("abc");
    assert_eq!(direct, bound);
    assert_eq!(Some(('a', "bc")), bound);
}

#[test]
fn monad_right_identity_on_a_concrete_input() {
    let (value, rest) = Item::new()
        .bind(ToReturn::new())
        .call("xy")
        .unwrap();
    let (plain_value, plain_rest) = Item::new().call("xy").unwrap();
    assert_eq!(plain_value, *value);
    assert_eq!(plain_rest, rest);
    assert_eq!('x', *value);
    assert_eq!("y", rest);
}

#[test]
fn monad_associativity_on_a_concrete_input() {
    let one_after_the_other = Item::new()
        .bind(ThenItem::new())
        .bind(MapReturn::new(CharToString::new()))
        .call("hello world");
    let chained_once = Item::new()
        .bind(Chained::new(ThenItem::new(), MapReturn::new(CharToString::new())))
        .call("hello world");

    let (value, rest) = one_after_the_other.unwrap();
    let (chained_value, chained_rest) = chained_once.unwrap();
    assert_eq!(*value, *chained_value);
    assert_eq!(rest, chained_rest);
    assert_eq!("e", *value);
    assert_eq!("llo world", rest);
}
