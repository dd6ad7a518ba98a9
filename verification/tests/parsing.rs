use parsekit::combinator::Take;
use parsekit::parser::Parser;
use parsekit::parser::ParserOps;
use parsekit::primitive::Item;
use parsekit::primitive::Zero;
use parsekit::transform::CharToString;
use parsekit::transform::Composed;
use parsekit::transform::MapReturn;
use parsekit::transform::PrefixChar;
use parsekit::transform::SuffixChar;
use parsekit::transform::SuffixEach;
use parsekit::transform::ThenItem;
use parsekit::transform::ToUpper;
use parsekit::transform::VecLen;

#[test]
fn map_test() {
    let stuff = "hello world";

    let (result, _) = Item::new()
        .map(PrefixChar::new(String::from("hi, ")))
        .call(stuff)
        .unwrap();

    assert_eq!("hi, h", result);
}

#[test]
fn bind_test() {
    let stuff = "hello world";

    let (result, _) = Item::new()
        .bind(MapReturn::new(Composed::new(ToUpper::new(), CharToString::new())))
        .call(stuff)
        .unwrap();

    assert_eq!("H", *result);
}

#[test]
fn take_test() {
    let stuff = "hello world";

    let (result, rest) = Take::new(3, Item::new()).call(stuff).unwrap();

    assert_eq!(vec!['h', 'e', 'l'], result);
    assert_eq!("lo world", rest);
}

#[test]
fn probably_not_needed_take_test() {
    let stuff = "hello world";

    let (result, rest) = Take::new(3, Item::new())
        .map(VecLen::new())
        .call(stuff)
        .unwrap();

    assert_eq!(3, result);
    assert_eq!("lo world", rest);
}

#[test]
fn another_probably_not_needed_take_test() {
    let stuff = "hello world";

    let (result, rest) = Take::new(3, Item::new())
        .map(SuffixEach::new('!'))
        .call(stuff)
        .unwrap();

    assert_eq!(
        vec!["h!".to_string(), "e!".to_string(), "l!".to_string()],
        result
    );
    assert_eq!("lo world", rest);
}

#[test]
fn item_fails_on_empty_input() {
    assert!(Item::new().call("").is_none());
}

#[test]
fn item_consumes_one_character() {
    let (value, rest) = Item::new().call("hello").unwrap();
    assert_eq!('h', value);
    assert_eq!("ello", rest);
}

#[test]
fn item_consumes_whole_characters() {
    let (value, rest) = Item::new().call("héllo").unwrap();
    assert_eq!('h', value);
    assert_eq!("éllo", rest);

    let (value, rest) = Item::new().call(rest).unwrap();
    assert_eq!('é', value);
    assert_eq!("llo", rest);
}

#[test]
fn take_zero_consumes_nothing() {
    let (result, rest) = Take::new(0, Item::new()).call("abc").unwrap();
    assert_eq!(Vec::<char>::new(), result);
    assert_eq!("abc", rest);
}

#[test]
fn take_zero_succeeds_on_empty_input() {
    let (result, rest) = Take::new(0, Item::new()).call("").unwrap();
    assert_eq!(Vec::<char>::new(), result);
    assert_eq!("", rest);
}

#[test]
fn take_negative_count_is_treated_as_zero() {
    let (result, rest) = Take::new(-4, Item::new()).call("abc").unwrap();
    assert_eq!(Vec::<char>::new(), result);
    assert_eq!("abc", rest);
}

#[test]
fn take_the_whole_input() {
    let (result, rest) = Take::new(11, Item::new()).call("hello world").unwrap();
    assert_eq!(11, result.len());
    assert_eq!("", rest);
}

#[test]
fn take_past_the_end_fails() {
    assert!(Take::new(12, Item::new()).call("hello world").is_none());
}

#[test]
fn take_beyond_input_fails_and_input_is_reusable() {
    let stuff = "he";
    let parser = Take::new(3, Item::new());

    assert!(parser.call(stuff).is_none());

    // The failed attempt left no trace: both the input and the parser can be
    // used again.
    assert!(parser.call(stuff).is_none());
    let (value, rest) = Item::new().call(stuff).unwrap();
    assert_eq!('h', value);
    assert_eq!("e", rest);
}

#[test]
fn zero_fails_on_every_input() {
    assert!(Zero::<char>::new().call("").is_none());
    assert!(Zero::<char>::new().call("hello").is_none());
    assert!(Zero::<String>::new().call("anything at all").is_none());
}

#[test]
fn zero_fails_before_any_continuation() {
    assert!(Zero::<char>::new().bind(ThenItem::new()).call("abc").is_none());
}

#[test]
fn map_to_uppercase() {
    let (value, rest) = Item::new().map(ToUpper::new()).call("hello").unwrap();
    assert_eq!('H', value);
    assert_eq!("ello", rest);
}

#[test]
fn map_leaves_failure_untouched() {
    assert!(Item::new().map(ToUpper::new()).call("").is_none());
}

#[test]
fn bind_to_suffixed_string() {
    let (value, rest) = Item::new()
        .bind(MapReturn::new(SuffixChar::new('!')))
        .call("hello")
        .unwrap();
    assert_eq!("h!", *value);
    assert_eq!("ello", rest);
}
