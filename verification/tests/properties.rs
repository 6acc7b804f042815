use classnames::classes::{AttrClass, BaseClass};
use classnames::{classname, Class};

#[test]
fn rendering_twice_gives_the_same_text() {
    let class = classname("card").el("title").attr("bold") + "wide";
    let first = class.to_string();
    let second = class.to_string();
    assert_eq!(first, "card__title card__title--bold wide");
    assert_eq!(first, second);
}

#[test]
fn rendering_leaves_the_value_as_it_was() {
    let class = classname("card").attr("bold");
    let before = class.clone();
    let _ = class.to_string();
    assert!(class == before);
    assert_eq!(class.attr("wide").to_string(), "card card--bold card--wide");
}

#[test]
fn joins_accumulate_from_the_left() {
    let class = (classname("a") + classname("b")) + classname("c");
    assert_eq!(class.to_string(), "a b c");
}

#[test]
fn joining_right_first_gives_the_same_text() {
    let left_first = (classname("a") + classname("b")) + classname("c");
    let right_first = classname("a") + (classname("b") + classname("c"));
    assert_eq!(right_first.to_string(), "a b c");
    assert_eq!(right_first.to_string(), left_first.to_string());
}

#[test]
fn maybe_attr_when_set_is_attr_on_a_base() {
    let by_attr = classname("card").attr("bold");
    let by_maybe_attr = classname("card").maybe_attr("bold", true);
    assert_eq!(by_maybe_attr.to_string(), "card card--bold");
    assert_eq!(by_maybe_attr.to_string(), by_attr.to_string());
    assert!(by_maybe_attr == by_attr);
}

#[test]
fn maybe_attr_when_set_is_attr_on_an_element() {
    let by_attr = classname("card").el("title").attr("bold");
    let by_maybe_attr = classname("card").el("title").maybe_attr("bold", true);
    assert_eq!(by_maybe_attr.to_string(), "card__title card__title--bold");
    assert_eq!(by_maybe_attr.to_string(), by_attr.to_string());
    assert!(by_maybe_attr == by_attr);
}

#[test]
fn maybe_attr_when_set_is_attr_on_a_class_with_attributes() {
    let by_attr = classname("card").attr("wide").attr("bold");
    let by_maybe_attr = classname("card").attr("wide").maybe_attr("bold", true);
    assert_eq!(by_maybe_attr.to_string(), "card card--wide card--bold");
    assert_eq!(by_maybe_attr.to_string(), by_attr.to_string());
    assert!(by_maybe_attr == by_attr);
}

#[test]
fn maybe_attr_when_not_set_returns_the_class_unchanged() {
    let class = classname("card").attr("wide");
    let same = class.clone().maybe_attr("bold", false);
    assert!(same == class);
    assert_eq!(same.to_string(), "card card--wide");
}

#[test]
fn attributes_come_out_in_call_order() {
    let class = classname("b").attr("z").attr("a").attr("m");
    assert_eq!(class.to_string(), "b b--z b--a b--m");
    let other = classname("b").attr("m").attr("a").attr("z");
    assert_eq!(other.to_string(), "b b--m b--a b--z");
}

#[test]
fn attributes_are_not_deduplicated() {
    let class = classname("b").attr("x").attr("x");
    assert_eq!(class.to_string(), "b b--x b--x");
    let class = classname("b").attr("x").attr("y").attr("x");
    assert_eq!(class.to_string(), "b b--x b--y b--x");
}

#[test]
fn each_attr_adds_one_modifier_at_the_end() {
    let before = classname("b").el("e").attr("x");
    let text_before = before.to_string();
    let after = before.attr("y");
    assert_eq!(after.to_string(), format!("{} b__e--y", text_before));
}

#[test]
fn more_attributes_than_fit_inline_keep_their_order() {
    let class = AttrClass::new(BaseClass::new("b"))
        .attr("1")
        .attr("2")
        .attr("3")
        .attr("4")
        .attr("5")
        .attr("6")
        .attr("7")
        .attr("8")
        .attr("9");
    assert_eq!(
        class.to_string(),
        "b b--1 b--2 b--3 b--4 b--5 b--6 b--7 b--8 b--9"
    );
}

#[test]
fn has_room_on_small_classes() {
    let class = AttrClass::new(BaseClass::new("b"));
    assert!(class.has_room());
    let class = class.attr("1").attr("2").attr("3").attr("4");
    assert!(class.has_room());
}

#[test]
fn try_attr_adds_where_there_is_room() {
    let class = classname("b").attr("x");
    match class.try_attr("y") {
        Ok(class) => assert_eq!(class.to_string(), "b b--x b--y"),
        Err(_) => panic!("a class with one attribute has room"),
    }
}
