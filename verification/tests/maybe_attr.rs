use classnames::classes::{AttrClass, BaseClass};
use classnames::{classname, Class};

#[test]
fn it_should_set_attr_if_is_set() {
    let attr = AttrClass::new(BaseClass::new("mr-component")).attr("large");
    assert_eq!(
        attr.maybe_attr("red", true).to_string(),
        "mr-component mr-component--large mr-component--red",
    )
}

#[test]
fn it_should_not_set_attr_if_is_set_is_false() {
    let attr = AttrClass::new(BaseClass::new("mr-component")).attr("large");
    assert_eq!(
        attr.maybe_attr("red", false).to_string(),
        "mr-component mr-component--large",
    )
}

#[test]
fn it_should_still_set_more_attr_after_false_maybe_attr() {
    let attr = AttrClass::new(BaseClass::new("mr-component")).attr("large");
    assert_eq!(
        attr.maybe_attr("red", false).attr("blue").to_string(),
        "mr-component mr-component--large mr-component--blue",
    )
}

#[test]
fn it_should_use_parent_element_when_creating_child_classes() {
    let class = AttrClass::new(BaseClass::new("mr-component")).attr("bold");
    assert_eq!(class.el("child").to_string(), "mr-component__child");
}

#[test]
fn attr_class_is_should_set_attr_if_is_set() {
    let attr = classname("mr-component").attr("large");
    assert_eq!(
        "mr-component mr-component--large mr-component--red",
        attr.maybe_attr("red", true).to_string()
    )
}

#[test]
fn attr_class_is_should_not_set_attr_if_is_set_is_false() {
    let attr = classname("mr-component").attr("large");
    assert_eq!(
        "mr-component mr-component--large",
        attr.maybe_attr("red", false).to_string()
    )
}

#[test]
fn attr_class_is_should_still_set_more_attr_after_false_maybe_attr() {
    let attr = classname("mr-component").attr("large");
    assert_eq!(
        "mr-component mr-component--large mr-component--blue",
        attr.maybe_attr("red", false).attr("blue").to_string()
    )
}

#[test]
fn base_class_is_should_set_attr_if_is_set() {
    let class = BaseClass::new("mr-component").maybe_attr("red", true);
    assert_eq!("mr-component mr-component--red", class.to_string())
}

#[test]
fn base_class_is_should_not_set_attr_if_is_set_is_false() {
    let class = BaseClass::new("mr-component").maybe_attr("red", false);
    assert_eq!("mr-component", class.to_string())
}

#[test]
fn base_class_is_should_still_set_more_attr_after_false_maybe_attr() {
    let class = BaseClass::new("mr-component")
        .maybe_attr("red", false)
        .attr("blue");
    assert_eq!("mr-component mr-component--blue", class.to_string())
}

#[test]
fn el_class_is_should_set_attr_if_is_set() {
    let el = classname("mr-component").el("child");
    assert_eq!(
        "mr-component__child mr-component__child--red",
        el.maybe_attr("red", true).to_string()
    )
}

#[test]
fn el_class_is_should_not_set_attr_if_is_set_is_false() {
    let el = classname("mr-component").el("child");
    assert_eq!(
        "mr-component__child",
        el.maybe_attr("red", false).to_string()
    )
}

#[test]
fn el_class_is_should_still_set_more_attr_after_false_maybe_attr() {
    let el = classname("mr-component").el("child");
    assert_eq!(
        "mr-component__child mr-component__child--blue",
        el.maybe_attr("red", false).attr("blue").to_string()
    )
}
