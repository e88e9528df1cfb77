use functorish::functor::Functorish;
use std::cell::RefCell;

#[test]
fn doubles_a_list() {
    let v1 = vec![1, 2, 3];
    let v2 = v1.clone().fmap(|x| x * 2);
    assert_eq!(v2, [2, 4, 6]);
}

#[test]
fn parses_a_list_of_text() {
    let v3 = vec!["4", "5", "6"];
    let v4 = v3.clone().fmap(|x| x.parse::<i32>().unwrap());
    assert_eq!(v4, vec![4, 5, 6]);
}

#[test]
fn absent_stays_absent() {
    let o1: Option<i32> = None;
    let o2 = o1.fmap(|x| x.to_string());
    assert_eq!(o2, None);
}

#[test]
fn present_value_is_transformed() {
    let o3 = Some(1);
    let o4 = o3.fmap(|x| x + 10);
    assert_eq!(o4, Some(11));
}

#[test]
fn absent_never_calls_the_transform() {
    let o: Option<i32> = None;
    let r: Option<String> = o.fmap(|_x: i32| -> String { panic!("transform called on an absent value") });
    assert!(r.is_none());
}

#[test]
fn empty_list_stays_empty() {
    let v: Vec<u8> = Vec::new();
    let w: Vec<String> = v.fmap(|x: u8| x.to_string());
    assert!(w.is_empty());
}

#[test]
fn each_position_gets_its_own_image() {
    let v = vec![10u32, 3, 7, 3];
    let w = v.clone().fmap(|x: u32| (x as u64) * (x as u64) + 1);
    assert_eq!(w.len(), v.len());
    for i in 0..v.len() {
        assert_eq!(w[i], (v[i] as u64) * (v[i] as u64) + 1);
    }
    assert_eq!(w, vec![101u64, 10, 50, 10]);
}

#[test]
fn transform_called_once_per_element_in_order() {
    let seen = RefCell::new(Vec::new());
    let v = vec!['c', 'a', 'b'];
    let w = v.fmap(|x: char| {
        seen.borrow_mut().push(x);
        x.to_ascii_uppercase()
    });
    assert_eq!(w, vec!['C', 'A', 'B']);
    assert_eq!(*seen.borrow(), vec!['c', 'a', 'b']);
}

#[test]
fn presence_is_kept_with_a_type_change() {
    let some: Option<&str> = Some("seven");
    let none: Option<&str> = None;
    assert_eq!(some.fmap(|s: &str| s.len()), Some(5));
    assert_eq!(none.fmap(|s: &str| s.len()), None);
}

#[test]
fn present_value_calls_the_transform_once() {
    let calls = RefCell::new(0u32);
    let r = Some(4i64).fmap(|x: i64| {
        *calls.borrow_mut() += 1;
        -x
    });
    assert_eq!(r, Some(-4));
    assert_eq!(*calls.borrow(), 1);
}
