use pascal::ident::{snake_chars, shouty_chars, to_pascal_ident};
use pascal::names::NameSet;
use pascal::text::{chars_eq_str, chars_string, push_usize, str_chars};

fn s(v: &Vec<char>) -> String {
    chars_string(v)
}

#[test]
fn decimal_rendering() {
    let mut v: Vec<char> = Vec::new();
    push_usize(&mut v, 0);
    assert_eq!(s(&v), "0");
    let mut v2: Vec<char> = Vec::new();
    push_usize(&mut v2, 40351);
    assert_eq!(s(&v2), "40351");
}

#[test]
fn snake_and_shouty() {
    let v = str_chars("myBigName");
    assert_eq!(s(&snake_chars(&v)), "my_big_name");
    assert_eq!(s(&shouty_chars(&v)), "MY_BIG_NAME");
}

#[test]
fn keyword_escaping() {
    assert_eq!(s(&to_pascal_ident(&str_chars("record"))), "record_");
    assert_eq!(s(&to_pascal_ident(&str_chars("ret"))), "ret_");
    assert_eq!(s(&to_pascal_ident(&str_chars("err"))), "err_");
    assert_eq!(s(&to_pascal_ident(&str_chars("plainName"))), "plain_name");
}

#[test]
fn fresh_names_never_collide() {
    let mut ns = NameSet::new();
    let stem = str_chars("ptr");
    let a = ns.tmp(&stem);
    let b = ns.tmp(&stem);
    let c = ns.tmp(&stem);
    assert_eq!(s(&a), "ptr");
    assert_eq!(s(&b), "ptr0");
    assert_eq!(s(&c), "ptr1");
    assert!(ns.insert(&str_chars("ptr0")).is_err());
    assert!(ns.insert(&str_chars("other")).is_ok());
}

#[test]
fn chars_eq_str_on_text() {
    let v = str_chars("hello");
    assert!(chars_eq_str(&v, "hello"));
    assert!(!chars_eq_str(&v, "hallo"));
}
