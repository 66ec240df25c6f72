use pascal::source::Source;

#[test]
fn simple_append() {
    let mut s = Source::default();
    s.push_str("x");
    assert_eq!(s.as_str(), "x");
    s.push_str("y");
    assert_eq!(s.as_str(), "xy");
    s.push_str("z ");
    assert_eq!(s.as_str(), "xyz ");
    s.push_str(" a ");
    assert_eq!(s.as_str(), "xyz  a ");
    s.push_str("\na");
    assert_eq!(s.as_str(), "xyz  a \na");
}

#[test]
fn newline_remap() {
    let mut s = Source::default();
    s.push_str("function() {\n");
    s.push_str("y\n");
    s.push_str("}\n");
    assert_eq!(s.as_str(), "function() {\n  y\n}\n");
}

#[test]
fn if_else() {
    let mut s = Source::default();
    s.push_str("if() {\n");
    s.push_str("y\n");
    s.push_str("} else if () {\n");
    s.push_str("z\n");
    s.push_str("}\n");
    assert_eq!(s.as_str(), "if() {\n  y\n} else if () {\n  z\n}\n");
}

#[test]
fn trim_ws() {
    let mut s = Source::default();
    s.push_str(
        "function() {
                x
        }",
    );
    assert_eq!(s.as_str(), "function() {\n  x\n}");
}

#[test]
fn indent_levels() {
    let mut s = Source::default();
    s.indent(2);
    s.push_str("a\n");
    let old = s.set_indent(0);
    assert_eq!(old, 2);
    s.push_str("b\n");
    assert_eq!(s.as_str(), "    a\nb\n");
}

#[test]
fn comment_lines_left_alone() {
    let mut s = Source::default();
    s.push_str("// closing } here\n");
    s.push_str("x\n");
    assert_eq!(s.as_str(), "// closing } here\nx\n");
}

#[test]
fn append_src_concatenates() {
    let mut a = Source::default();
    a.push_str("one\n");
    let mut b = Source::default();
    b.push_str("two\n");
    a.append_src(&b);
    assert_eq!(a.as_str(), "one\ntwo\n");
}
