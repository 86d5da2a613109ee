use daily_shell::text::{join2, join4};

#[test]
fn two_texts_are_joined_in_order() {
    assert_eq!(join2("failed: ", "disk full"), "failed: disk full");
    assert_eq!(join2("", "x"), "x");
    assert_eq!(join2("x", ""), "x");
    assert_eq!(join2("", ""), "");
    assert_eq!(join2("解锁", " Widget"), "解锁 Widget");
}

#[test]
fn four_texts_are_joined_in_order() {
    assert_eq!(join4("a `", "/tmp/x", "`: ", "denied"), "a `/tmp/x`: denied");
    assert_eq!(join4("", "", "", ""), "");
    assert_eq!(join4("1", "2", "3", "4"), "1234");
}
