use lib::messages::org_freedesktop_dbus::Rule;

#[test]
fn test_fmt_rule() {
    let mut buf = [0; 1_024];
    let len = Rule::fmt(&mut buf, Some("SENDER"), None, Some("PATH"), Some("MEMBER")).unwrap();
    let rule = core::str::from_utf8(&buf[..len]).unwrap();
    assert_eq!(
        rule,
        "type='signal',sender='SENDER',path='PATH',member='MEMBER'"
    );
}
