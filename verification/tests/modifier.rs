use root_attribute::modifier::{ModOp, Who};

#[test]
fn who_scope_round_trip() {
    for who in [Who::Target, Who::Source, Who::Owner] {
        assert_eq!(Who::try_from(who.into_scope()), Ok(who));
    }
    assert_eq!(Who::Source.into_scope(), 1);
    assert_eq!(Who::try_from(3u8), Err(()));
    assert_eq!(Who::try_from(255u8), Err(()));
}

#[test]
fn display_names() {
    assert_eq!(Who::Target.to_string(), "Target");
    assert_eq!(Who::Owner.to_string(), "Owner");
    assert_eq!(ModOp::Assign.to_string(), "=");
    assert_eq!(ModOp::Add.to_string(), "+");
    assert_eq!(ModOp::Sub.to_string(), "-");
    assert_eq!(ModOp::Increase.to_string(), "+*");
    assert_eq!(ModOp::More.to_string(), "*");
}
