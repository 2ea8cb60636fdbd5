use ttt::subst_terms::UnitExplicitBoth;
use ttt::Substitute;

#[test]
fn substitute_unit_explicit_both_unit_explicit_both() {
    let x = UnitExplicitBoth;
    let x = x.substitute(&"foo".to_string(), 0);
    assert_eq!(x, Ok(UnitExplicitBoth));

    let x = x.unwrap().substitute(&UnitExplicitBoth, 1);
    assert_eq!(x, Ok(UnitExplicitBoth));
}
