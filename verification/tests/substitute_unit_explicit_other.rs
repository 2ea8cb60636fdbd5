use ttt::subst_terms::UnitExplicitOther;
use ttt::Substitute;

#[test]
fn substitute_unit_explicit_other_unit_explicit_other() {
    let x = UnitExplicitOther;
    let x = x.substitute(&"foo".to_string(), 0);
    assert_eq!(x, Ok(UnitExplicitOther));
}
