use ttt::subst_terms::UnitExplicitSelf;
use ttt::Substitute;

#[test]
fn substitute_unit_explicit_self_unit_explicit_self() {
    let x = UnitExplicitSelf;
    let x = x.substitute(&UnitExplicitSelf, 0);
    assert_eq!(x, Ok(UnitExplicitSelf));
}
