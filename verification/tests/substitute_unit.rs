use ttt::subst_terms::Unit;
use ttt::Substitute;

#[test]
fn substitute_unit_unit() {
    let x = Unit;
    let x = x.substitute(&Unit, 0);
    assert_eq!(x, Ok(Unit))
}
