use ttt::subst_terms::{SimpleVarWrapper, VarOrString};
use ttt::Substitute;

#[test]
fn substitute_simple_var_wrapper_simple_var_wrapper() {
    let var = SimpleVarWrapper(0);
    let expr = VarOrString::String("foo".to_string());

    let subst1 = var.substitute(&expr, 1);
    assert_eq!(subst1, Ok(VarOrString::Var(SimpleVarWrapper(0))));

    let subst2 = var.substitute(&expr, 0);
    assert_eq!(subst2, Ok(expr))
}
