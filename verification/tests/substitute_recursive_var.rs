use ttt::subst_terms::RecursiveVar;
use ttt::subst_terms::RecursiveVar::{Var, Wrap};
use ttt::Substitute;

#[test]
fn substitute_recursive_var_recursive_var() {

    let x = Wrap(Box::new(Wrap(Box::new(Var(0)))));
    assert_eq!(x.len(), 2);

    let y = x.substitute(&x, 0).unwrap();
    assert_eq!(y.len(), 4);

    let z = y.substitute(&x, 2).unwrap();
    assert_eq!(z.len(), 4);
}
