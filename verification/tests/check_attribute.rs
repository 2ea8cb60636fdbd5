use ttt::check_terms::Expr;
use ttt::simple_types::Ty;
use ttt::{CheckAttribute, Context};

#[test]
fn check_attribute_check_lambda() {
    let expr = Expr::Lam(Ty::Unit.into(), Expr::Unit.into());
    let ty = Ty::Func(Ty::Unit.into(), Ty::Unit.into());

    assert!(CheckAttribute::<Ty>::check(&expr, &ty, &Context::empty()).unwrap())
}

#[test]
fn check_attribute_check_pair() {
    let expr = Expr::Pair(Expr::Unit.into(), Expr::Unit.into());
    let ty = Ty::Prod(Ty::Unit.into(), Ty::Unit.into());
    assert!(CheckAttribute::<Ty>::check(&expr, &ty, &Context::empty()).unwrap())
}

#[test]
fn check_attribute_check_lambda_app() {
    let expr = Expr::App(
        Expr::Lam(Ty::Unit.into(), Expr::Unit.into()).into(),
        Expr::Unit.into(),
    );
    assert!(CheckAttribute::<Ty>::check(&expr, &Ty::Unit, &Context::empty()).unwrap())
}
