use ttt::bidir_terms::Expr;
use ttt::simple_types::Ty;
use ttt::{CheckAttribute, Context, PartialSynthAttribute};

#[test]
fn bidir_attribute_check_lambda() {
    let expr = Expr::Lam(Expr::Unit.into());
    let ty = Ty::Func(Ty::Unit.into(), Ty::Unit.into());

    assert!(CheckAttribute::<Ty>::check(&expr, &ty, &Context::empty()).unwrap())
}

#[test]
fn bidir_attribute_check_pair() {
    let expr = Expr::Pair(Expr::Unit.into(), Expr::Unit.into());
    let ty = Ty::Prod(Ty::Unit.into(), Ty::Unit.into());
    assert_eq!(expr.try_synth_closed().unwrap(), Some(ty))
}

#[test]
fn bidir_attribute_check_lambda_app() {
    let expr = Expr::App(Expr::Lam(Expr::Unit.into()).into(), Expr::Unit.into());
    assert_eq!(expr.try_synth_closed().unwrap(), Some(Ty::Unit))
}
