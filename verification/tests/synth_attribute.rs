use ttt::simple_types::Ty;
use ttt::synth_terms::Expr;
use ttt::{Context, SynthAttribute};

#[test]
fn synth_attribute_check_lambda() {
    let expr = Expr::Lam(Ty::Unit.into(), Expr::Unit.into());
    let ty = Ty::Func(Ty::Unit.into(), Ty::Unit.into());

    assert_eq!(
        SynthAttribute::<Ty>::synth(&expr, &Context::empty()).unwrap(),
        ty
    )
}

#[test]
fn synth_attribute_check_pair() {
    let expr = Expr::Pair(Expr::Unit.into(), Expr::Unit.into());
    let ty = Ty::Prod(Ty::Unit.into(), Ty::Unit.into());
    assert_eq!(
        SynthAttribute::<Ty>::synth(&expr, &Context::empty()).unwrap(),
        ty
    )
}

#[test]
fn synth_attribute_check_lambda_app() {
    let expr = Expr::App(
        Expr::Lam(Ty::Unit.into(), Expr::Unit.into()).into(),
        Expr::Unit.into(),
    );
    assert_eq!(
        SynthAttribute::<Ty>::synth(&expr, &Context::empty()).unwrap(),
        Ty::Unit
    )
}
