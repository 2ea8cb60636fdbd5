use ttt::eval_terms::LambdaExpr;
use ttt::Evaluate;

use LambdaExpr::{App, Lambda, Var};

#[test]
fn evaluate_app() {
    let arg = Lambda(Var(1).into());
    let expr = App(Lambda(Var(0).into()).into(), arg.clone().into());

    let evalled = expr.evaluate_closed(false);
    assert_eq!(evalled, Ok(arg));
}
