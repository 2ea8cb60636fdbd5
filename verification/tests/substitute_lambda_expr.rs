use ttt::lambda_terms::LambdaExpr::{App, Lambda, Var};
use ttt::lambda_terms::{LambdaExpr, Variable};
use ttt::Substitute;

#[test]
fn substitute_lambda_expr_lambda_expr() {
    let expr = App(
        Lambda(Var(Variable {
            index: 0,
            name: "foo".to_string(),
        })
        .into())
        .into(),
        Var(Variable {
            index: 0,
            name: "bar".to_string(),
        })
        .into(),
    );

    let var = Var(Variable {
        index: 3,
        name: "baz".to_string(),
    });

    let expr = expr.substitute(&var, 0);
    assert_eq!(
        expr,
        Ok(App(
            Lambda(Var(Variable {
                index: 0,
                name: "foo".to_string(),
            })
            .into())
            .into(),
            var.into()
        ))
    )
}
