use ttt::lambda_terms::{LambdaExpr, Variable};
use ttt::subst_terms::{
    RecursiveVar,
    SimpleVarWrapper,
    Unit,
    UnitExplicitBoth,
    UnitExplicitOther,
    UnitExplicitSelf,
    VarOrString,
};
use ttt::Substitute;

#[test]
fn substitute_unit() {
    let x = Unit;
    let x = x.substitute(&Unit, 0);
    assert_eq!(x, Ok(Unit))
}

#[test]
fn substitute_unit_explicit_self() {
    let x = UnitExplicitSelf;
    let x = x.substitute(&UnitExplicitSelf, 0);
    assert_eq!(x, Ok(UnitExplicitSelf));
}

#[test]
fn substitute_unit_explicit_other() {
    let x = UnitExplicitOther;
    let x = x.substitute(&"foo".to_string(), 0);
    assert_eq!(x, Ok(UnitExplicitOther));
}

#[test]
fn substitute_unit_explicit_both() {
    let x = UnitExplicitBoth;
    let x = x.substitute(&"foo".to_string(), 0);
    assert_eq!(x, Ok(UnitExplicitBoth));

    let x = x.unwrap().substitute(&UnitExplicitBoth, 1);
    assert_eq!(x, Ok(UnitExplicitBoth));
}

#[test]
fn substitute_simple_var_wrapper() {
    let var = SimpleVarWrapper(0);
    let expr = VarOrString::String("foo".to_string());

    let subst1 = var.substitute(&expr, 1);
    assert_eq!(subst1, Ok(VarOrString::Var(SimpleVarWrapper(0))));

    let subst2 = var.substitute(&expr, 0);
    assert_eq!(subst2, Ok(expr))
}

#[test]
fn substitute_recursive_var() {
    let x = RecursiveVar::Wrap(Box::new(RecursiveVar::Wrap(Box::new(RecursiveVar::Var(0)))));
    assert_eq!(x.len(), 2);

    let y = x.substitute(&x, 0).unwrap();
    assert_eq!(y.len(), 4);

    let z = y.substitute(&x, 2).unwrap();
    assert_eq!(z.len(), 4);
}

#[test]
fn substitute_lambda_expr() {
    let expr = LambdaExpr::App(
        LambdaExpr::Lambda(LambdaExpr::Var(Variable {
            index: 0,
            name: "foo".to_string(),
        })
        .into())
        .into(),
        LambdaExpr::Var(Variable {
            index: 0,
            name: "bar".to_string(),
        })
        .into(),
    );

    let var = LambdaExpr::Var(Variable {
        index: 3,
        name: "baz".to_string(),
    });

    let expr = expr.substitute(&var, 0);
    assert_eq!(
        expr,
        Ok(LambdaExpr::App(
            LambdaExpr::Lambda(LambdaExpr::Var(Variable {
                index: 0,
                name: "foo".to_string(),
            })
            .into())
            .into(),
            var.into()
        ))
    )
}
