use ttt::indexed_terms::{
    IgnoresMetadata,
    JustAVariable,
    LambdaTerm,
    NestedVariable,
    RecursiveWithVariable,
};
use ttt::DeBruijnIndexed;

#[test]
fn debruijn_indexed_just_a_variable() {
    let x = JustAVariable(0);
    let x = x.increment_indices();

    assert_eq!(x.get_var(), Some(1));

    let x = x.increment_indices_from_by(2, 1);
    assert_eq!(x.get_var(), Some(1));

    let x = x.increment_indices_from_by(1, 2);
    assert_eq!(x.get_var(), Some(3));
}

#[test]
fn debruijn_indexed_nested_variable() {
    let x = NestedVariable(JustAVariable(0));

    let x = x.increment_indices();

    assert_eq!(x.get_var(), Some(1));
}

#[test]
fn debruijn_indexed_recursive_with_variable() {
    let x = RecursiveWithVariable::Recursive(RecursiveWithVariable::Variable(0).into());

    let x = x.increment_indices();

    assert_eq!(x.get_var(), None);
    assert_eq!(
        x,
        RecursiveWithVariable::Recursive(RecursiveWithVariable::Variable(1).into())
    )
}

#[test]
fn debruijn_indexed_ignores_metadata() {
    let x = IgnoresMetadata(0);
    let x = x.increment_indices();

    assert_eq!(x.get_var(), None);
    assert_eq!(x, IgnoresMetadata(0));
}

#[test]
fn debruijn_indexed_shifts_under_binders() {
    let x = LambdaTerm::Var("foo", 0);
    assert_eq!(x.get_var(), Some(0));

    let x = x.increment_indices();
    assert_eq!(x.get_var(), Some(1));

    let x = LambdaTerm::Lambda(Box::new(x));
    assert_eq!(x.get_var(), None);

    let x = x.increment_indices();
    assert_eq!(x.get_var(), None);
    assert_eq!(x, LambdaTerm::Lambda(Box::new(LambdaTerm::Var("foo", 2))));
}

#[test]
fn debruijn_indexed_skips_bound_variables() {
    let x = LambdaTerm::Lambda(Box::new(LambdaTerm::Var("foo", 0)));
    let y = x.clone().increment_indices();
    assert_eq!(x, y);

    let y = LambdaTerm::App(Box::new(x.clone()), Box::new(LambdaTerm::Var("bar", 0)));
    assert_eq!(y.get_var(), None);

    let y = y.increment_indices();
    assert_eq!(
        y,
        LambdaTerm::App(Box::new(x.clone()), Box::new(LambdaTerm::Var("bar", 1)))
    )
}
