use ttt::indexed_terms::RecursiveWithVariable;
use ttt::DeBruijnIndexed;

#[test]
fn debruijn_indexed_recursive_with_variable_recursive_with_variable() {
    let x = RecursiveWithVariable::Recursive(RecursiveWithVariable::Variable(0).into());

    let x = x.increment_indices();

    assert_eq!(x.get_var(), None);
    assert_eq!(
        x,
        RecursiveWithVariable::Recursive(RecursiveWithVariable::Variable(1).into())
    )
}
