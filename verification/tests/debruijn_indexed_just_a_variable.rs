use ttt::indexed_terms::{JustAVariable, NestedVariable};
use ttt::DeBruijnIndexed;

#[test]
fn debruijn_indexed_just_a_variable_just_a_variable() {
    let x = JustAVariable(0);
    let x = x.increment_indices();

    assert_eq!(x.get_var(), Some(1));

    let x = x.increment_indices_from_by(2, 1);
    assert_eq!(x.get_var(), Some(1));

    let x = x.increment_indices_from_by(1, 2);
    assert_eq!(x.get_var(), Some(3));
}

#[test]
fn debruijn_indexed_just_a_variable_nested_variable() {
    let x = NestedVariable(JustAVariable(0));

    let x = x.increment_indices();

    assert_eq!(x.get_var(), Some(1));
}
