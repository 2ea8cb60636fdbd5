use ttt::indexed_terms::IgnoresMetadata;
use ttt::DeBruijnIndexed;

#[test]
fn debruijn_indexed_ignores_metadata_ignores_metadata() {
    let x = IgnoresMetadata(0);
    let x = x.increment_indices();

    assert_eq!(x.get_var(), None);
    assert_eq!(x, IgnoresMetadata(0));
}
