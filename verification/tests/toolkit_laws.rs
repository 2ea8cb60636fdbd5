use ttt::bidir_terms::Expr as BidirExpr;
use ttt::eval_terms::LambdaExpr;
use ttt::indexed_terms::LambdaTerm;
use ttt::simple_types::Ty;
use ttt::lambda_terms::{LambdaExpr as NamedExpr, Variable};
use ttt::{CheckAttribute, Context, ContextualEq, DeBruijnIndexed, Evaluate, ListContext,
    PartialSynthAttribute, Substitute};
use LambdaExpr::{App, Lambda, Var};

#[test]
fn shift_by_zero_is_identity() {
    let t = LambdaTerm::App(
        Box::new(LambdaTerm::Lambda(Box::new(LambdaTerm::Var("x", 0)))),
        Box::new(LambdaTerm::Var("y", 3)),
    );
    assert_eq!(t.clone().increment_indices_by(0), t);
}

#[test]
fn shifts_compose() {
    let t = LambdaTerm::App(
        Box::new(LambdaTerm::Lambda(Box::new(LambdaTerm::Var("x", 2)))),
        Box::new(LambdaTerm::Var("y", 3)),
    );
    let one_go = t.increment_indices_by(5);
    let two_gos = t.increment_indices_by(2).increment_indices_by(3);
    assert_eq!(one_go, two_gos);
    assert_eq!(
        one_go,
        LambdaTerm::App(
            Box::new(LambdaTerm::Lambda(Box::new(LambdaTerm::Var("x", 7)))),
            Box::new(LambdaTerm::Var("y", 8)),
        )
    );
}

#[test]
fn shift_at_depth_skips_lower_indices() {
    // Indices below the start offset stay put; the ones at or above move.
    let t = LambdaTerm::App(
        Box::new(LambdaTerm::Var("low", 1)),
        Box::new(LambdaTerm::Var("high", 2)),
    );
    let shifted = t.increment_indices_from_by(2, 10);
    assert_eq!(
        shifted,
        LambdaTerm::App(
            Box::new(LambdaTerm::Var("low", 1)),
            Box::new(LambdaTerm::Var("high", 12)),
        )
    );
}

#[test]
fn index_skew_lookup() {
    let a = LambdaTerm::Var("a", 0);
    let b = LambdaTerm::Var("b", 1);
    let ctx: ListContext<LambdaTerm> = Context::empty();
    let ctx = ctx.append(a).append(b);

    assert_eq!(ctx.get_shifted(0), Some(LambdaTerm::Var("b", 2)));
    assert_eq!(ctx.get_shifted(1), Some(LambdaTerm::Var("a", 2)));
    assert_eq!(ctx.get_shifted(2), None);
}

#[test]
fn append_leaves_parent_usable() {
    let parent: ListContext<Ty> = Context::empty();
    let parent = parent.append(Ty::Unit);
    let left = parent.append(Ty::Prod(Ty::Unit.into(), Ty::Unit.into()));
    let right = parent.append(Ty::Func(Ty::Unit.into(), Ty::Unit.into()));

    assert_eq!(parent.get(0), Some(&Ty::Unit));
    assert_eq!(left.get(0), Some(&Ty::Prod(Ty::Unit.into(), Ty::Unit.into())));
    assert_eq!(right.get(0), Some(&Ty::Func(Ty::Unit.into(), Ty::Unit.into())));
    assert_eq!(left.get(1), Some(&Ty::Unit));
    assert_eq!(right.get(1), Some(&Ty::Unit));
}

#[test]
fn synthesis_implies_check() {
    let expr = BidirExpr::Pair(BidirExpr::Unit.into(), BidirExpr::Unit.into());
    let synthesized = expr.try_synth_closed().unwrap().unwrap();
    assert_eq!(
        CheckAttribute::<Ty>::check_closed(&expr, &synthesized),
        Ok(true)
    );
}

#[test]
fn variable_lookup_through_binder() {
    // The identity function checks against `A -> A` for any `A`.
    let id = BidirExpr::Lam(BidirExpr::Var(0).into());
    let unit_to_unit = Ty::Func(Ty::Unit.into(), Ty::Unit.into());
    assert_eq!(CheckAttribute::<Ty>::check_closed(&id, &unit_to_unit), Ok(true));

    let prod = Ty::Prod(Ty::Unit.into(), Ty::Unit.into());
    let prod_to_prod = Ty::Func(prod.clone().into(), prod.clone().into());
    assert_eq!(CheckAttribute::<Ty>::check_closed(&id, &prod_to_prod), Ok(true));

    let unit_to_prod = Ty::Func(Ty::Unit.into(), prod.into());
    assert_eq!(CheckAttribute::<Ty>::check_closed(&id, &unit_to_prod), Ok(false));
}

#[test]
fn evaluator_resolves_variables_with_skew_shift() {
    let ctx: ListContext<Option<LambdaExpr>> = Context::empty();
    let ctx = ctx.append(Some(Lambda(Var(5).into())));

    let t = Var(0);
    // The entry was recorded one binder out, so its free indices move by one.
    assert_eq!(t.evaluate(&ctx, false), Ok(Lambda(Var(6).into())));
}

#[test]
fn evaluator_keeps_opaque_positions() {
    let ctx: ListContext<Option<LambdaExpr>> = Context::empty();
    let ctx = ctx.append(None);

    assert_eq!(Var(0).evaluate(&ctx, false), Ok(Var(0)));
    assert_eq!(Var(7).evaluate(&ctx, false), Ok(Var(7)));
}

#[test]
fn evaluator_reconstructs_stuck_applications() {
    let stuck = App(Var(0).into(), Var(1).into());
    assert_eq!(stuck.evaluate_closed(false), Ok(stuck.clone()));
}

#[test]
fn evaluator_moves_under_binders_on_request() {
    let redex_under_binder = Lambda(App(Lambda(Var(0).into()).into(), Var(3).into()).into());

    // Surface reduction leaves the binder's body untouched.
    assert_eq!(
        redex_under_binder.evaluate_closed(false),
        Ok(redex_under_binder.clone())
    );
    // Moving under the binder reduces the redex, with the bound variable
    // kept opaque.
    assert_eq!(
        redex_under_binder.evaluate_closed(true),
        Ok(Lambda(Var(3).into()))
    );
}

#[test]
fn normal_form_equivalence_agrees_with_normalisation() {
    let x = App(Lambda(Var(0).into()).into(), Lambda(Var(1).into()).into());
    let y = Lambda(Var(1).into());
    let z = Lambda(Var(2).into());

    let ctx: ListContext<Option<LambdaExpr>> = Context::empty();
    let x_nf = x.normalise(&ctx, true).unwrap();
    let y_nf = y.normalise(&ctx, true).unwrap();
    let z_nf = z.normalise(&ctx, true).unwrap();

    assert_eq!(ContextualEq::equiv(&ctx, &x, &y), Ok(x_nf == y_nf));
    assert_eq!(ContextualEq::equiv(&ctx, &x, &y), Ok(true));
    assert_eq!(ContextualEq::equiv(&ctx, &x, &z), Ok(x_nf == z_nf));
    assert_eq!(ContextualEq::equiv(&ctx, &x, &z), Ok(false));
}

#[test]
fn normalise_closed_reduces() {
    let expr = App(Lambda(Var(0).into()).into(), Lambda(Var(4).into()).into());
    assert_eq!(expr.normalise_closed(false), Ok(Lambda(Var(4).into())));
}

#[test]
fn substitution_shifts_replacement_under_binder() {
    let body_var = Variable {
        index: 1,
        name: "x".to_string(),
    };
    let t = NamedExpr::Lambda(NamedExpr::Var(body_var).into());
    let replacement = NamedExpr::Var(Variable {
        index: 5,
        name: "y".to_string(),
    });
    // Under the binder the replacement's free index moves from 5 to 6.
    assert_eq!(
        t.substitute(&replacement, 0),
        Ok(NamedExpr::Lambda(
            NamedExpr::Var(Variable {
                index: 6,
                name: "y".to_string(),
            })
            .into()
        ))
    );
}
