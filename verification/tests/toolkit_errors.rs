use ttt::attribute::AttrError;
use ttt::bidir_terms::Expr as BidirExpr;
use ttt::check_terms::Expr as CheckExpr;
use ttt::contextual_eq::ExactEq;
use ttt::resolve_vars::{resolve_name, NameContext, NamedTerm, ResolveVars, ResolveVarsError};
use ttt::simple_types::Ty;
use ttt::subst_terms::RecursiveVar;
use ttt::synth_terms::Expr as SynthExpr;
use ttt::{
    CheckAttribute,
    Context,
    ContextualEq,
    DefaultError,
    EvalError,
    PartialSynthAttribute,
    SubstError,
    SynthAttribute,
};

#[test]
fn unbound_variable_is_reported() {
    let expr = BidirExpr::Var(0);
    assert_eq!(expr.try_synth_closed(), Err(AttrError::UnboundVariable));
}

#[test]
fn lambda_against_non_function_type_never_checks() {
    let expr = BidirExpr::Lam(BidirExpr::Unit.into());
    let verdict = CheckAttribute::<Ty>::check_closed(&expr, &Ty::Unit);
    assert_eq!(verdict, Err(AttrError::RuleNotMatched));
}

#[test]
fn synthesis_rule_not_matched_on_bare_application() {
    let expr = SynthExpr::App(SynthExpr::Unit.into(), SynthExpr::Unit.into());
    assert_eq!(expr.synth_closed(), Err(AttrError::RuleNotMatched));
}

#[test]
fn bidir_application_of_unsynthesizable_body() {
    // The body of the applied lambda is itself a lambda, which cannot
    // synthesize: the application synthesizes nothing, and checking it then
    // finds no matching rule.
    let expr = BidirExpr::App(
        BidirExpr::Lam(BidirExpr::Lam(BidirExpr::Unit.into()).into()).into(),
        BidirExpr::Unit.into(),
    );
    assert_eq!(expr.try_synth_closed(), Ok(None));

    let ty = Ty::Func(Ty::Unit.into(), Ty::Unit.into());
    assert_eq!(
        CheckAttribute::<Ty>::check_closed(&expr, &ty),
        Err(AttrError::RuleNotMatched)
    );
}

#[test]
fn mismatched_annotation_checks_false() {
    let expr = CheckExpr::Lam(Ty::Unit.into(), CheckExpr::Unit.into());
    let prod = Ty::Prod(Ty::Unit.into(), Ty::Unit.into());
    let ty = Ty::Func(prod.into(), Ty::Unit.into());
    assert_eq!(CheckAttribute::<Ty>::check_closed(&expr, &ty), Ok(false));
}

#[test]
fn user_error_carries_the_opaque_default() {
    assert_eq!(AttrError::from(DefaultError), AttrError::UserError(DefaultError));
}

#[test]
fn subst_error_names_both_kinds() {
    let e = SubstError::new::<String, RecursiveVar>();
    assert_eq!(e.kinds(), ("String", "RecursiveVar"));
}

#[test]
fn eval_error_wraps_substitution_failure() {
    let e = SubstError::new::<RecursiveVar, String>();
    assert_eq!(EvalError::from(e.clone()), EvalError::SubstError(e));
}

#[test]
fn resolve_name_finds_innermost_binding() {
    let ctx: NameContext = Context::empty();
    let ctx = ctx.append("x".to_string()).append("y".to_string());

    assert_eq!(resolve_name(&ctx, &"y".to_string()), Some(0));
    assert_eq!(resolve_name(&ctx, &"x".to_string()), Some(1));
    assert_eq!(resolve_name(&ctx, &"z".to_string()), None);
}

#[test]
fn resolve_name_respects_shadowing() {
    let ctx: NameContext = Context::empty();
    let ctx = ctx.append("x".to_string()).append("x".to_string());
    assert_eq!(resolve_name(&ctx, &"x".to_string()), Some(0));
}

#[test]
fn named_term_resolves_to_indices() {
    let term = NamedTerm::Lambda(
        "x".to_string(),
        NamedTerm::App(
            NamedTerm::Var("x".to_string(), 999).into(),
            NamedTerm::Var("y".to_string(), 999).into(),
        )
        .into(),
    );
    let ctx: NameContext = Context::empty();
    let ctx = ctx.append("y".to_string());

    let resolved = term.resolve_vars(&ctx);
    assert_eq!(
        resolved,
        Ok(NamedTerm::Lambda(
            "x".to_string(),
            NamedTerm::App(
                NamedTerm::Var("x".to_string(), 0).into(),
                NamedTerm::Var("y".to_string(), 1).into(),
            )
            .into(),
        ))
    );
}

#[test]
fn named_term_reports_unbound_names() {
    let term = NamedTerm::Var("z".to_string(), 0);
    let ctx: NameContext = Context::empty();
    assert_eq!(
        term.resolve_vars(&ctx),
        Err(ResolveVarsError::UnboundVariable("z".to_string()))
    );
}

#[test]
fn resolve_vars_error_message() {
    let e = ResolveVarsError::UnboundVariable("foo".to_string());
    assert_eq!(e.message(), "Unbound variable name: foo".to_string());
}

#[test]
fn wrapper_constructor_delegates() {
    // A constructor with no rule and a single child stands for that child.
    let wrapped_unit = SynthExpr::Wrapped(SynthExpr::Unit.into());
    assert_eq!(wrapped_unit.synth_closed(), Ok(Ty::Unit));

    let wrapped_check = CheckExpr::Wrapped(CheckExpr::Unit.into());
    assert_eq!(
        CheckAttribute::<Ty>::check_closed(&wrapped_check, &Ty::Unit),
        Ok(true)
    );
}

#[test]
fn exact_eq_decides_structural_equality() {
    let unit = Ty::Unit;
    let prod = Ty::Prod(Ty::Unit.into(), Ty::Unit.into());
    assert!(unit.exact_eq(&Ty::Unit));
    assert!(prod.exact_eq(&Ty::Prod(Ty::Unit.into(), Ty::Unit.into())));
    assert!(!unit.exact_eq(&prod));
    assert!(!prod.exact_eq(&Ty::Func(Ty::Unit.into(), Ty::Unit.into())));
}

#[test]
fn syntactic_equivalence_ignores_the_context() {
    let ctx: ttt::ListContext<Ty> = Context::empty();
    let ctx = ctx.append(Ty::Unit);
    let prod = Ty::Prod(Ty::Unit.into(), Ty::Unit.into());
    assert_eq!(ContextualEq::equiv(&ctx, &Ty::Unit, &Ty::Unit), Ok(true));
    assert_eq!(ContextualEq::equiv(&ctx, &Ty::Unit, &prod), Ok(false));
}
