use sprout_test_task::business_logic::{
    apply_bool_rules, apply_calc_rules, execute, execute_with_rules, try_custom_bool_rules,
    try_custom_calc_rules, ExecutionError, LogicResult,
};
use sprout_test_task::rules;
use sprout_test_task::rules::{
    custom_rules, default_rule, BoolCase, BoolFun, CalcCase, CalcFun, CustomRule, Formula, M, P,
    T,
};

const D: f64 = 1.0;
const E: i64 = 2;
const F: i64 = 3;

fn score(k: Formula, d: f64, e: i64, f: i64) -> f64 {
    let n = k.factor(e, f) as f64;
    match k {
        Formula::TwicePlusHundredth => 2. * d + (d * n / 100.),
        Formula::OffsetPlusHundredth => f as f64 + d + (d * n / 100.),
        Formula::PlusTenth => d + (d * n / 10.),
        Formula::PlusSpread => d + (d * n / 25.5),
        Formula::LessThirtieth => d - (d * n / 30.),
    }
}

fn scored(res: Result<LogicResult, ExecutionError>, d: f64, e: i64, f: i64) -> Result<(i64, f64), ExecutionError> {
    res.map(|r| (r.h, score(r.k, d, e, f)))
}

#[test]
fn default_rules() {
    assert_eq!(Ok((42, 1.2)), scored(execute_with_rules(true, true, false, &[]), D, E, F));
    assert_eq!(
        Ok((128, 0.9607843137254902)),
        scored(execute_with_rules(true, true, true, &[]), D, E, F)
    );
    assert_eq!(Ok((1024, 0.9)), scored(execute_with_rules(false, true, true, &[]), D, E, F));
    assert_eq!(
        Err(ExecutionError::NoRuleError),
        scored(execute_with_rules(false, false, false, &[]), D, E, F)
    );
}

#[test]
fn custom_rule_1() {
    assert_eq!(
        Ok((128, 2.02)),
        scored(execute_with_rules(true, true, true, &[rules::custom_rule_1()]), D, E, F)
    );
}

#[test]
fn custom_rule_2() {
    assert_eq!(
        Ok((1024, 0.9)),
        scored(execute_with_rules(true, true, false, &[rules::custom_rule_2()]), D, E, F)
    );
    assert_eq!(
        Ok((42, 4.02)),
        scored(execute_with_rules(true, false, true, &[rules::custom_rule_2()]), D, E, F)
    );
}

#[test]
fn with_all_custom_rules() {
    assert_eq!(Ok((128, 2.02)), scored(execute(true, true, true), D, E, F));
    assert_eq!(Ok((1024, 0.9)), scored(execute(true, true, false), D, E, F));
    assert_eq!(Ok((42, 4.02)), scored(execute(true, false, true), D, E, F));
}

#[test]
fn default_rule_1() {
    assert_eq!(Ok((42, 1.2)), scored(execute_with_rules(true, true, false, &[]), 1.0, 2, 3));
}

#[test]
fn default_rule_2() {
    assert_eq!(
        Ok((128, 0.9607843137254902)),
        scored(execute_with_rules(true, true, true, &[]), 1.0, 2, 3)
    );
}

#[test]
fn default_rule_3() {
    assert_eq!(Ok((1024, 0.9)), scored(execute_with_rules(false, true, true, &[]), 1.0, 2, 3));
}

#[test]
fn execute_gives_class_and_formula() {
    assert_eq!(Ok(LogicResult { h: 1024, k: Formula::LessThirtieth }), execute(true, true, false));
    assert_eq!(Ok(LogicResult { h: 42, k: Formula::OffsetPlusHundredth }), execute(true, false, true));
    assert_eq!(Ok(LogicResult { h: 128, k: Formula::TwicePlusHundredth }), execute(true, true, true));
    assert_eq!(Ok(LogicResult { h: 1024, k: Formula::LessThirtieth }), execute(false, true, true));
    assert_eq!(Err(ExecutionError::NoRuleError), execute(false, false, false));
}

#[test]
fn classifier_table_with_custom_rules() {
    let rules = custom_rules();
    let expected = [
        ((true, true, false), Ok(1024)),
        ((true, false, true), Ok(42)),
        ((true, true, true), Ok(128)),
        ((false, true, true), Ok(1024)),
        ((true, false, false), Err(ExecutionError::NoRuleError)),
        ((false, true, false), Err(ExecutionError::NoRuleError)),
        ((false, false, true), Err(ExecutionError::NoRuleError)),
        ((false, false, false), Err(ExecutionError::NoRuleError)),
    ];
    for ((a, b, c), want) in expected {
        assert_eq!(want, apply_bool_rules(a, b, c, &rules));
        assert_eq!(want, apply_bool_rules(a, b, c, &rules));
    }
}

#[test]
fn classifier_table_without_custom_rules() {
    let expected = [
        ((true, true, false), Ok(42)),
        ((true, false, true), Err(ExecutionError::NoRuleError)),
        ((true, true, true), Ok(128)),
        ((false, true, true), Ok(1024)),
        ((true, false, false), Err(ExecutionError::NoRuleError)),
        ((false, true, false), Err(ExecutionError::NoRuleError)),
        ((false, false, true), Err(ExecutionError::NoRuleError)),
        ((false, false, false), Err(ExecutionError::NoRuleError)),
    ];
    for ((a, b, c), want) in expected {
        assert_eq!(want, apply_bool_rules(a, b, c, &[]));
        assert_eq!(want, apply_bool_rules(a, b, c, &[]));
    }
}

#[test]
fn calculator_table_with_custom_rules() {
    let rules = custom_rules();
    assert_eq!(Ok(Formula::TwicePlusHundredth), apply_calc_rules(128, &rules));
    assert_eq!(Ok(Formula::OffsetPlusHundredth), apply_calc_rules(42, &rules));
    assert_eq!(Ok(Formula::LessThirtieth), apply_calc_rules(1024, &rules));
}

#[test]
fn calculator_table_without_custom_rules() {
    assert_eq!(Ok(Formula::PlusSpread), apply_calc_rules(128, &[]));
    assert_eq!(Ok(Formula::PlusTenth), apply_calc_rules(42, &[]));
    assert_eq!(Ok(Formula::LessThirtieth), apply_calc_rules(1024, &[]));
}

#[test]
fn formulas_have_exact_values() {
    assert_eq!(2.02, score(Formula::TwicePlusHundredth, 1.0, 2, 3));
    assert_eq!(4.02, score(Formula::OffsetPlusHundredth, 1.0, 2, 3));
    assert_eq!(1.2, score(Formula::PlusTenth, 1.0, 2, 3));
    assert_eq!(0.9607843137254902, score(Formula::PlusSpread, 1.0, 2, 3));
    assert_eq!(0.9, score(Formula::LessThirtieth, 1.0, 2, 3));
    assert_eq!(2.5 * 2. + 2.5 * 40. / 100., score(Formula::TwicePlusHundredth, 2.5, 40, 7));
    assert_eq!(7. + 2.5 + 2.5 * 40. / 100., score(Formula::OffsetPlusHundredth, 2.5, 40, 7));
    assert_eq!(2.5 + 2.5 * 40. / 10., score(Formula::PlusTenth, 2.5, 40, 7));
    assert_eq!(2.5 + 2.5 * 33. / 25.5, score(Formula::PlusSpread, 2.5, 40, 7));
    assert_eq!(2.5 - 2.5 * 7. / 30., score(Formula::LessThirtieth, 2.5, 40, 7));
    assert_eq!(-4.0 + -4.0 * -8. / 25.5, score(Formula::PlusSpread, -4.0, -3, 5));
}

#[test]
fn factor_is_the_integer_of_the_quotient() {
    assert_eq!(2, Formula::TwicePlusHundredth.factor(2, 3));
    assert_eq!(2, Formula::OffsetPlusHundredth.factor(2, 3));
    assert_eq!(2, Formula::PlusTenth.factor(2, 3));
    assert_eq!(-1, Formula::PlusSpread.factor(2, 3));
    assert_eq!(3, Formula::LessThirtieth.factor(2, 3));
}

#[test]
fn factor_holds_the_widest_difference() {
    assert_eq!(
        i64::MAX as i128 - i64::MIN as i128,
        Formula::PlusSpread.factor(i64::MAX, i64::MIN)
    );
    assert_eq!(
        i64::MIN as i128 - i64::MAX as i128,
        Formula::PlusSpread.factor(i64::MIN, i64::MAX)
    );
}

#[test]
fn unknown_class_code_has_no_rule() {
    let rules = custom_rules();
    for h in [0, 1, -42, 41, 43, 127, 129, 1023, 1025, i64::MAX, i64::MIN] {
        assert_eq!(Err(ExecutionError::NoRuleError), apply_calc_rules(h, &rules));
        assert_eq!(Err(ExecutionError::NoRuleError), apply_calc_rules(h, &[]));
    }
}

fn answers_everything() -> CustomRule {
    CustomRule {
        bool_fun: None,
        calc_fun: Some(CalcFun {
            cases: vec![
                CalcCase { h: 42, k: Formula::PlusTenth },
                CalcCase { h: 128, k: Formula::PlusTenth },
                CalcCase { h: 1024, k: Formula::PlusTenth },
                CalcCase { h: 0, k: Formula::PlusTenth },
            ],
        }),
    }
}

#[test]
fn failed_classification_ends_the_pipeline() {
    let rules = [answers_everything()];
    for (a, b, c) in [
        (true, false, true),
        (true, false, false),
        (false, true, false),
        (false, false, true),
        (false, false, false),
    ] {
        assert_eq!(Err(ExecutionError::NoRuleError), execute_with_rules(a, b, c, &rules));
    }
    assert_eq!(
        Ok(LogicResult { h: 42, k: Formula::PlusTenth }),
        execute_with_rules(true, true, false, &rules)
    );
}

#[test]
fn classified_code_without_formula_fails() {
    let odd = CustomRule {
        bool_fun: Some(BoolFun { cases: vec![BoolCase { a: false, b: false, c: false, h: 7 }] }),
        calc_fun: None,
    };
    assert_eq!(Ok(7), apply_bool_rules(false, false, false, &[odd]));
    let odd = CustomRule {
        bool_fun: Some(BoolFun { cases: vec![BoolCase { a: false, b: false, c: false, h: 7 }] }),
        calc_fun: None,
    };
    assert_eq!(Err(ExecutionError::NoRuleError), execute_with_rules(false, false, false, &[odd]));
}

fn one_case(a: bool, b: bool, c: bool, h: i64) -> CustomRule {
    CustomRule { bool_fun: Some(BoolFun { cases: vec![BoolCase { a, b, c, h }] }), calc_fun: None }
}

#[test]
fn first_matching_rule_wins() {
    let rules = [one_case(true, true, true, M), one_case(true, true, true, T)];
    assert_eq!(Ok(42), apply_bool_rules(true, true, true, &rules));
    let rules = [one_case(true, true, true, T), one_case(true, true, true, M)];
    assert_eq!(Ok(1024), apply_bool_rules(true, true, true, &rules));
    let rules = [one_case(false, true, true, M), one_case(true, true, true, T)];
    assert_eq!(Ok(1024), apply_bool_rules(true, true, true, &rules));
    assert_eq!(Ok(42), apply_bool_rules(false, true, true, &rules));
    assert_eq!(Ok(42), apply_bool_rules(true, true, false, &rules));
}

#[test]
fn first_matching_case_wins() {
    let table = BoolFun {
        cases: vec![
            BoolCase { a: true, b: false, c: false, h: 1 },
            BoolCase { a: true, b: false, c: false, h: 2 },
            BoolCase { a: false, b: false, c: true, h: 3 },
        ],
    };
    assert_eq!(Some(1), table.call(true, false, false));
    assert_eq!(Some(3), table.call(false, false, true));
    assert_eq!(None, table.call(true, true, true));
    let table = CalcFun {
        cases: vec![
            CalcCase { h: 5, k: Formula::PlusSpread },
            CalcCase { h: 5, k: Formula::PlusTenth },
            CalcCase { h: 6, k: Formula::LessThirtieth },
        ],
    };
    assert_eq!(Some(Formula::PlusSpread), table.call(5));
    assert_eq!(Some(Formula::LessThirtieth), table.call(6));
    assert_eq!(None, table.call(7));
    assert_eq!(None, BoolFun { cases: vec![] }.call(true, true, true));
    assert_eq!(None, CalcFun { cases: vec![] }.call(42));
}

#[test]
fn custom_rules_are_asked_without_the_default() {
    let rules = custom_rules();
    assert_eq!(2, rules.len());
    assert_eq!(Some(1024), try_custom_bool_rules(true, true, false, &rules));
    assert_eq!(Some(42), try_custom_bool_rules(true, false, true, &rules));
    assert_eq!(None, try_custom_bool_rules(true, true, true, &rules));
    assert_eq!(None, try_custom_bool_rules(false, true, true, &rules));
    assert_eq!(Some(Formula::TwicePlusHundredth), try_custom_calc_rules(128, &rules));
    assert_eq!(Some(Formula::OffsetPlusHundredth), try_custom_calc_rules(42, &rules));
    assert_eq!(None, try_custom_calc_rules(1024, &rules));
    assert_eq!(None, try_custom_bool_rules(true, true, false, &[]));
    assert_eq!(None, try_custom_calc_rules(42, &[]));
}

#[test]
fn rules_answer_by_their_tables() {
    let rule = default_rule();
    assert_eq!(Some(M), rule.classify(true, true, false));
    assert_eq!(Some(P), rule.classify(true, true, true));
    assert_eq!(Some(T), rule.classify(false, true, true));
    assert_eq!(None, rule.classify(true, false, true));
    assert_eq!(Some(Formula::PlusTenth), rule.formula(M));
    assert_eq!(Some(Formula::PlusSpread), rule.formula(P));
    assert_eq!(Some(Formula::LessThirtieth), rule.formula(T));
    assert_eq!(None, rule.formula(0));
    let rule = rules::custom_rule_1();
    assert_eq!(None, rule.classify(true, true, false));
    assert_eq!(Some(Formula::TwicePlusHundredth), rule.formula(P));
    assert_eq!(None, rule.formula(M));
    let rule = rules::custom_rule_2();
    assert_eq!(Some(T), rule.classify(true, true, false));
    assert_eq!(Some(M), rule.classify(true, false, true));
    assert_eq!(None, rule.classify(true, true, true));
    assert_eq!(Some(Formula::OffsetPlusHundredth), rule.formula(M));
    assert_eq!(None, rule.formula(P));
}

#[test]
fn class_codes_have_their_values() {
    assert_eq!(42, M);
    assert_eq!(128, P);
    assert_eq!(1024, T);
}
