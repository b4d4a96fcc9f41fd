//! What the two stages answer, stated outright, and the proofs that the rule
//! lists answer so.

use vstd::prelude::*;
use crate::rules::{CustomRule, Formula, M, P, T, is_custom_rules};
use crate::business_logic::{
    ExecutionError, LogicResult, calculated, classified, executed, first_class_from,
    first_formula_from,
};

verus! {

/// `h` is one of the three class codes.
pub open spec fn is_class_code(h: i64) -> bool {
    h == M || h == P || h == T
}

/// The classification table with the full custom list before the default rule.
pub open spec fn class_table(a: bool, b: bool, c: bool) -> Result<i64, ExecutionError> {
    if a && b && !c {
        Ok(T)
    } else if a && !b && c {
        Ok(M)
    } else if a && b && c {
        Ok(P)
    } else if !a && b && c {
        Ok(T)
    } else {
        Err(ExecutionError::NoRuleError)
    }
}

/// The classification table of the default rule alone.
pub open spec fn default_class_table(a: bool, b: bool, c: bool) -> Result<i64, ExecutionError> {
    if a && b && !c {
        Ok(M)
    } else if a && b && c {
        Ok(P)
    } else if !a && b && c {
        Ok(T)
    } else {
        Err(ExecutionError::NoRuleError)
    }
}

/// The calculation table with the full custom list before the default rule.
pub open spec fn formula_table(h: i64) -> Result<Formula, ExecutionError> {
    if h == P {
        Ok(Formula::TwicePlusHundredth)
    } else if h == M {
        Ok(Formula::OffsetPlusHundredth)
    } else if h == T {
        Ok(Formula::LessThirtieth)
    } else {
        Err(ExecutionError::NoRuleError)
    }
}

/// The calculation table of the default rule alone.
pub open spec fn default_formula_table(h: i64) -> Result<Formula, ExecutionError> {
    if h == M {
        Ok(Formula::PlusTenth)
    } else if h == P {
        Ok(Formula::PlusSpread)
    } else if h == T {
        Ok(Formula::LessThirtieth)
    } else {
        Err(ExecutionError::NoRuleError)
    }
}

/// The pipeline's table with the full custom list before the default rule.
pub open spec fn result_table(a: bool, b: bool, c: bool) -> Result<LogicResult, ExecutionError> {
    if a && b && !c {
        Ok(LogicResult { h: T, k: Formula::LessThirtieth })
    } else if a && !b && c {
        Ok(LogicResult { h: M, k: Formula::OffsetPlusHundredth })
    } else if a && b && c {
        Ok(LogicResult { h: P, k: Formula::TwicePlusHundredth })
    } else if !a && b && c {
        Ok(LogicResult { h: T, k: Formula::LessThirtieth })
    } else {
        Err(ExecutionError::NoRuleError)
    }
}

/// The pipeline's table of the default rule alone.
pub open spec fn default_result_table(a: bool, b: bool, c: bool) -> Result<
    LogicResult,
    ExecutionError,
> {
    if a && b && !c {
        Ok(LogicResult { h: M, k: Formula::PlusTenth })
    } else if a && b && c {
        Ok(LogicResult { h: P, k: Formula::PlusSpread })
    } else if !a && b && c {
        Ok(LogicResult { h: T, k: Formula::LessThirtieth })
    } else {
        Err(ExecutionError::NoRuleError)
    }
}

/// First match wins in classification: a rule that answers, with only rules
/// that decline between `from` and it, gives the answer of the list from `from` on.
pub proof fn lemma_first_class_wins(
    rules: Seq<CustomRule>,
    from: int,
    i: int,
    a: bool,
    b: bool,
    c: bool,
)
    requires
        0 <= from <= i < rules.len(),
        rules[i].class_of(a, b, c).is_some(),
        forall|j: int| from <= j < i ==> (#[trigger] rules[j].class_of(a, b, c)).is_none(),
    ensures
        first_class_from(rules, from, a, b, c) == rules[i].class_of(a, b, c),
    decreases i - from,
{
    if from < i {
        lemma_first_class_wins(rules, from + 1, i, a, b, c);
    }
}

/// A list of which every rule from `from` on declines gives no class code.
pub proof fn lemma_no_class_answers(rules: Seq<CustomRule>, from: int, a: bool, b: bool, c: bool)
    requires
        0 <= from,
        forall|j: int|
            from <= j < rules.len() ==> (#[trigger] rules[j].class_of(a, b, c)).is_none(),
    ensures
        first_class_from(rules, from, a, b, c).is_none(),
    decreases rules.len() - from,
{
    if from < rules.len() {
        lemma_no_class_answers(rules, from + 1, a, b, c);
    }
}

/// First match wins in calculation: a rule that answers, with only rules that
/// decline between `from` and it, gives the answer of the list from `from` on.
pub proof fn lemma_first_formula_wins(rules: Seq<CustomRule>, from: int, i: int, h: i64)
    requires
        0 <= from <= i < rules.len(),
        rules[i].formula_of(h).is_some(),
        forall|j: int| from <= j < i ==> (#[trigger] rules[j].formula_of(h)).is_none(),
    ensures
        first_formula_from(rules, from, h) == rules[i].formula_of(h),
    decreases i - from,
{
    if from < i {
        lemma_first_formula_wins(rules, from + 1, i, h);
    }
}

/// A list of which every rule from `from` on declines gives no formula.
pub proof fn lemma_no_formula_answers(rules: Seq<CustomRule>, from: int, h: i64)
    requires
        0 <= from,
        forall|j: int| from <= j < rules.len() ==> (#[trigger] rules[j].formula_of(h)).is_none(),
    ensures
        first_formula_from(rules, from, h).is_none(),
    decreases rules.len() - from,
{
    if from < rules.len() {
        lemma_no_formula_answers(rules, from + 1, h);
    }
}

/// A custom rule that answers is never overruled by the default rule, and the
/// default rule decides exactly where every custom rule declines.
pub proof fn lemma_custom_before_default(rules: Seq<CustomRule>, a: bool, b: bool, c: bool)
    ensures
        first_class_from(rules, 0, a, b, c) matches Some(h) ==> classified(rules, a, b, c) == Ok::<
            i64,
            ExecutionError,
        >(h),
        first_class_from(rules, 0, a, b, c).is_none() ==> classified(rules, a, b, c)
            == default_class_table(a, b, c),
{
}

/// With the full custom list, classification answers by its table.
pub proof fn lemma_class_table(rules: Seq<CustomRule>, a: bool, b: bool, c: bool)
    requires
        is_custom_rules(rules),
    ensures
        classified(rules, a, b, c) == class_table(a, b, c),
{
    reveal_with_fuel(first_class_from, 3);
}

/// Without custom rules, classification answers by the default rule's table.
pub proof fn lemma_default_class_table(rules: Seq<CustomRule>, a: bool, b: bool, c: bool)
    requires
        rules.len() == 0,
    ensures
        classified(rules, a, b, c) == default_class_table(a, b, c),
{
}

/// With or without the custom list, classification gives one of the three
/// class codes or fails.
pub proof fn lemma_class_is_known(rules: Seq<CustomRule>, a: bool, b: bool, c: bool)
    requires
        rules.len() == 0 || is_custom_rules(rules),
    ensures
        match classified(rules, a, b, c) {
            Ok(h) => is_class_code(h),
            Err(err) => err == ExecutionError::NoRuleError,
        },
{
    if rules.len() == 0 {
        lemma_default_class_table(rules, a, b, c);
    } else {
        lemma_class_table(rules, a, b, c);
    }
}

/// With the full custom list, calculation answers by its table.
pub proof fn lemma_formula_table(rules: Seq<CustomRule>, h: i64)
    requires
        is_custom_rules(rules),
    ensures
        calculated(rules, h) == formula_table(h),
{
    reveal_with_fuel(first_formula_from, 3);
}

/// Without custom rules, calculation answers by the default rule's table.
pub proof fn lemma_default_formula_table(rules: Seq<CustomRule>, h: i64)
    requires
        rules.len() == 0,
    ensures
        calculated(rules, h) == default_formula_table(h),
{
}

/// A class code other than the three known ones has no rule, with or without
/// the custom list.
pub proof fn lemma_unknown_code_has_no_rule(rules: Seq<CustomRule>, h: i64)
    requires
        rules.len() == 0 || is_custom_rules(rules),
        !is_class_code(h),
    ensures
        calculated(rules, h) == Err::<Formula, ExecutionError>(ExecutionError::NoRuleError),
{
    if rules.len() == 0 {
        lemma_default_formula_table(rules, h);
    } else {
        lemma_formula_table(rules, h);
    }
}

/// Where classification fails the pipeline fails with it, whatever the
/// calculation stage would answer; where it succeeds, calculation sees the
/// class code that it gave and nothing of the booleans.
pub proof fn lemma_short_circuit(rules: Seq<CustomRule>, a: bool, b: bool, c: bool)
    ensures
        classified(rules, a, b, c).is_err() ==> executed(rules, a, b, c) == Err::<
            LogicResult,
            ExecutionError,
        >(ExecutionError::NoRuleError),
        classified(rules, a, b, c) matches Ok(h) ==> executed(rules, a, b, c) == (match calculated(
            rules,
            h,
        ) {
            Ok(k) => Ok(LogicResult { h, k }),
            Err(err) => Err(err),
        }),
{
}

/// With the full custom list, the pipeline answers by its table.
pub proof fn lemma_result_table(rules: Seq<CustomRule>, a: bool, b: bool, c: bool)
    requires
        is_custom_rules(rules),
    ensures
        executed(rules, a, b, c) == result_table(a, b, c),
{
    lemma_class_table(rules, a, b, c);
    lemma_formula_table(rules, M);
    lemma_formula_table(rules, P);
    lemma_formula_table(rules, T);
}

/// Without custom rules, the pipeline answers by the default rule's table.
pub proof fn lemma_default_result_table(rules: Seq<CustomRule>, a: bool, b: bool, c: bool)
    requires
        rules.len() == 0,
    ensures
        executed(rules, a, b, c) == default_result_table(a, b, c),
{
}

/// The pipeline succeeds exactly where classification does: every class code
/// that classification can give has a formula.
pub proof fn lemma_classified_is_calculated(rules: Seq<CustomRule>, a: bool, b: bool, c: bool)
    requires
        rules.len() == 0 || is_custom_rules(rules),
    ensures
        executed(rules, a, b, c).is_ok() <==> classified(rules, a, b, c).is_ok(),
{
    if rules.len() == 0 {
        lemma_default_result_table(rules, a, b, c);
    } else {
        lemma_result_table(rules, a, b, c);
        lemma_class_table(rules, a, b, c);
    }
}

} // verus!
