//! The two stages and their pipeline.
//!
//! Classification maps three booleans to a class code; calculation maps the
//! class code to the formula of its score. Each stage asks the custom rules in
//! order and then the default rule, and takes the first answer. Where no rule
//! answers, the stage fails with [`ExecutionError::NoRuleError`].

use vstd::prelude::*;
use vstd::string::StringExecFns;
use crate::rules::{CustomRule, Formula, custom_rules, default_rule, default_class, default_formula};
use crate::tables::{lemma_result_table, result_table};

verus! {

/// What the pipeline found: the class code `h` and the formula `k` of the score.
#[derive(Clone, Copy, Debug, PartialEq, Eq, Structural)]
pub struct LogicResult {
    pub h: i64,
    pub k: Formula,
}

/// Why a stage failed.
#[derive(Clone, Copy, Debug, PartialEq, Eq, Structural)]
pub enum ExecutionError {
    /// No rule of the stage answered, the default rule included.
    NoRuleError,
}

impl ExecutionError {
    /// The text that describes the error to a reader.
    pub fn message(&self) -> (res: String)
        ensures
            res@ == "No rule found"@,
    {
        match self {
            ExecutionError::NoRuleError => String::from_str("No rule found"),
        }
    }
}

/// The class code of the first rule of `rules`, at index `i` or later, that answers.
pub open spec fn first_class_from(rules: Seq<CustomRule>, i: int, a: bool, b: bool, c: bool)
    -> Option<i64>
    decreases rules.len() - i,
{
    if i < 0 || i >= rules.len() {
        None
    } else if rules[i].class_of(a, b, c).is_some() {
        rules[i].class_of(a, b, c)
    } else {
        first_class_from(rules, i + 1, a, b, c)
    }
}

/// The formula of the first rule of `rules`, at index `i` or later, that answers.
pub open spec fn first_formula_from(rules: Seq<CustomRule>, i: int, h: i64) -> Option<Formula>
    decreases rules.len() - i,
{
    if i < 0 || i >= rules.len() {
        None
    } else if rules[i].formula_of(h).is_some() {
        rules[i].formula_of(h)
    } else {
        first_formula_from(rules, i + 1, h)
    }
}

/// The classification stage: the custom rules in order, then the default rule.
pub open spec fn classified(rules: Seq<CustomRule>, a: bool, b: bool, c: bool) -> Result<
    i64,
    ExecutionError,
> {
    match first_class_from(rules, 0, a, b, c) {
        Some(h) => Ok(h),
        None => match default_class(a, b, c) {
            Some(h) => Ok(h),
            None => Err(ExecutionError::NoRuleError),
        },
    }
}

/// The calculation stage: the custom rules in order, then the default rule.
pub open spec fn calculated(rules: Seq<CustomRule>, h: i64) -> Result<Formula, ExecutionError> {
    match first_formula_from(rules, 0, h) {
        Some(k) => Ok(k),
        None => match default_formula(h) {
            Some(k) => Ok(k),
            None => Err(ExecutionError::NoRuleError),
        },
    }
}

/// The pipeline: classification, then calculation on the class code it found.
/// Where classification fails, calculation has no part in the result.
pub open spec fn executed(rules: Seq<CustomRule>, a: bool, b: bool, c: bool) -> Result<
    LogicResult,
    ExecutionError,
> {
    match classified(rules, a, b, c) {
        Err(err) => Err(err),
        Ok(h) => match calculated(rules, h) {
            Err(err) => Err(err),
            Ok(k) => Ok(LogicResult { h, k }),
        },
    }
}

/// Asks the rules of `rules` in order for the class code of `(a, b, c)`.
/// The default rule is not asked.
pub fn try_custom_bool_rules(a: bool, b: bool, c: bool, rules: &[CustomRule]) -> (res: Option<i64>)
    ensures
        res == first_class_from(rules@, 0, a, b, c),
{
    let mut i: usize = 0;
    while i < rules.len()
        invariant
            i <= rules@.len(),
            first_class_from(rules@, 0, a, b, c) == first_class_from(rules@, i as int, a, b, c),
        decreases rules@.len() - i,
    {
        match rules[i].classify(a, b, c) {
            None => {},
            Some(h) => {
                return Some(h);
            },
        }
        i += 1;
    }
    None
}

/// Asks the rules of `rules` in order for the formula of the class code `h`.
/// The default rule is not asked.
pub fn try_custom_calc_rules(h: i64, rules: &[CustomRule]) -> (res: Option<Formula>)
    ensures
        res == first_formula_from(rules@, 0, h),
{
    let mut i: usize = 0;
    while i < rules.len()
        invariant
            i <= rules@.len(),
            first_formula_from(rules@, 0, h) == first_formula_from(rules@, i as int, h),
        decreases rules@.len() - i,
    {
        match rules[i].formula(h) {
            None => {},
            Some(k) => {
                return Some(k);
            },
        }
        i += 1;
    }
    None
}

/// Classifies `(a, b, c)`: the first answer among `rules` and then the default rule.
pub fn apply_bool_rules(a: bool, b: bool, c: bool, rules: &[CustomRule]) -> (res: Result<
    i64,
    ExecutionError,
>)
    ensures
        res == classified(rules@, a, b, c),
{
    match try_custom_bool_rules(a, b, c, rules) {
        Some(h) => Ok(h),
        None => match default_rule().classify(a, b, c) {
            Some(h) => Ok(h),
            None => Err(ExecutionError::NoRuleError),
        },
    }
}

/// Finds the formula of the class code `h`: the first answer among `rules` and
/// then the default rule.
pub fn apply_calc_rules(h: i64, rules: &[CustomRule]) -> (res: Result<Formula, ExecutionError>)
    ensures
        res == calculated(rules@, h),
{
    match try_custom_calc_rules(h, rules) {
        Some(k) => Ok(k),
        None => match default_rule().formula(h) {
            Some(k) => Ok(k),
            None => Err(ExecutionError::NoRuleError),
        },
    }
}

/// Runs the pipeline with `rules` as the custom rules.
pub fn execute_with_rules(a: bool, b: bool, c: bool, rules: &[CustomRule]) -> (res: Result<
    LogicResult,
    ExecutionError,
>)
    ensures
        res == executed(rules@, a, b, c),
        classified(rules@, a, b, c).is_err() ==> res == Err::<LogicResult, ExecutionError>(
            ExecutionError::NoRuleError,
        ),
{
    let h = match apply_bool_rules(a, b, c, rules) {
        Ok(h) => h,
        Err(err) => {
            return Err(err);
        },
    };
    let k = match apply_calc_rules(h, rules) {
        Ok(k) => k,
        Err(err) => {
            return Err(err);
        },
    };
    Ok(LogicResult { h, k })
}

/// Runs the pipeline with the full custom list: classifies `(a, b, c)` and
/// finds the formula of its score.
pub fn execute(a: bool, b: bool, c: bool) -> (res: Result<LogicResult, ExecutionError>)
    ensures
        res == result_table(a, b, c),
{
    let rules = custom_rules();
    proof {
        lemma_result_table(rules@, a, b, c);
    }
    execute_with_rules(a, b, c, rules.as_slice())
}

} // verus!
