//! The rules: what one rule is, and the rules that ship with the library.
//!
//! A rule holds up to two decision tables. The first maps three booleans to a
//! class code, the second maps a class code to the formula of its score. A
//! table is an ordered list of cases, of which the first that matches answers.

use vstd::prelude::*;

verus! {

/// Class code of the first class.
pub const M: i64 = 42;

/// Class code of the second class.
pub const P: i64 = 128;

/// Class code of the third class.
pub const T: i64 = 1024;

/// The formula by which a score is computed from a real `d` and integers `e`, `f`.
///
/// Every formula adds to a leading part the quotient of `d` times an integer
/// by a fixed divisor. The library decides which formula applies and which
/// integer enters it; the real arithmetic is the caller's.
#[derive(Clone, Copy, Debug, PartialEq, Eq, Structural)]
pub enum Formula {
    /// Twice `d`, plus `d` times `e` over a hundred.
    TwicePlusHundredth,
    /// `f` plus `d`, plus `d` times `e` over a hundred.
    OffsetPlusHundredth,
    /// `d`, plus `d` times `e` over ten.
    PlusTenth,
    /// `d`, plus `d` times the difference `e - f` over twenty-five and a half.
    PlusSpread,
    /// `d`, less `d` times `f` over thirty.
    LessThirtieth,
}

impl Formula {
    /// The integer that is multiplied with `d` in the quotient of the formula.
    pub open spec fn factor_of(self, e: i64, f: i64) -> int {
        match self {
            Formula::TwicePlusHundredth => e as int,
            Formula::OffsetPlusHundredth => e as int,
            Formula::PlusTenth => e as int,
            Formula::PlusSpread => e - f,
            Formula::LessThirtieth => f as int,
        }
    }

    /// Computes the integer that is multiplied with `d`, wide enough that the
    /// difference of two 64-bit integers is held exactly.
    pub fn factor(self, e: i64, f: i64) -> (res: i128)
        ensures
            res == self.factor_of(e, f),
    {
        match self {
            Formula::TwicePlusHundredth => e as i128,
            Formula::OffsetPlusHundredth => e as i128,
            Formula::PlusTenth => e as i128,
            Formula::PlusSpread => e as i128 - f as i128,
            Formula::LessThirtieth => f as i128,
        }
    }
}

/// One line of a classification table: these three booleans give this class code.
#[derive(Clone, Copy, Debug, PartialEq, Eq, Structural)]
pub struct BoolCase {
    pub a: bool,
    pub b: bool,
    pub c: bool,
    pub h: i64,
}

impl BoolCase {
    /// This case speaks of exactly these three booleans.
    pub open spec fn matches(self, a: bool, b: bool, c: bool) -> bool {
        self.a == a && self.b == b && self.c == c
    }
}

/// One line of a calculation table: this class code is scored by this formula.
#[derive(Clone, Copy, Debug, PartialEq, Eq, Structural)]
pub struct CalcCase {
    pub h: i64,
    pub k: Formula,
}

/// A classification table. Its first case that matches the input answers.
#[derive(Debug)]
pub struct BoolFun {
    pub cases: Vec<BoolCase>,
}

/// A calculation table. Its first case that matches the class code answers.
#[derive(Debug)]
pub struct CalcFun {
    pub cases: Vec<CalcCase>,
}

impl BoolFun {
    /// The answer of the first matching case at index `i` or later.
    pub open spec fn first_from(&self, i: int, a: bool, b: bool, c: bool) -> Option<i64>
        decreases self.cases@.len() - i,
    {
        if i < 0 || i >= self.cases@.len() {
            None
        } else if self.cases@[i].matches(a, b, c) {
            Some(self.cases@[i].h)
        } else {
            self.first_from(i + 1, a, b, c)
        }
    }

    /// The class code that the table gives to `(a, b, c)`, if any.
    pub open spec fn value(&self, a: bool, b: bool, c: bool) -> Option<i64> {
        self.first_from(0, a, b, c)
    }

    /// The first case that matches wins: with no match between `from` and
    /// it, its class code is the answer of the table from `from` on.
    pub proof fn lemma_first_case_wins(&self, from: int, i: int, a: bool, b: bool, c: bool)
        requires
            0 <= from <= i < self.cases@.len(),
            self.cases@[i].matches(a, b, c),
            forall|j: int| from <= j < i ==> !(#[trigger] self.cases@[j]).matches(a, b, c),
        ensures
            self.first_from(from, a, b, c) == Some(self.cases@[i].h),
        decreases i - from,
    {
        if from < i {
            self.lemma_first_case_wins(from + 1, i, a, b, c);
        }
    }

    /// A table of which no case from `from` on matches declines.
    pub proof fn lemma_no_case_matches(&self, from: int, a: bool, b: bool, c: bool)
        requires
            0 <= from,
            forall|j: int|
                from <= j < self.cases@.len() ==> !(#[trigger] self.cases@[j]).matches(a, b, c),
        ensures
            self.first_from(from, a, b, c).is_none(),
        decreases self.cases@.len() - from,
    {
        if from < self.cases@.len() {
            self.lemma_no_case_matches(from + 1, a, b, c);
        }
    }

    /// Looks `(a, b, c)` up in the table.
    pub fn call(&self, a: bool, b: bool, c: bool) -> (res: Option<i64>)
        ensures
            res == self.value(a, b, c),
    {
        let mut i: usize = 0;
        while i < self.cases.len()
            invariant
                i <= self.cases@.len(),
                self.value(a, b, c) == self.first_from(i as int, a, b, c),
            decreases self.cases@.len() - i,
        {
            let case = self.cases[i];
            if case.a == a && case.b == b && case.c == c {
                return Some(case.h);
            }
            i += 1;
        }
        None
    }
}

impl CalcFun {
    /// The answer of the first matching case at index `i` or later.
    pub open spec fn first_from(&self, i: int, h: i64) -> Option<Formula>
        decreases self.cases@.len() - i,
    {
        if i < 0 || i >= self.cases@.len() {
            None
        } else if self.cases@[i].h == h {
            Some(self.cases@[i].k)
        } else {
            self.first_from(i + 1, h)
        }
    }

    /// The formula that the table gives to the class code `h`, if any.
    pub open spec fn value(&self, h: i64) -> Option<Formula> {
        self.first_from(0, h)
    }

    /// The first case that matches wins: with no match between `from` and
    /// it, its formula is the answer of the table from `from` on.
    pub proof fn lemma_first_case_wins(&self, from: int, i: int, h: i64)
        requires
            0 <= from <= i < self.cases@.len(),
            self.cases@[i].h == h,
            forall|j: int| from <= j < i ==> (#[trigger] self.cases@[j]).h != h,
        ensures
            self.first_from(from, h) == Some(self.cases@[i].k),
        decreases i - from,
    {
        if from < i {
            self.lemma_first_case_wins(from + 1, i, h);
        }
    }

    /// A table of which no case from `from` on matches declines.
    pub proof fn lemma_no_case_matches(&self, from: int, h: i64)
        requires
            0 <= from,
            forall|j: int| from <= j < self.cases@.len() ==> (#[trigger] self.cases@[j]).h != h,
        ensures
            self.first_from(from, h).is_none(),
        decreases self.cases@.len() - from,
    {
        if from < self.cases@.len() {
            self.lemma_no_case_matches(from + 1, h);
        }
    }

    /// Looks the class code `h` up in the table.
    pub fn call(&self, h: i64) -> (res: Option<Formula>)
        ensures
            res == self.value(h),
    {
        let mut i: usize = 0;
        while i < self.cases.len()
            invariant
                i <= self.cases@.len(),
                self.value(h) == self.first_from(i as int, h),
            decreases self.cases@.len() - i,
        {
            let case = self.cases[i];
            if case.h == h {
                return Some(case.k);
            }
            i += 1;
        }
        None
    }
}

/// A rule: a classification table, a calculation table, both or neither.
/// A rule without a table declines every input of that stage.
#[derive(Debug)]
pub struct CustomRule {
    pub bool_fun: Option<BoolFun>,
    pub calc_fun: Option<CalcFun>,
}

impl CustomRule {
    /// The class code that this rule gives to `(a, b, c)`, if it answers.
    pub open spec fn class_of(&self, a: bool, b: bool, c: bool) -> Option<i64> {
        match self.bool_fun {
            Some(table) => table.value(a, b, c),
            None => None,
        }
    }

    /// The formula that this rule gives to the class code `h`, if it answers.
    pub open spec fn formula_of(&self, h: i64) -> Option<Formula> {
        match self.calc_fun {
            Some(table) => table.value(h),
            None => None,
        }
    }

    /// Asks this rule for the class code of `(a, b, c)`.
    pub fn classify(&self, a: bool, b: bool, c: bool) -> (res: Option<i64>)
        ensures
            res == self.class_of(a, b, c),
    {
        match &self.bool_fun {
            Some(table) => table.call(a, b, c),
            None => None,
        }
    }

    /// Asks this rule for the formula of the class code `h`.
    pub fn formula(&self, h: i64) -> (res: Option<Formula>)
        ensures
            res == self.formula_of(h),
    {
        match &self.calc_fun {
            Some(table) => table.call(h),
            None => None,
        }
    }
}

/// What the default rule answers in the classification stage.
pub open spec fn default_class(a: bool, b: bool, c: bool) -> Option<i64> {
    if a && b && !c {
        Some(M)
    } else if a && b && c {
        Some(P)
    } else if !a && b && c {
        Some(T)
    } else {
        None
    }
}

/// What the default rule answers in the calculation stage.
pub open spec fn default_formula(h: i64) -> Option<Formula> {
    if h == M {
        Some(Formula::PlusTenth)
    } else if h == P {
        Some(Formula::PlusSpread)
    } else if h == T {
        Some(Formula::LessThirtieth)
    } else {
        None
    }
}

/// What the first custom rule answers in the calculation stage.
/// It has no classification table.
pub open spec fn custom_formula_1(h: i64) -> Option<Formula> {
    if h == P {
        Some(Formula::TwicePlusHundredth)
    } else {
        None
    }
}

/// What the second custom rule answers in the classification stage.
pub open spec fn custom_class_2(a: bool, b: bool, c: bool) -> Option<i64> {
    if a && b && !c {
        Some(T)
    } else if a && !b && c {
        Some(M)
    } else {
        None
    }
}

/// What the second custom rule answers in the calculation stage.
pub open spec fn custom_formula_2(h: i64) -> Option<Formula> {
    if h == M {
        Some(Formula::OffsetPlusHundredth)
    } else {
        None
    }
}

/// `rule` answers as the default rule does, on every input of both stages.
pub open spec fn is_default_rule(rule: CustomRule) -> bool {
    &&& forall|a: bool, b: bool, c: bool| #[trigger] rule.class_of(a, b, c) == default_class(a, b, c)
    &&& forall|h: i64| #[trigger] rule.formula_of(h) == default_formula(h)
}

/// `rule` answers as the first custom rule does, on every input of both stages.
pub open spec fn is_custom_rule_1(rule: CustomRule) -> bool {
    &&& forall|a: bool, b: bool, c: bool| (#[trigger] rule.class_of(a, b, c)).is_none()
    &&& forall|h: i64| #[trigger] rule.formula_of(h) == custom_formula_1(h)
}

/// `rule` answers as the second custom rule does, on every input of both stages.
pub open spec fn is_custom_rule_2(rule: CustomRule) -> bool {
    &&& forall|a: bool, b: bool, c: bool| #[trigger] rule.class_of(a, b, c) == custom_class_2(a, b, c)
    &&& forall|h: i64| #[trigger] rule.formula_of(h) == custom_formula_2(h)
}

/// `rules` is the full custom list: the first custom rule, then the second.
pub open spec fn is_custom_rules(rules: Seq<CustomRule>) -> bool {
    &&& rules.len() == 2
    &&& is_custom_rule_1(rules[0])
    &&& is_custom_rule_2(rules[1])
}

/// The rule that is consulted last in each stage.
pub fn default_rule() -> (res: CustomRule)
    ensures
        is_default_rule(res),
{
    let bool_fun = BoolFun {
        cases: vec![
            BoolCase { a: true, b: true, c: false, h: M },
            BoolCase { a: true, b: true, c: true, h: P },
            BoolCase { a: false, b: true, c: true, h: T },
        ],
    };
    let calc_fun = CalcFun {
        cases: vec![
            CalcCase { h: M, k: Formula::PlusTenth },
            CalcCase { h: P, k: Formula::PlusSpread },
            CalcCase { h: T, k: Formula::LessThirtieth },
        ],
    };
    proof {
        reveal_with_fuel(BoolFun::first_from, 5);
        reveal_with_fuel(CalcFun::first_from, 5);
    }
    CustomRule { bool_fun: Some(bool_fun), calc_fun: Some(calc_fun) }
}

/// The first custom rule: class `P` is scored by its own formula.
pub fn custom_rule_1() -> (res: CustomRule)
    ensures
        is_custom_rule_1(res),
{
    let calc_fun = CalcFun { cases: vec![CalcCase { h: P, k: Formula::TwicePlusHundredth }] };
    proof {
        reveal_with_fuel(CalcFun::first_from, 3);
    }
    CustomRule { bool_fun: None, calc_fun: Some(calc_fun) }
}

/// The second custom rule: two classifications of its own, and a formula for class `M`.
pub fn custom_rule_2() -> (res: CustomRule)
    ensures
        is_custom_rule_2(res),
{
    let bool_fun = BoolFun {
        cases: vec![
            BoolCase { a: true, b: true, c: false, h: T },
            BoolCase { a: true, b: false, c: true, h: M },
        ],
    };
    let calc_fun = CalcFun { cases: vec![CalcCase { h: M, k: Formula::OffsetPlusHundredth }] };
    proof {
        reveal_with_fuel(BoolFun::first_from, 4);
        reveal_with_fuel(CalcFun::first_from, 3);
    }
    CustomRule { bool_fun: Some(bool_fun), calc_fun: Some(calc_fun) }
}

/// The custom rules in their order of priority. The default rule is not among them.
pub fn custom_rules() -> (res: Vec<CustomRule>)
    ensures
        is_custom_rules(res@),
{
    let mut rules: Vec<CustomRule> = Vec::new();
    rules.push(custom_rule_1());
    rules.push(custom_rule_2());
    rules
}

} // verus!
