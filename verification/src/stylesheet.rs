//! Stylesheets: rules, declarations and CSS values.
//!
//! Numeric CSS values are stored in hundredths of their unit, so that
//! fractional source text (`1.5em`, `0.5`, `62.5%`) keeps its meaning in
//! integer form. Resolution to whole logical pixels happens in `to_px`.

use vstd::prelude::*;

use crate::painter::{spec_named_color, Color};
use crate::px::MAX_STYLE_PX;
use crate::selector::Selector;
use crate::text::{chars_of, lower_chars, spec_lower};
use std::rc::Rc;

verus! {

#[derive(Debug, Clone, Copy, PartialEq, Eq, Structural)]
pub enum Unit {
    Px,
    Em,
    Rem,
    Percent,
    Vh,
    Vw,
}

/// A declaration value. `Length`, `Number` and `Percentage` carry
/// hundredths of their unit.
#[derive(Debug)]
pub enum Value {
    Keyword(String),
    Length(i64, Unit),
    Color(Color),
    Number(i64),
    Percentage(i64),
    Auto,
    /// The CSS keyword `none`.
    NoneVal,
    /// Shorthand properties carry several values.
    List(Vec<Value>),
}

/// Truncating division, as machine division rounds toward zero.
pub open spec fn spec_tdiv(x: int, d: int) -> int {
    if x >= 0 {
        x / d
    } else {
        -((-x) / d)
    }
}

/// Clamp of a resolved length into the style range.
pub open spec fn spec_style_clamp(x: int) -> int {
    if x < -MAX_STYLE_PX {
        -MAX_STYLE_PX as int
    } else if x > MAX_STYLE_PX {
        MAX_STYLE_PX as int
    } else {
        x
    }
}

/// `clamp(tdiv(a * b, d))` computed without overflow.
pub fn mul_div_clamp(a: i64, b: i64, d: i64) -> (r: i64)
    requires
        d > 0,
    ensures
        r as int == spec_style_clamp(spec_tdiv(a * b, d as int)),
{
    proof {
        assert((a as int) * (b as int) <= 0x8000_0000_0000_0000 * 0x8000_0000_0000_0000 && (
        a as int) * (b as int) >= -(0x8000_0000_0000_0000 * 0x8000_0000_0000_0000)) by (nonlinear_arith)
            requires
                -0x8000_0000_0000_0000 <= a as int <= 0x8000_0000_0000_0000,
                -0x8000_0000_0000_0000 <= b as int <= 0x8000_0000_0000_0000,
        ;
    }
    let w: i128 = (a as i128) * (b as i128);
    let q: i128 = if w >= 0 {
        w / (d as i128)
    } else {
        -((-w) / (d as i128))
    };
    proof {
        assert(i64::MIN <= -MAX_STYLE_PX && MAX_STYLE_PX <= i64::MAX);
    }
    if q < -(MAX_STYLE_PX as i128) {
        -MAX_STYLE_PX
    } else if q > MAX_STYLE_PX as i128 {
        MAX_STYLE_PX
    } else {
        q as i64
    }
}

/// What `to_px` returns: the value resolved against the parent font size
/// and viewport, in whole pixels, clamped into the style range. Percent
/// lengths resolve against nothing here and yield `None`.
pub open spec fn spec_to_px(v: Value, pfs: int, vw: int, vh: int) -> Option<int> {
    match v {
        Value::Length(n, unit) => match unit {
            Unit::Px => Some(spec_style_clamp(spec_tdiv(n as int, 100))),
            Unit::Em => Some(spec_style_clamp(spec_tdiv(n * pfs, 100))),
            Unit::Rem => Some(spec_style_clamp(spec_tdiv(n * 16, 100))),
            Unit::Percent => None,
            Unit::Vh => Some(spec_style_clamp(spec_tdiv(n * vh, 10000))),
            Unit::Vw => Some(spec_style_clamp(spec_tdiv(n * vw, 10000))),
        },
        Value::Number(n) => Some(spec_style_clamp(spec_tdiv(n as int, 100))),
        Value::Percentage(p) => Some(spec_style_clamp(spec_tdiv(p as int, 100))),
        _ => None,
    }
}

/// What `to_color` returns: a stored color, or a keyword looked up in the
/// named-color table after ASCII lower-casing.
pub open spec fn spec_to_color(v: Value) -> Option<Color> {
    match v {
        Value::Color(c) => Some(c),
        Value::Keyword(kw) => spec_named_color(spec_lower(kw@)),
        _ => None,
    }
}

impl Value {
    /// Resolve to whole pixels where the unit allows it.
    pub fn to_px(&self, parent_font_size: i64, viewport_width: i64, viewport_height: i64) -> (r:
        Option<i64>)
        ensures
            match r {
                Some(px) => spec_to_px(
                    *self,
                    parent_font_size as int,
                    viewport_width as int,
                    viewport_height as int,
                ) == Some(px as int),
                None => spec_to_px(
                    *self,
                    parent_font_size as int,
                    viewport_width as int,
                    viewport_height as int,
                ) is None,
            },
    {
        match self {
            Value::Length(n, unit) => match unit {
                Unit::Px => Some(mul_div_clamp(*n, 1, 100)),
                Unit::Em => Some(mul_div_clamp(*n, parent_font_size, 100)),
                Unit::Rem => Some(mul_div_clamp(*n, 16, 100)),
                Unit::Percent => None,
                Unit::Vh => Some(mul_div_clamp(*n, viewport_height, 10000)),
                Unit::Vw => Some(mul_div_clamp(*n, viewport_width, 10000)),
            },
            Value::Number(n) => Some(mul_div_clamp(*n, 1, 100)),
            Value::Percentage(p) => Some(mul_div_clamp(*p, 1, 100)),
            _ => None,
        }
    }

    /// Resolve to a color where the value names one.
    pub fn to_color(&self) -> (r: Option<Color>)
        ensures
            r == spec_to_color(*self),
    {
        match self {
            Value::Color(c) => Some(*c),
            Value::Keyword(kw) => {
                let kc = chars_of(kw.as_str());
                let lowered = lower_chars(&kc);
                crate::painter::named_color(&lowered)
            },
            _ => None,
        }
    }

    /// The keyword text, for keyword values.
    pub fn as_keyword(&self) -> (r: Option<&String>)
        ensures
            match r {
                Some(k) => *self matches Value::Keyword(kw) && kw == *k,
                None => !(*self is Keyword),
            },
    {
        match self {
            Value::Keyword(k) => Some(k),
            _ => None,
        }
    }
}

#[derive(Debug)]
pub struct Declaration {
    pub property: String,
    pub value: Value,
    pub important: bool,
}

/// A rule: selectors sharing an ordered list of declarations.
#[derive(Debug)]
pub struct Rule {
    pub selectors: Vec<Selector>,
    pub declarations: Vec<Declaration>,
}

impl Rule {
    pub fn new() -> (r: Rule)
        ensures
            r.selectors@.len() == 0,
            r.declarations@.len() == 0,
    {
        Rule { selectors: Vec::new(), declarations: Vec::new() }
    }
}

impl Default for Rule {
    fn default() -> (r: Rule)
        ensures
            r.selectors@.len() == 0,
            r.declarations@.len() == 0,
    {
        Rule::new()
    }
}

/// An ordered list of rules. Rules are shared by reference count so the
/// selector index can hold them without copying.
#[derive(Debug)]
pub struct Stylesheet {
    pub rules: Vec<Rc<Rule>>,
}

impl Stylesheet {
    pub fn new() -> (r: Stylesheet)
        ensures
            r.rules@.len() == 0,
    {
        Stylesheet { rules: Vec::new() }
    }

    pub fn add_rule(&mut self, rule: Rule)
        ensures
            final(self).rules@.len() == old(self).rules@.len() + 1,
            forall|i: int|
                0 <= i < old(self).rules@.len() ==> final(self).rules@[i] == old(self).rules@[i],
            *final(self).rules@.last() == rule,
    {
        self.rules.push(rc_new(rule));
    }

    /// Append another stylesheet's rules after this one's.
    pub fn merge(&mut self, other: Stylesheet)
        ensures
            final(self).rules@ == old(self).rules@ + other.rules@,
    {
        let mut rest = other.rules;
        let ghost restsnap = rest@;
        let mut rev: Vec<Rc<Rule>> = Vec::new();
        while rest.len() > 0
            invariant
                rev@.len() + rest@.len() == restsnap.len(),
                rest@ == restsnap.take(rest@.len() as int),
                forall|i: int|
                    0 <= i < rev@.len() ==> rev@[i] == restsnap[restsnap.len() - 1 - i],
            decreases rest@.len(),
        {
            match rest.pop() {
                Some(r) => {
                    rev.push(r);
                },
                None => {},
            }
        }
        let ghost base = self.rules@;
        while rev.len() > 0
            invariant
                rev@.len() <= restsnap.len(),
                forall|i: int|
                    0 <= i < rev@.len() ==> rev@[i] == restsnap[restsnap.len() - 1 - i],
                self.rules@ == base + restsnap.take(restsnap.len() - rev@.len()),
            decreases rev@.len(),
        {
            match rev.pop() {
                Some(r) => {
                    let ghost before = self.rules@;
                    self.rules.push(r);
                    proof {
                        assert(self.rules@ =~= base + restsnap.take(
                            restsnap.len() - rev@.len(),
                        ));
                    }
                },
                None => {},
            }
        }
        proof {
            assert(restsnap.take(restsnap.len() as int) =~= restsnap);
        }
    }
}

impl Default for Stylesheet {
    fn default() -> (r: Stylesheet)
        ensures
            r.rules@.len() == 0,
    {
        Stylesheet::new()
    }
}

/// Relies on `Rc::new` of std: the returned handle holds exactly the
/// given value.
#[verifier::external_body]
pub fn rc_new<T>(value: T) -> (r: Rc<T>)
    ensures
        *r == value,
{
    Rc::new(value)
}

/// Relies on `Rc::clone` of std: the returned handle shares the same
/// value as the one cloned.
#[verifier::external_body]
pub fn rc_clone<T>(rc: &Rc<T>) -> (r: Rc<T>)
    ensures
        *r == **rc,
{
    Rc::clone(rc)
}

} // verus!
