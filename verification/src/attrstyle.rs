//! The two cascade layers an element carries on itself: presentational
//! HTML attributes (`bgcolor`, `width`, `border`, ...) and the inline
//! `style` attribute.
//!
//! Declaration text is the project's own grammar: declarations split on
//! `;`, a property before the first `:`, a value of whitespace-separated
//! tokens, and a trailing `!important` flag. Numbers are decimal with at
//! most twelve integer digits; fractional digits beyond the second are
//! ignored, matching the crate's hundredths encoding.
//!
//! A parsed inline value that carries text (a keyword) holds it in a
//! `String`, whose identity a specification function cannot reproduce;
//! the parse is therefore specified by `GhostVal`/`GhostDecl` records
//! over character sequences, with `value_matches` relating the executable
//! value to its record, and `lemma_apply_value_matches` showing that
//! applying a declaration depends only on the record.

use vstd::prelude::*;

use crate::computed::{ComputedStyle, TextAlign, VerticalAlign};
use crate::painter::{spec_from_hex, spec_named_color, Color};
use crate::stylesheet::{mul_div_clamp, spec_style_clamp, spec_tdiv, Unit, Value};
use crate::text::{
    chars_ends_with, chars_eq, chars_of, is_digit, lower_chars, spec_all_digits,
    spec_digit_val, spec_digits_val, spec_ends_with, spec_is_digit, spec_lower, spec_trim,
    spec_words, split_words, string_from_chars, trim_chars,
};

verus! {

/// Powers of ten, for digit-count bounds.
pub open spec fn pow10(n: int) -> int
    decreases n,
{
    if n <= 0 {
        1
    } else {
        10 * pow10(n - 1)
    }
}

proof fn lemma_digits_val_bound(s: Seq<char>)
    requires
        spec_all_digits(s),
    ensures
        0 <= spec_digits_val(s) < pow10(s.len() as int),
    decreases s.len(),
{
    if s.len() > 0 {
        lemma_digits_val_bound(s.subrange(0, s.len() - 1));
        let head = spec_digits_val(s.subrange(0, s.len() - 1));
        assert(head * 10 + 9 < pow10(s.len() as int)) by (nonlinear_arith)
            requires
                0 <= head,
                head < pow10(s.len() - 1),
                pow10(s.len() as int) == 10 * pow10(s.len() - 1),
        ;
    }
}

/// The integer a run of at most twelve digits denotes.
fn digits_val(s: &Vec<char>, lo: usize, hi: usize) -> (r: i64)
    requires
        lo <= hi <= s@.len(),
        hi - lo <= 12,
        spec_all_digits(s@.subrange(lo as int, hi as int)),
    ensures
        r == spec_digits_val(s@.subrange(lo as int, hi as int)),
        0 <= r < pow10(hi - lo),
{
    proof {
        reveal_with_fuel(pow10, 13);
        assert(pow10(12) == 1000000000000);
    }
    let mut acc: i64 = 0;
    let mut i: usize = lo;
    proof {
        assert(s@.subrange(lo as int, lo as int) =~= Seq::<char>::empty());
    }
    while i < hi
        invariant
            lo <= i <= hi <= s@.len(),
            hi - lo <= 12,
            spec_all_digits(s@.subrange(lo as int, hi as int)),
            acc == spec_digits_val(s@.subrange(lo as int, i as int)),
            0 <= acc < pow10(i - lo),
            pow10(12) == 1000000000000,
        decreases hi - i,
    {
        proof {
            assert(s@.subrange(lo as int, hi as int)[i - lo] == s@[i as int]);
            assert(spec_is_digit(s@[i as int]));
            lemma_pow10_le(i - lo + 1, 12);
            assert(acc * 10 + 9 < pow10(i - lo + 1)) by (nonlinear_arith)
                requires
                    0 <= acc,
                    acc < pow10(i - lo),
                    pow10(i - lo + 1) == 10 * pow10(i - lo),
            ;
        }
        let d = (s[i] as u32) - ('0' as u32);
        acc = acc * 10 + (d as i64);
        proof {
            assert(s@.subrange(lo as int, i + 1).subrange(0, i - lo) =~= s@.subrange(
                lo as int,
                i as int,
            ));
            assert(s@.subrange(lo as int, i + 1)[i - lo] == s@[i as int]);
        }
        i = i + 1;
    }
    acc
}

proof fn lemma_pow10_le(a: int, b: int)
    requires
        0 <= a <= b,
    ensures
        pow10(a) <= pow10(b),
    decreases b,
{
    if a < b {
        lemma_pow10_le(a, b - 1);
        lemma_pow10_pos(b - 1);
        assert(pow10(b - 1) <= 10 * pow10(b - 1)) by (nonlinear_arith)
            requires
                pow10(b - 1) >= 1,
        ;
    }
}

proof fn lemma_pow10_pos(n: int)
    ensures
        pow10(n) >= 1,
    decreases n,
{
    if n > 0 {
        lemma_pow10_pos(n - 1);
    }
}

/// Index of the first character from `i` on that is neither a digit nor
/// a dot; the length when every remaining character is one.
pub open spec fn spec_num_end(s: Seq<char>, i: int) -> int
    decreases s.len() - i,
{
    if i < 0 || i >= s.len() {
        s.len() as int
    } else if spec_is_digit(s[i]) || s[i] == '.' {
        spec_num_end(s, i + 1)
    } else {
        i
    }
}

/// Index of the first dot from `i` on, or the length.
pub open spec fn spec_dot_pos(s: Seq<char>, i: int) -> int
    decreases s.len() - i,
{
    if i < 0 || i >= s.len() {
        s.len() as int
    } else if s[i] == '.' {
        i
    } else {
        spec_dot_pos(s, i + 1)
    }
}

/// The hundredths a decimal numeral denotes: an optional minus sign,
/// digits with at most one dot, at least one digit in all, at most twelve
/// integer digits; fractional digits beyond the second are ignored.
pub open spec fn spec_num100(s: Seq<char>) -> Option<i64> {
    let neg = s.len() > 0 && s[0] == '-';
    let t = if neg {
        s.subrange(1, s.len() as int)
    } else {
        s
    };
    let d = spec_dot_pos(t, 0);
    let ip = t.subrange(0, d);
    let fp = if d < t.len() {
        t.subrange(d + 1, t.len() as int)
    } else {
        Seq::<char>::empty()
    };
    if ip.len() + fp.len() == 0 || ip.len() > 12 || !spec_all_digits(ip) || !spec_all_digits(fp) {
        None
    } else {
        let f2: int = if fp.len() >= 2 {
            spec_digits_val(fp.subrange(0, 2))
        } else if fp.len() == 1 {
            spec_digit_val(fp[0]) * 10
        } else {
            0
        };
        let mag = spec_digits_val(ip) * 100 + f2;
        if neg {
            Some((-mag) as i64)
        } else {
            Some(mag as i64)
        }
    }
}

/// Parse a decimal numeral into hundredths.
#[verifier::loop_isolation(false)]
#[verifier::rlimit(100)]
#[verifier::spinoff_prover]
pub fn parse_num100(s: &Vec<char>) -> (r: Option<i64>)
    ensures
        r == spec_num100(s@),
{
    let neg = s.len() > 0 && s[0] == '-';
    let lo: usize = if neg {
        1
    } else {
        0
    };
    let ghost t = if neg {
        s@.subrange(1, s@.len() as int)
    } else {
        s@
    };
    proof {
        assert(t =~= s@.subrange(lo as int, s@.len() as int));
    }
    // find the dot
    let mut d: usize = lo;
    while d < s.len() && s[d] != '.'
        invariant
            lo <= d <= s@.len(),
            spec_dot_pos(t, 0) == spec_dot_pos(t, d - lo),
            forall|j: int| lo <= j < d ==> s@[j] != '.',
        decreases s@.len() - d,
    {
        proof {
            assert(t[d - lo] == s@[d as int]);
        }
        d = d + 1;
    }
    proof {
        if d < s@.len() {
            assert(t[d - lo] == s@[d as int]);
        }
        assert(spec_dot_pos(t, 0) == d - lo);
    }
    let ghost ip = t.subrange(0, d - lo);
    let ghost fp = if d - lo < t.len() {
        t.subrange(d - lo + 1, t.len() as int)
    } else {
        Seq::<char>::empty()
    };
    proof {
        assert(ip =~= s@.subrange(lo as int, d as int));
        if d < s@.len() {
            assert(fp =~= s@.subrange(d + 1, s@.len() as int));
        }
    }
    // check the digit runs
    let mut i: usize = lo;
    while i < d
        invariant
            lo <= i <= d,
            d <= s@.len(),
            ip == s@.subrange(lo as int, d as int),
            forall|j: int| 0 <= j < i - lo ==> spec_is_digit(#[trigger] ip[j]),
        decreases d - i,
    {
        proof {
            assert(ip[i - lo] == s@[i as int]);
        }
        if !is_digit(s[i]) {
            proof {
                assert(!spec_all_digits(ip));
            }
            return None;
        }
        i = i + 1;
    }
    proof {
        assert(spec_all_digits(ip));
    }
    let fstart: usize = if d < s.len() {
        d + 1
    } else {
        d
    };
    let mut k: usize = fstart;
    while k < s.len()
        invariant
            fstart <= k <= s@.len(),
            d < s@.len() ==> fstart == d + 1,
            d >= s@.len() ==> fstart == d,
            fp == (if d < s@.len() {
                s@.subrange(d + 1, s@.len() as int)
            } else {
                Seq::<char>::empty()
            }),
            forall|j: int| 0 <= j < k - fstart ==> spec_is_digit(#[trigger] fp[j]),
        decreases s@.len() - k,
    {
        proof {
            assert(fp[k - fstart] == s@[k as int]);
        }
        if !is_digit(s[k]) {
            proof {
                assert(!spec_all_digits(fp));
            }
            return None;
        }
        k = k + 1;
    }
    proof {
        assert(spec_all_digits(fp));
    }
    if d - lo == 0 && s.len() == fstart {
        return None;
    }
    if d - lo > 12 {
        return None;
    }
    // value
    let ipv = digits_val(s, lo, d);
    let f2: i64 = if s.len() >= fstart + 2 && d < s.len() {
        proof {
            assert(fp.subrange(0, 2) =~= s@.subrange(fstart as int, fstart + 2));
        }
        digits_val(s, fstart, fstart + 2)
    } else if s.len() == fstart + 1 && d < s.len() {
        proof {
            assert(fp[0] == s@[fstart as int]);
        }
        let dv = (s[fstart] as u32) - ('0' as u32);
        (dv as i64) * 10
    } else {
        0
    };
    proof {
        reveal_with_fuel(pow10, 13);
        assert(pow10(12) == 1000000000000);
        lemma_pow10_le(d - lo, 12);
        assert(f2 <= 99);
    }
    let mag: i64 = ipv * 100 + f2;
    if neg {
        Some(-mag)
    } else {
        Some(mag)
    }
}

/// A copy of `s[lo..hi]`.
pub fn chars_slice(s: &Vec<char>, lo: usize, hi: usize) -> (r: Vec<char>)
    requires
        lo <= hi <= s@.len(),
    ensures
        r@ == s@.subrange(lo as int, hi as int),
{
    let mut out: Vec<char> = Vec::new();
    let mut i: usize = lo;
    while i < hi
        invariant
            lo <= i <= hi <= s@.len(),
            out@ == s@.subrange(lo as int, i as int),
        decreases hi - i,
    {
        out.push(s[i]);
        proof {
            assert(s@.subrange(lo as int, i + 1) =~= s@.subrange(lo as int, i as int).push(
                s@[i as int],
            ));
        }
        i = i + 1;
    }
    out
}

/// The specification-level record of one parsed inline value.
pub enum GhostVal {
    Kw(Seq<char>),
    Len(i64, Unit),
    Col(Color),
    Num(i64),
    Pct(i64),
    AutoV,
    NoneV,
    Lst(Seq<GhostVal>),
}

/// Whether a single (non-list) value realises the record: equal payloads,
/// with a keyword compared by its characters.
pub open spec fn scalar_matches(v: Value, g: GhostVal) -> bool {
    match g {
        GhostVal::Kw(cs) => v matches Value::Keyword(kw) && kw@ == cs,
        GhostVal::Len(n, u) => v == Value::Length(n, u),
        GhostVal::Col(c) => v == Value::Color(c),
        GhostVal::Num(n) => v == Value::Number(n),
        GhostVal::Pct(p) => v == Value::Percentage(p),
        GhostVal::AutoV => v is Auto,
        GhostVal::NoneV => v is NoneVal,
        GhostVal::Lst(_) => false,
    }
}

/// Whether a value realises the record; lists match element-wise.
pub open spec fn value_matches(v: Value, g: GhostVal) -> bool {
    match g {
        GhostVal::Lst(gs) => v matches Value::List(vs) && vs@.len() == gs.len() && (forall|i: int|
            0 <= i < gs.len() ==> scalar_matches(#[trigger] vs@[i], gs[i])),
        _ => scalar_matches(v, g),
    }
}

/// The value one token denotes: `auto` and `none` keywords, a hex colour,
/// a number with an optional unit (an unknown unit reads as pixels), or a
/// plain keyword.
pub open spec fn spec_token_val(tok: Seq<char>) -> GhostVal {
    let lo = spec_lower(tok);
    if lo == "auto"@ {
        GhostVal::AutoV
    } else if lo == "none"@ {
        GhostVal::NoneV
    } else if tok.len() > 0 && tok[0] == '#' {
        match spec_from_hex(tok) {
            Some(c) => GhostVal::Col(c),
            None => GhostVal::Kw(tok),
        }
    } else {
        let start: int = if tok.len() > 0 && tok[0] == '-' {
            1
        } else {
            0
        };
        let ne = spec_num_end(tok, start);
        let unit = spec_lower(tok.subrange(ne, tok.len() as int));
        match spec_num100(tok.subrange(0, ne)) {
            Some(n) => if unit.len() == 0 {
                GhostVal::Num(n)
            } else if unit == "px"@ {
                GhostVal::Len(n, Unit::Px)
            } else if unit == "em"@ {
                GhostVal::Len(n, Unit::Em)
            } else if unit == "rem"@ {
                GhostVal::Len(n, Unit::Rem)
            } else if unit == "vh"@ {
                GhostVal::Len(n, Unit::Vh)
            } else if unit == "vw"@ {
                GhostVal::Len(n, Unit::Vw)
            } else if unit == "%"@ {
                GhostVal::Pct(n)
            } else {
                GhostVal::Len(n, Unit::Px)
            },
            None => GhostVal::Kw(tok),
        }
    }
}

/// Parse one token into a value realising `spec_token_val`.
#[verifier::loop_isolation(false)]
#[verifier::rlimit(100)]
#[verifier::spinoff_prover]
pub fn token_val(tok: &Vec<char>) -> (r: Value)
    ensures
        scalar_matches(r, spec_token_val(tok@)),
{
    let lo = lower_chars(tok);
    let auto_kw = chars_of("auto");
    if chars_eq(&lo, &auto_kw) {
        return Value::Auto;
    }
    let none_kw = chars_of("none");
    if chars_eq(&lo, &none_kw) {
        return Value::NoneVal;
    }
    if tok.len() > 0 && tok[0] == '#' {
        let s = string_from_chars(tok);
        match Color::from_hex(s.as_str()) {
            Some(c) => { return Value::Color(c) },
            None => { return Value::Keyword(string_from_chars(tok)) },
        }
    }
    let start: usize = if tok.len() > 0 && tok[0] == '-' {
        1
    } else {
        0
    };
    let mut ne: usize = start;
    while ne < tok.len() && (is_digit(tok[ne]) || tok[ne] == '.')
        invariant
            start <= ne <= tok@.len(),
            spec_num_end(tok@, start as int) == spec_num_end(tok@, ne as int),
        decreases tok@.len() - ne,
    {
        ne = ne + 1;
    }
    proof {
        assert(spec_num_end(tok@, start as int) == ne);
    }
    let num = chars_slice(tok, 0, ne);
    let unit = chars_slice(tok, ne, tok.len());
    let unit_lo = lower_chars(&unit);
    match parse_num100(&num) {
        Some(n) => {
            if unit_lo.len() == 0 {
                Value::Number(n)
            } else {
                let u_px = chars_of("px");
                let u_em = chars_of("em");
                let u_rem = chars_of("rem");
                let u_vh = chars_of("vh");
                let u_vw = chars_of("vw");
                let u_pct = chars_of("%");
                if chars_eq(&unit_lo, &u_px) {
                    Value::Length(n, Unit::Px)
                } else if chars_eq(&unit_lo, &u_em) {
                    Value::Length(n, Unit::Em)
                } else if chars_eq(&unit_lo, &u_rem) {
                    Value::Length(n, Unit::Rem)
                } else if chars_eq(&unit_lo, &u_vh) {
                    Value::Length(n, Unit::Vh)
                } else if chars_eq(&unit_lo, &u_vw) {
                    Value::Length(n, Unit::Vw)
                } else if chars_eq(&unit_lo, &u_pct) {
                    Value::Percentage(n)
                } else {
                    Value::Length(n, Unit::Px)
                }
            }
        },
        None => Value::Keyword(string_from_chars(tok)),
    }
}

/// The semicolon-separated segments of `s` from `i` on; empty segments
/// are kept and rejected later by the declaration parse.
pub open spec fn spec_segs_from(s: Seq<char>, i: int, cur: Seq<char>, acc: Seq<Seq<char>>) -> Seq<
    Seq<char>,
>
    decreases s.len() - i,
{
    if i < 0 || i >= s.len() {
        acc.push(cur)
    } else if s[i] == ';' {
        spec_segs_from(s, i + 1, Seq::empty(), acc.push(cur))
    } else {
        spec_segs_from(s, i + 1, cur.push(s[i]), acc)
    }
}

pub open spec fn spec_segs(s: Seq<char>) -> Seq<Seq<char>> {
    spec_segs_from(s, 0, Seq::empty(), Seq::empty())
}

/// Index of the first colon from `i` on, or the length.
pub open spec fn spec_colon_pos(s: Seq<char>, i: int) -> int
    decreases s.len() - i,
{
    if i < 0 || i >= s.len() {
        s.len() as int
    } else if s[i] == ':' {
        i
    } else {
        spec_colon_pos(s, i + 1)
    }
}

/// The specification-level record of one parsed declaration.
pub struct GhostDecl {
    pub prop: Seq<char>,
    pub val: GhostVal,
    pub important: bool,
}

/// One segment parsed: the lower-cased trimmed property before the first
/// colon, a trailing `!important` flag, and the whitespace-separated
/// value tokens — one token is a single value, several are a list; a
/// segment without a colon, property or token is no declaration.
pub open spec fn spec_parse_decl(seg: Seq<char>) -> Option<GhostDecl> {
    let c = spec_colon_pos(seg, 0);
    if c >= seg.len() {
        None
    } else {
        let prop = spec_lower(spec_trim(seg.subrange(0, c)));
        let rhs = spec_trim(seg.subrange(c + 1, seg.len() as int));
        let imp = spec_ends_with(spec_lower(rhs), "!important"@);
        let vt = if imp {
            spec_trim(rhs.subrange(0, rhs.len() - 10))
        } else {
            rhs
        };
        let toks = spec_words(vt);
        if prop.len() == 0 || toks.len() == 0 {
            None
        } else if toks.len() == 1 {
            Some(GhostDecl { prop, val: spec_token_val(toks[0]), important: imp })
        } else {
            Some(
                GhostDecl {
                    prop,
                    val: GhostVal::Lst(toks.map_values(|t: Seq<char>| spec_token_val(t))),
                    important: imp,
                },
            )
        }
    }
}

/// The declarations of the whole attribute text, in order.
pub open spec fn spec_decls_of(segs: Seq<Seq<char>>, i: int) -> Seq<GhostDecl>
    decreases segs.len() - i,
{
    if i < 0 || i >= segs.len() {
        Seq::empty()
    } else {
        match spec_parse_decl(segs[i]) {
            Some(d) => seq![d] + spec_decls_of(segs, i + 1),
            None => spec_decls_of(segs, i + 1),
        }
    }
}

pub open spec fn spec_parse_inline(s: Seq<char>) -> Seq<GhostDecl> {
    spec_decls_of(spec_segs(s), 0)
}

/// Whether a parsed declaration realises its record.
pub open spec fn decl_matches(d: crate::stylesheet::Declaration, g: GhostDecl) -> bool {
    &&& d.property@ == g.prop
    &&& d.important == g.important
    &&& value_matches(d.value, g.val)
}

/// Whether a parsed declaration list realises the records, pointwise.
pub open spec fn decls_match(ds: Seq<crate::stylesheet::Declaration>, gs: Seq<GhostDecl>) -> bool {
    ds.len() == gs.len() && (forall|i: int|
        0 <= i < gs.len() ==> decl_matches(#[trigger] ds[i], gs[i]))
}

/// Split attribute text on semicolons.
fn split_semis(s: &Vec<char>) -> (r: Vec<Vec<char>>)
    ensures
        r@.map_values(|w: Vec<char>| w@) == spec_segs(s@),
{
    let mut acc: Vec<Vec<char>> = Vec::new();
    let mut cur: Vec<char> = Vec::new();
    let mut i: usize = 0;
    proof {
        assert(acc@.map_values(|w: Vec<char>| w@) =~= Seq::<Seq<char>>::empty());
    }
    while i < s.len()
        invariant
            i <= s.len(),
            spec_segs(s@) == spec_segs_from(s@, i as int, cur@, acc@.map_values(
                |w: Vec<char>| w@,
            )),
        decreases s.len() - i,
    {
        let ghost acc0 = acc@.map_values(|w: Vec<char>| w@);
        let c = s[i];
        if c == ';' {
            let ghost cur0 = cur@;
            acc.push(cur);
            cur = Vec::new();
            proof {
                assert(acc@.map_values(|w: Vec<char>| w@) =~= acc0.push(cur0));
            }
        } else {
            cur.push(c);
        }
        i = i + 1;
    }
    let ghost acc0 = acc@.map_values(|w: Vec<char>| w@);
    let ghost cur0 = cur@;
    acc.push(cur);
    proof {
        assert(acc@.map_values(|w: Vec<char>| w@) =~= acc0.push(cur0));
    }
    acc
}

/// Parse one segment into a declaration realising `spec_parse_decl`.
#[verifier::loop_isolation(false)]
#[verifier::rlimit(100)]
#[verifier::spinoff_prover]
fn parse_decl(seg: &Vec<char>) -> (r: Option<crate::stylesheet::Declaration>)
    ensures
        match r {
            Some(d) => spec_parse_decl(seg@) matches Some(g) && decl_matches(d, g),
            None => spec_parse_decl(seg@) is None,
        },
{
    let mut c: usize = 0;
    while c < seg.len() && seg[c] != ':'
        invariant
            c <= seg@.len(),
            spec_colon_pos(seg@, 0) == spec_colon_pos(seg@, c as int),
        decreases seg@.len() - c,
    {
        c = c + 1;
    }
    proof {
        assert(spec_colon_pos(seg@, 0) == c);
    }
    if c >= seg.len() {
        return None;
    }
    let prop_raw = chars_slice(seg, 0, c);
    let prop_trimmed = trim_chars(&prop_raw);
    let prop = lower_chars(&prop_trimmed);
    let rhs_raw = chars_slice(seg, c + 1, seg.len());
    let rhs = trim_chars(&rhs_raw);
    let rhs_lo = lower_chars(&rhs);
    let imp_kw = chars_of("!important");
    let imp = chars_ends_with(&rhs_lo, &imp_kw);
    proof {
        reveal_strlit("!important");
        if imp {
            assert(spec_lower(rhs@).len() == rhs@.len());
            assert(rhs@.len() >= 10);
        }
    }
    let vt: Vec<char> = if imp {
        let head = chars_slice(&rhs, 0, rhs.len() - 10);
        trim_chars(&head)
    } else {
        rhs
    };
    let toks = split_words(&vt);
    if prop.len() == 0 || toks.len() == 0 {
        return None;
    }
    let ghost gtoks = spec_words(vt@);
    let property = string_from_chars(&prop);
    if toks.len() == 1 {
        let v = token_val(&toks[0]);
        proof {
            assert(gtoks[0] == toks@.map_values(|w: Vec<char>| w@)[0]);
        }
        Some(crate::stylesheet::Declaration { property, value: v, important: imp })
    } else {
        let mut vals: Vec<Value> = Vec::new();
        let mut i: usize = 0;
        while i < toks.len()
            invariant
                i <= toks@.len(),
                vals@.len() == i,
                gtoks == toks@.map_values(|w: Vec<char>| w@),
                forall|j: int|
                    0 <= j < i ==> scalar_matches(#[trigger] vals@[j], spec_token_val(gtoks[j])),
            decreases toks@.len() - i,
        {
            let v = token_val(&toks[i]);
            proof {
                assert(gtoks[i as int] == toks@.map_values(|w: Vec<char>| w@)[i as int]);
            }
            vals.push(v);
            i = i + 1;
        }
        let ghost gl = gtoks.map_values(|t: Seq<char>| spec_token_val(t));
        proof {
            assert(vals@.len() == gl.len());
            assert forall|j: int| 0 <= j < gl.len() implies scalar_matches(
                #[trigger] vals@[j],
                gl[j],
            ) by {
                assert(gl[j] == spec_token_val(gtoks[j]));
            }
        }
        Some(
            crate::stylesheet::Declaration {
                property,
                value: Value::List(vals),
                important: imp,
            },
        )
    }
}

/// Parse the inline `style` attribute text into declarations realising
/// `spec_parse_inline`, in order.
#[verifier::loop_isolation(false)]
pub fn parse_inline_declarations(s: &Vec<char>) -> (r: Vec<crate::stylesheet::Declaration>)
    ensures
        decls_match(r@, spec_parse_inline(s@)),
{
    let segs = split_semis(s);
    let ghost gsegs = spec_segs(s@);
    let mut out: Vec<crate::stylesheet::Declaration> = Vec::new();
    let mut i: usize = 0;
    proof {
        assert(spec_decls_of(gsegs, 0) =~= Seq::<GhostDecl>::empty() + spec_decls_of(gsegs, 0));
    }
    while i < segs.len()
        invariant
            i <= segs@.len(),
            gsegs == segs@.map_values(|w: Vec<char>| w@),
            spec_decls_of(gsegs, 0).len() == out@.len() + spec_decls_of(gsegs, i as int).len(),
            decls_match(out@, spec_decls_of(gsegs, 0).take(out@.len() as int)),
            spec_decls_of(gsegs, 0) == spec_decls_of(gsegs, 0).take(out@.len() as int)
                + spec_decls_of(gsegs, i as int),
        decreases segs@.len() - i,
    {
        proof {
            assert(gsegs[i as int] == segs@.map_values(|w: Vec<char>| w@)[i as int]);
        }
        let ghost pre = out@;
        match parse_decl(&segs[i]) {
            Some(d) => {
                out.push(d);
                proof {
                    let g = spec_parse_decl(gsegs[i as int])->0;
                    assert(spec_decls_of(gsegs, i as int) =~= seq![g] + spec_decls_of(
                        gsegs,
                        i + 1,
                    ));
                    assert(spec_decls_of(gsegs, 0).take(out@.len() as int) =~= spec_decls_of(
                        gsegs,
                        0,
                    ).take(pre.len() as int).push(g));
                    assert(spec_decls_of(gsegs, 0) =~= spec_decls_of(gsegs, 0).take(
                        out@.len() as int,
                    ) + spec_decls_of(gsegs, i + 1));
                }
            },
            None => {
                proof {
                    assert(spec_decls_of(gsegs, i as int) =~= spec_decls_of(gsegs, i + 1));
                }
            },
        }
        i = i + 1;
    }
    proof {
        assert(spec_decls_of(gsegs, segs@.len() as int) =~= Seq::<GhostDecl>::empty());
        assert(spec_decls_of(gsegs, 0).take(out@.len() as int) =~= spec_decls_of(gsegs, 0));
    }
    out
}

/// Some value realising the record; `choose` picks one, and any parsed
/// value realising the same record applies identically
/// (`lemma_apply_value_matches`).
pub open spec fn spec_value_like(g: GhostVal) -> Value {
    choose|v: Value| value_matches(v, g)
}

/// The style after one recorded declaration is applied.
pub open spec fn spec_apply_ghost(
    s: ComputedStyle,
    prop: Seq<char>,
    g: GhostVal,
    pfs: int,
    vw: int,
    vh: int,
) -> ComputedStyle {
    crate::computed::spec_apply_value(s, prop, spec_value_like(g), pfs, vw, vh)
}

/// The style after the recorded declarations from `i` on are applied in
/// order, every one regardless of its importance flag.
pub open spec fn spec_inline_fold(
    s: ComputedStyle,
    gs: Seq<GhostDecl>,
    i: int,
    pfs: int,
    vw: int,
    vh: int,
) -> ComputedStyle
    decreases gs.len() - i,
{
    if i < 0 || i >= gs.len() {
        s
    } else {
        spec_inline_fold(spec_apply_ghost(s, gs[i].prop, gs[i].val, pfs, vw, vh), gs, i + 1, pfs, vw, vh)
    }
}

/// The inline layer: the parsed declarations of the `style` attribute
/// applied over `s`; without the attribute the style is unchanged.
pub open spec fn spec_inline_layer(
    s: ComputedStyle,
    attrs: Seq<(String, String)>,
    pfs: int,
    vw: int,
    vh: int,
) -> ComputedStyle {
    match crate::dom::spec_attr(attrs, "style"@) {
        Some(txt) => spec_inline_fold(s, spec_parse_inline(txt), 0, pfs, vw, vh),
        None => s,
    }
}

proof fn lemma_scalar_px(v1: Value, v2: Value, g: GhostVal, pfs: int, vw: int, vh: int)
    requires
        scalar_matches(v1, g),
        scalar_matches(v2, g),
    ensures
        crate::stylesheet::spec_to_px(v1, pfs, vw, vh) == crate::stylesheet::spec_to_px(
            v2,
            pfs,
            vw,
            vh,
        ),
        crate::computed::spec_px64(v1, pfs, vw, vh) == crate::computed::spec_px64(v2, pfs, vw, vh),
        crate::stylesheet::spec_to_color(v1) == crate::stylesheet::spec_to_color(v2),
{
}

proof fn lemma_px_list_matches(
    vs1: Seq<Value>,
    vs2: Seq<Value>,
    gs: Seq<GhostVal>,
    i: int,
    pfs: int,
    vw: int,
    vh: int,
)
    requires
        vs1.len() == gs.len(),
        vs2.len() == gs.len(),
        forall|j: int| 0 <= j < gs.len() ==> scalar_matches(#[trigger] vs1[j], gs[j]),
        forall|j: int| 0 <= j < gs.len() ==> scalar_matches(#[trigger] vs2[j], gs[j]),
    ensures
        crate::computed::spec_px_list_from(vs1, i, pfs, vw, vh)
            == crate::computed::spec_px_list_from(vs2, i, pfs, vw, vh),
    decreases vs1.len() - i,
{
    if 0 <= i < gs.len() {
        lemma_scalar_px(vs1[i], vs2[i], gs[i], pfs, vw, vh);
        lemma_px_list_matches(vs1, vs2, gs, i + 1, pfs, vw, vh);
    }
}

proof fn lemma_scan_one_matches(
    v1: Value,
    v2: Value,
    g: GhostVal,
    w: Option<i64>,
    st: Option<crate::computed::BorderStyle>,
    c: Option<Color>,
    pfs: int,
    vw: int,
    vh: int,
)
    requires
        scalar_matches(v1, g),
        scalar_matches(v2, g),
    ensures
        crate::computed::spec_border_scan_one(v1, w, st, c, pfs, vw, vh)
            == crate::computed::spec_border_scan_one(v2, w, st, c, pfs, vw, vh),
{
    lemma_scalar_px(v1, v2, g, pfs, vw, vh);
}

proof fn lemma_border_scan_matches(
    vs1: Seq<Value>,
    vs2: Seq<Value>,
    gs: Seq<GhostVal>,
    i: int,
    w: Option<i64>,
    st: Option<crate::computed::BorderStyle>,
    c: Option<Color>,
    pfs: int,
    vw: int,
    vh: int,
)
    requires
        vs1.len() == gs.len(),
        vs2.len() == gs.len(),
        forall|j: int| 0 <= j < gs.len() ==> scalar_matches(#[trigger] vs1[j], gs[j]),
        forall|j: int| 0 <= j < gs.len() ==> scalar_matches(#[trigger] vs2[j], gs[j]),
    ensures
        crate::computed::spec_border_scan(vs1, i, w, st, c, pfs, vw, vh)
            == crate::computed::spec_border_scan(vs2, i, w, st, c, pfs, vw, vh),
    decreases vs1.len() - i,
{
    if 0 <= i < gs.len() {
        lemma_scan_one_matches(vs1[i], vs2[i], gs[i], w, st, c, pfs, vw, vh);
        let step = crate::computed::spec_border_scan_one(vs1[i], w, st, c, pfs, vw, vh);
        lemma_border_scan_matches(vs1, vs2, gs, i + 1, step.0, step.1, step.2, pfs, vw, vh);
    }
}

/// Applying a declaration reads its value only through the record: two
/// values realising the same record yield the same style.
#[verifier::rlimit(100)]
#[verifier::spinoff_prover]
pub proof fn lemma_apply_value_matches(
    s: ComputedStyle,
    prop: Seq<char>,
    v1: Value,
    v2: Value,
    g: GhostVal,
    pfs: int,
    vw: int,
    vh: int,
)
    requires
        value_matches(v1, g),
        value_matches(v2, g),
    ensures
        crate::computed::spec_apply_value(s, prop, v1, pfs, vw, vh)
            == crate::computed::spec_apply_value(s, prop, v2, pfs, vw, vh),
{
    reveal(crate::computed::spec_arm_align_content);
    reveal(crate::computed::spec_arm_align_items);
    reveal(crate::computed::spec_arm_align_self);
    reveal(crate::computed::spec_arm_background_color);
    reveal(crate::computed::spec_arm_border);
    reveal(crate::computed::spec_arm_border_bottom);
    reveal(crate::computed::spec_arm_border_bottom_left_radius);
    reveal(crate::computed::spec_arm_border_bottom_right_radius);
    reveal(crate::computed::spec_arm_border_collapse);
    reveal(crate::computed::spec_arm_border_color);
    reveal(crate::computed::spec_arm_border_left);
    reveal(crate::computed::spec_arm_border_radius);
    reveal(crate::computed::spec_arm_border_right);
    reveal(crate::computed::spec_arm_border_spacing);
    reveal(crate::computed::spec_arm_border_style);
    reveal(crate::computed::spec_arm_border_top);
    reveal(crate::computed::spec_arm_border_top_left_radius);
    reveal(crate::computed::spec_arm_border_top_right_radius);
    reveal(crate::computed::spec_arm_border_width);
    reveal(crate::computed::spec_arm_bottom);
    reveal(crate::computed::spec_arm_box_sizing);
    reveal(crate::computed::spec_arm_color);
    reveal(crate::computed::spec_arm_column_gap);
    reveal(crate::computed::spec_arm_display);
    reveal(crate::computed::spec_arm_flex);
    reveal(crate::computed::spec_arm_flex_basis);
    reveal(crate::computed::spec_arm_flex_direction);
    reveal(crate::computed::spec_arm_flex_grow);
    reveal(crate::computed::spec_arm_flex_shrink);
    reveal(crate::computed::spec_arm_flex_wrap);
    reveal(crate::computed::spec_arm_font_size);
    reveal(crate::computed::spec_arm_font_weight);
    reveal(crate::computed::spec_arm_gap);
    reveal(crate::computed::spec_arm_grid_column_end);
    reveal(crate::computed::spec_arm_grid_column_gap);
    reveal(crate::computed::spec_arm_grid_column_start);
    reveal(crate::computed::spec_arm_grid_gap);
    reveal(crate::computed::spec_arm_grid_row_end);
    reveal(crate::computed::spec_arm_grid_row_gap);
    reveal(crate::computed::spec_arm_grid_row_start);
    reveal(crate::computed::spec_arm_grid_template_columns);
    reveal(crate::computed::spec_arm_grid_template_rows);
    reveal(crate::computed::spec_arm_height);
    reveal(crate::computed::spec_arm_justify_content);
    reveal(crate::computed::spec_arm_left);
    reveal(crate::computed::spec_arm_line_height);
    reveal(crate::computed::spec_arm_margin);
    reveal(crate::computed::spec_arm_margin_bottom);
    reveal(crate::computed::spec_arm_margin_left);
    reveal(crate::computed::spec_arm_margin_right);
    reveal(crate::computed::spec_arm_margin_top);
    reveal(crate::computed::spec_arm_max_height);
    reveal(crate::computed::spec_arm_max_width);
    reveal(crate::computed::spec_arm_min_height);
    reveal(crate::computed::spec_arm_min_width);
    reveal(crate::computed::spec_arm_opacity);
    reveal(crate::computed::spec_arm_order);
    reveal(crate::computed::spec_arm_overflow);
    reveal(crate::computed::spec_arm_overflow_x);
    reveal(crate::computed::spec_arm_overflow_y);
    reveal(crate::computed::spec_arm_padding);
    reveal(crate::computed::spec_arm_padding_bottom);
    reveal(crate::computed::spec_arm_padding_left);
    reveal(crate::computed::spec_arm_padding_right);
    reveal(crate::computed::spec_arm_padding_top);
    reveal(crate::computed::spec_arm_position);
    reveal(crate::computed::spec_arm_right);
    reveal(crate::computed::spec_arm_row_gap);
    reveal(crate::computed::spec_arm_text_align);
    reveal(crate::computed::spec_arm_text_decoration);
    reveal(crate::computed::spec_arm_top);
    reveal(crate::computed::spec_arm_vertical_align);
    reveal(crate::computed::spec_arm_visibility);
    reveal(crate::computed::spec_arm_white_space);
    reveal(crate::computed::spec_arm_width);
    reveal(crate::computed::spec_arm_z_index);
    match g {
        GhostVal::Lst(gs) => {
            if let Value::List(vs1) = v1 {
                if let Value::List(vs2) = v2 {
                    lemma_px_list_matches(vs1@, vs2@, gs, 0, pfs, vw, vh);
                    lemma_border_scan_matches(vs1@, vs2@, gs, 0, None, None, None, pfs, vw, vh);
                }
            }
        },
        _ => {
            lemma_scalar_px(v1, v2, g, pfs, vw, vh);
        },
    }
}

/// `spec_apply_ghost` agrees with applying any value realising the record.
pub proof fn lemma_apply_ghost_realises(
    s: ComputedStyle,
    prop: Seq<char>,
    v: Value,
    g: GhostVal,
    pfs: int,
    vw: int,
    vh: int,
)
    requires
        value_matches(v, g),
    ensures
        crate::computed::spec_apply_value(s, prop, v, pfs, vw, vh) == spec_apply_ghost(
            s,
            prop,
            g,
            pfs,
            vw,
            vh,
        ),
{
    assert(value_matches(spec_value_like(g), g)) by {
        assert(value_matches(v, g));
    }
    lemma_apply_value_matches(s, prop, v, spec_value_like(g), g, pfs, vw, vh);
}

/// A colour named by an attribute: hex text first, then the named-colour
/// table after lower-casing.
pub open spec fn spec_attr_color(v: Seq<char>) -> Option<Color> {
    match spec_from_hex(v) {
        Some(c) => Some(c),
        None => spec_named_color(spec_lower(v)),
    }
}

/// A dimension attribute: one trailing `px` or `%` is dropped, the rest
/// read as a decimal and clamped into the style range, in whole pixels.
pub open spec fn spec_dim_attr(v: Seq<char>) -> Option<i64> {
    let t = if spec_ends_with(v, "px"@) {
        v.subrange(0, v.len() - 2)
    } else if spec_ends_with(v, "%"@) {
        v.subrange(0, v.len() - 1)
    } else {
        v
    };
    match spec_num100(t) {
        Some(h) => Some(spec_style_clamp(spec_tdiv(h as int, 100)) as i64),
        None => None,
    }
}

/// A plain numeric attribute, in whole pixels clamped into the style range.
pub open spec fn spec_plain_attr(v: Seq<char>) -> Option<i64> {
    match spec_num100(v) {
        Some(h) => Some(spec_style_clamp(spec_tdiv(h as int, 100)) as i64),
        None => None,
    }
}

fn attr_color(v: &Vec<char>) -> (r: Option<Color>)
    ensures
        r == spec_attr_color(v@),
{
    let s = string_from_chars(v);
    match Color::from_hex(s.as_str()) {
        Some(c) => Some(c),
        None => {
            let lo = lower_chars(v);
            crate::painter::named_color(&lo)
        },
    }
}

fn dim_attr(v: &Vec<char>) -> (r: Option<i64>)
    ensures
        r == spec_dim_attr(v@),
{
    let px_sfx = chars_of("px");
    let pct_sfx = chars_of("%");
    proof {
        reveal_strlit("px");
        reveal_strlit("%");
    }
    let t: Vec<char> = if chars_ends_with(v, &px_sfx) {
        chars_slice(v, 0, v.len() - 2)
    } else if chars_ends_with(v, &pct_sfx) {
        chars_slice(v, 0, v.len() - 1)
    } else {
        chars_slice(v, 0, v.len())
    };
    proof {
        assert(v@.subrange(0, v@.len() as int) =~= v@);
    }
    match parse_num100(&t) {
        Some(h) => Some(mul_div_clamp(h, 1, 100)),
        None => None,
    }
}

fn plain_attr(v: &Vec<char>) -> (r: Option<i64>)
    ensures
        r == spec_plain_attr(v@),
{
    match parse_num100(v) {
        Some(h) => Some(mul_div_clamp(h, 1, 100)),
        None => None,
    }
}

/// The `bgcolor` attribute: a readable colour becomes the background.
pub open spec fn spec_pres_bgcolor(s: ComputedStyle, attrs: Seq<(String, String)>) -> ComputedStyle {
    match crate::dom::spec_attr(attrs, "bgcolor"@) {
        Some(v) => match spec_attr_color(v) {
            Some(c) => ComputedStyle { background_color: c, ..s },
            None => s,
        },
        None => s,
    }
}

/// The `width` attribute: a readable dimension becomes the explicit width.
pub open spec fn spec_pres_width(s: ComputedStyle, attrs: Seq<(String, String)>) -> ComputedStyle {
    match crate::dom::spec_attr(attrs, "width"@) {
        Some(v) => match spec_dim_attr(v) {
            Some(px) => ComputedStyle { width: Some(px), ..s },
            None => s,
        },
        None => s,
    }
}

/// The `height` attribute: a readable dimension becomes the explicit height.
pub open spec fn spec_pres_height(s: ComputedStyle, attrs: Seq<(String, String)>) -> ComputedStyle {
    match crate::dom::spec_attr(attrs, "height"@) {
        Some(v) => match spec_dim_attr(v) {
            Some(px) => ComputedStyle { height: Some(px), ..s },
            None => s,
        },
        None => s,
    }
}

/// The `border` attribute: a readable number sets all four border widths,
/// and a fully transparent border colour turns black.
pub open spec fn spec_pres_border(s: ComputedStyle, attrs: Seq<(String, String)>) -> ComputedStyle {
    match crate::dom::spec_attr(attrs, "border"@) {
        Some(v) => match spec_plain_attr(v) {
            Some(px) => {
                let bc = if s.border_color == (Color { r: 0, g: 0, b: 0, a: 0 }) {
                    Color { r: 0, g: 0, b: 0, a: 255 }
                } else {
                    s.border_color
                };
                ComputedStyle {
                    border_top_width: px,
                    border_right_width: px,
                    border_bottom_width: px,
                    border_left_width: px,
                    border_color: bc,
                    ..s
                }
            },
            None => s,
        },
        None => s,
    }
}

/// The `cellpadding` attribute: a readable number pads all four sides.
pub open spec fn spec_pres_cellpadding(s: ComputedStyle, attrs: Seq<(String, String)>) -> ComputedStyle {
    match crate::dom::spec_attr(attrs, "cellpadding"@) {
        Some(v) => match spec_plain_attr(v) {
            Some(px) => ComputedStyle {
                padding_top: px,
                padding_right: px,
                padding_bottom: px,
                padding_left: px,
                ..s
            },
            None => s,
        },
        None => s,
    }
}

/// The `cellspacing` attribute: a readable number sets the border spacing.
pub open spec fn spec_pres_cellspacing(s: ComputedStyle, attrs: Seq<(String, String)>) -> ComputedStyle {
    match crate::dom::spec_attr(attrs, "cellspacing"@) {
        Some(v) => match spec_plain_attr(v) {
            Some(px) => ComputedStyle { border_spacing: px, ..s },
            None => s,
        },
        None => s,
    }
}

/// The `valign` attribute: a known keyword sets the vertical alignment.
pub open spec fn spec_pres_valign(s: ComputedStyle, attrs: Seq<(String, String)>) -> ComputedStyle {
    match crate::dom::spec_attr(attrs, "valign"@) {
        Some(v) => {
            let lo = spec_lower(v);
            if lo == "top"@ {
                ComputedStyle { vertical_align: VerticalAlign::Top, ..s }
            } else if lo == "middle"@ {
                ComputedStyle { vertical_align: VerticalAlign::Middle, ..s }
            } else if lo == "bottom"@ {
                ComputedStyle { vertical_align: VerticalAlign::Bottom, ..s }
            } else if lo == "baseline"@ {
                ComputedStyle { vertical_align: VerticalAlign::Baseline, ..s }
            } else {
                s
            }
        },
        None => s,
    }
}

/// The `align` attribute: a known keyword sets the text alignment.
pub open spec fn spec_pres_align(s: ComputedStyle, attrs: Seq<(String, String)>) -> ComputedStyle {
    match crate::dom::spec_attr(attrs, "align"@) {
        Some(v) => {
            let lo = spec_lower(v);
            if lo == "left"@ {
                ComputedStyle { text_align: TextAlign::Left, ..s }
            } else if lo == "center"@ {
                ComputedStyle { text_align: TextAlign::Center, ..s }
            } else if lo == "right"@ {
                ComputedStyle { text_align: TextAlign::Right, ..s }
            } else if lo == "justify"@ {
                ComputedStyle { text_align: TextAlign::Justify, ..s }
            } else {
                s
            }
        },
        None => s,
    }
}

/// The `color` attribute: a readable colour becomes the text colour.
pub open spec fn spec_pres_color(s: ComputedStyle, attrs: Seq<(String, String)>) -> ComputedStyle {
    match crate::dom::spec_attr(attrs, "color"@) {
        Some(v) => match spec_attr_color(v) {
            Some(c) => ComputedStyle { color: c, ..s },
            None => s,
        },
        None => s,
    }
}

/// The presentational layer an element's own HTML attributes add, in
/// order: `bgcolor`, `width`, `height`, `border` (which also blackens a
/// fully transparent border colour), `cellpadding`, `cellspacing`,
/// `valign`, `align` and `color`; an absent or unreadable attribute
/// leaves its properties unchanged.
pub open spec fn spec_presentational(s: ComputedStyle, attrs: Seq<(String, String)>) -> ComputedStyle {
    spec_pres_color(
        spec_pres_align(
            spec_pres_valign(
                spec_pres_cellspacing(
                    spec_pres_cellpadding(
                        spec_pres_border(
                            spec_pres_height(
                                spec_pres_width(spec_pres_bgcolor(s, attrs), attrs),
                                attrs,
                            ),
                            attrs,
                        ),
                        attrs,
                    ),
                    attrs,
                ),
                attrs,
            ),
            attrs,
        ),
        attrs,
    )
}

/// Apply the presentational attributes of an element to its style.
pub fn apply_presentational(style: &mut ComputedStyle, element: &crate::dom::ElementData)
    ensures
        *final(style) == spec_presentational(*old(style), element.attributes@),
{
    pres_bgcolor(style, element);
    pres_width(style, element);
    pres_height(style, element);
    pres_border(style, element);
    pres_cellpadding(style, element);
    pres_cellspacing(style, element);
    pres_valign(style, element);
    pres_align(style, element);
    pres_color(style, element);
}

fn pres_bgcolor(style: &mut ComputedStyle, element: &crate::dom::ElementData)
    ensures
        *final(style) == spec_pres_bgcolor(*old(style), element.attributes@),
{
    match element.get_attribute("bgcolor") {
        Some(v) => {
            let vc = chars_of(v.as_str());
            match attr_color(&vc) {
                Some(c) => {
                    style.background_color = c;
                },
                None => {},
            }
        },
        None => {},
    }
}

fn pres_width(style: &mut ComputedStyle, element: &crate::dom::ElementData)
    ensures
        *final(style) == spec_pres_width(*old(style), element.attributes@),
{
    match element.get_attribute("width") {
        Some(v) => {
            let vc = chars_of(v.as_str());
            match dim_attr(&vc) {
                Some(px) => {
                    style.width = Some(px);
                },
                None => {},
            }
        },
        None => {},
    }
}

fn pres_height(style: &mut ComputedStyle, element: &crate::dom::ElementData)
    ensures
        *final(style) == spec_pres_height(*old(style), element.attributes@),
{
    match element.get_attribute("height") {
        Some(v) => {
            let vc = chars_of(v.as_str());
            match dim_attr(&vc) {
                Some(px) => {
                    style.height = Some(px);
                },
                None => {},
            }
        },
        None => {},
    }
}

fn pres_border(style: &mut ComputedStyle, element: &crate::dom::ElementData)
    ensures
        *final(style) == spec_pres_border(*old(style), element.attributes@),
{
    match element.get_attribute("border") {
        Some(v) => {
            let vc = chars_of(v.as_str());
            match plain_attr(&vc) {
                Some(px) => {
                    style.border_top_width = px;
                    style.border_right_width = px;
                    style.border_bottom_width = px;
                    style.border_left_width = px;
                    let c = style.border_color;
                    if c.r == 0 && c.g == 0 && c.b == 0 && c.a == 0 {
                        style.border_color = Color { r: 0, g: 0, b: 0, a: 255 };
                    }
                },
                None => {},
            }
        },
        None => {},
    }
}

fn pres_cellpadding(style: &mut ComputedStyle, element: &crate::dom::ElementData)
    ensures
        *final(style) == spec_pres_cellpadding(*old(style), element.attributes@),
{
    match element.get_attribute("cellpadding") {
        Some(v) => {
            let vc = chars_of(v.as_str());
            match plain_attr(&vc) {
                Some(px) => {
                    style.padding_top = px;
                    style.padding_right = px;
                    style.padding_bottom = px;
                    style.padding_left = px;
                },
                None => {},
            }
        },
        None => {},
    }
}

fn pres_cellspacing(style: &mut ComputedStyle, element: &crate::dom::ElementData)
    ensures
        *final(style) == spec_pres_cellspacing(*old(style), element.attributes@),
{
    match element.get_attribute("cellspacing") {
        Some(v) => {
            let vc = chars_of(v.as_str());
            match plain_attr(&vc) {
                Some(px) => {
                    style.border_spacing = px;
                },
                None => {},
            }
        },
        None => {},
    }
}

fn pres_valign(style: &mut ComputedStyle, element: &crate::dom::ElementData)
    ensures
        *final(style) == spec_pres_valign(*old(style), element.attributes@),
{
    match element.get_attribute("valign") {
        Some(v) => {
            let vc = chars_of(v.as_str());
            let lo = lower_chars(&vc);
            let top_kw = chars_of("top");
            let middle_kw = chars_of("middle");
            let bottom_kw = chars_of("bottom");
            let baseline_kw = chars_of("baseline");
            if chars_eq(&lo, &top_kw) {
                style.vertical_align = VerticalAlign::Top;
            } else if chars_eq(&lo, &middle_kw) {
                style.vertical_align = VerticalAlign::Middle;
            } else if chars_eq(&lo, &bottom_kw) {
                style.vertical_align = VerticalAlign::Bottom;
            } else if chars_eq(&lo, &baseline_kw) {
                style.vertical_align = VerticalAlign::Baseline;
            }
        },
        None => {},
    }
}

fn pres_align(style: &mut ComputedStyle, element: &crate::dom::ElementData)
    ensures
        *final(style) == spec_pres_align(*old(style), element.attributes@),
{
    match element.get_attribute("align") {
        Some(v) => {
            let vc = chars_of(v.as_str());
            let lo = lower_chars(&vc);
            let left_kw = chars_of("left");
            let center_kw = chars_of("center");
            let right_kw = chars_of("right");
            let justify_kw = chars_of("justify");
            if chars_eq(&lo, &left_kw) {
                style.text_align = TextAlign::Left;
            } else if chars_eq(&lo, &center_kw) {
                style.text_align = TextAlign::Center;
            } else if chars_eq(&lo, &right_kw) {
                style.text_align = TextAlign::Right;
            } else if chars_eq(&lo, &justify_kw) {
                style.text_align = TextAlign::Justify;
            }
        },
        None => {},
    }
}

fn pres_color(style: &mut ComputedStyle, element: &crate::dom::ElementData)
    ensures
        *final(style) == spec_pres_color(*old(style), element.attributes@),
{
    match element.get_attribute("color") {
        Some(v) => {
            let vc = chars_of(v.as_str());
            match attr_color(&vc) {
                Some(c) => {
                    style.color = c;
                },
                None => {},
            }
        },
        None => {},
    }
}

} // verus!
