//! Reading JSON text: a specification-level parser that defines exactly
//! which texts are accepted and what value each yields, and an executable
//! parser proved to return exactly what the specification says.
use crate::json::{Json, JsonList, JsonMembers, JsonV};
use crate::num::is_digit;
use crate::text::{chars_to_string, str_chars};
use vstd::prelude::*;

verus! {

broadcast use vstd::seq::group_seq_axioms, vstd::std_specs::vec::group_vec_axioms;

/// JSON whitespace.
pub open spec fn is_ws(c: char) -> bool {
    c == ' ' || c == '\t' || c == '\n' || c == '\r'
}

/// The first position at or after `i` that does not hold whitespace.
pub open spec fn skip_ws(s: Seq<char>, i: int) -> int
    decreases s.len() - i,
    when 0 <= i <= s.len()
{
    if i < s.len() && is_ws(s[i]) {
        skip_ws(s, i + 1)
    } else {
        i
    }
}

/// The first position at or after `i` that does not hold a digit.
pub open spec fn scan_digits(s: Seq<char>, i: int) -> int
    decreases s.len() - i,
    when 0 <= i <= s.len()
{
    if i < s.len() && is_digit(s[i]) {
        scan_digits(s, i + 1)
    } else {
        i
    }
}

/// The numeric value of the digit run `s[i..j]`.
pub open spec fn digits_val(s: Seq<char>, i: int, j: int) -> int
    decreases j - i,
    when i <= j
{
    if i >= j {
        0
    } else {
        digits_val(s, i, j - 1) * 10 + ((s[j - 1] as u32) - 48)
    }
}

/// The end of an exponent part standing at `j`, if the text there is
/// well-formed; `j` itself when no exponent follows.
pub open spec fn exp_end(s: Seq<char>, j: int) -> Option<int> {
    if j < s.len() && (s[j] == 'e' || s[j] == 'E') {
        let k = if j + 1 < s.len() && (s[j + 1] == '+' || s[j + 1] == '-') {
            j + 2
        } else {
            j + 1
        };
        if k <= s.len() {
            let ke = scan_digits(s, k);
            if ke == k {
                Option::None
            } else {
                Option::Some(ke)
            }
        } else {
            Option::None
        }
    } else {
        Option::Some(j)
    }
}

/// The end of the number starting at `i`, and whether it is a plain
/// integer (no fraction, no exponent).
pub open spec fn num_end(s: Seq<char>, i: int) -> Option<(int, bool)> {
    let di = if i < s.len() && s[i] == '-' {
        i + 1
    } else {
        i
    };
    if di > s.len() {
        Option::None
    } else {
        let de = scan_digits(s, di);
        if de == di {
            Option::None
        } else if de < s.len() && s[de] == '.' {
            let fe = scan_digits(s, de + 1);
            if fe == de + 1 {
                Option::None
            } else {
                match exp_end(s, fe) {
                    Option::Some(e) => Option::Some((e, false)),
                    Option::None => Option::None,
                }
            }
        } else {
            match exp_end(s, de) {
                Option::Some(e) => Option::Some((e, if e == de {
                    true
                } else {
                    false
                })),
                Option::None => Option::None,
            }
        }
    }
}

/// The value parsed from the number starting at `i`: an integer that fits
/// in 64 bits becomes `Int`, anything else keeps its lexeme as `Num`.
pub open spec fn p_number(s: Seq<char>, i: int) -> Option<(JsonV, int)> {
    match num_end(s, i) {
        Option::None => Option::None,
        Option::Some((e, is_int)) => if is_int {
            let neg = i < s.len() && s[i] == '-';
            let di = if neg {
                i + 1
            } else {
                i
            };
            let m = digits_val(s, di, e);
            if neg {
                if m <= 0x8000_0000_0000_0000 {
                    Option::Some((JsonV::Int(-m), e))
                } else {
                    Option::Some((JsonV::Num(s.subrange(i, e)), e))
                }
            } else {
                if m <= i64::MAX {
                    Option::Some((JsonV::Int(m), e))
                } else {
                    Option::Some((JsonV::Num(s.subrange(i, e)), e))
                }
            }
        } else {
            Option::Some((JsonV::Num(s.subrange(i, e)), e))
        },
    }
}

/// The character that a one-letter escape stands for.
pub open spec fn unesc(e: char) -> Option<char> {
    if e == '"' {
        Option::Some('"')
    } else if e == '\\' {
        Option::Some('\\')
    } else if e == '/' {
        Option::Some('/')
    } else if e == 'n' {
        Option::Some('\n')
    } else if e == 't' {
        Option::Some('\t')
    } else if e == 'r' {
        Option::Some('\r')
    } else if e == 'b' {
        Option::Some('\u{0008}')
    } else if e == 'f' {
        Option::Some('\u{000C}')
    } else {
        Option::None
    }
}

pub open spec fn hex_v(c: char) -> Option<int> {
    if '0' <= c && c <= '9' {
        Option::Some((c as u32) - 48)
    } else if 'a' <= c && c <= 'f' {
        Option::Some((c as u32) - 87)
    } else if 'A' <= c && c <= 'F' {
        Option::Some((c as u32) - 55)
    } else {
        Option::None
    }
}

/// The value of the four hexadecimal digits at `i`.
pub open spec fn hex4(s: Seq<char>, i: int) -> Option<int> {
    if i + 4 <= s.len() {
        match (hex_v(s[i]), hex_v(s[i + 1]), hex_v(s[i + 2]), hex_v(s[i + 3])) {
            (Option::Some(a), Option::Some(b), Option::Some(c), Option::Some(d)) => Option::Some(
                a * 4096 + b * 256 + c * 16 + d,
            ),
            _ => Option::None,
        }
    } else {
        Option::None
    }
}

/// The contents of a string literal from position `i` (just after the
/// opening quote) to its closing quote, unescaped. Surrogate escapes are
/// not accepted.
pub open spec fn p_string(s: Seq<char>, i: int, fuel: nat) -> Option<(Seq<char>, int)>
    decreases fuel,
{
    if fuel == 0 || i < 0 || i >= s.len() {
        Option::None
    } else if s[i] == '"' {
        Option::Some((Seq::empty(), i + 1))
    } else if s[i] == '\\' {
        if i + 1 >= s.len() {
            Option::None
        } else if s[i + 1] == 'u' {
            match hex4(s, i + 2) {
                Option::None => Option::None,
                Option::Some(v) => if 0xD800 <= v < 0xE000 {
                    Option::None
                } else {
                    match p_string(s, i + 6, (fuel - 1) as nat) {
                        Option::Some((rest, j)) => Option::Some(
                            (seq![((v as u32) as char)] + rest, j),
                        ),
                        Option::None => Option::None,
                    }
                },
            }
        } else {
            match unesc(s[i + 1]) {
                Option::None => Option::None,
                Option::Some(c) => match p_string(s, i + 2, (fuel - 1) as nat) {
                    Option::Some((rest, j)) => Option::Some((seq![c] + rest, j)),
                    Option::None => Option::None,
                },
            }
        }
    } else if (s[i] as u32) < 32 {
        Option::None
    } else {
        match p_string(s, i + 1, (fuel - 1) as nat) {
            Option::Some((rest, j)) => Option::Some((seq![s[i]] + rest, j)),
            Option::None => Option::None,
        }
    }
}

/// The value starting at `i`, after optional whitespace.
pub open spec fn p_value(s: Seq<char>, i: int, fuel: nat) -> Option<(JsonV, int)>
    decreases fuel,
{
    if fuel == 0 || i < 0 || i > s.len() {
        Option::None
    } else {
        let w = skip_ws(s, i);
        if w >= s.len() {
            Option::None
        } else {
            let c = s[w];
            if c == 'n' {
                if s.len() - w >= 4 && s[w + 1] == 'u' && s[w + 2] == 'l' && s[w + 3] == 'l' {
                    Option::Some((JsonV::Null, w + 4))
                } else {
                    Option::None
                }
            } else if c == 't' {
                if s.len() - w >= 4 && s[w + 1] == 'r' && s[w + 2] == 'u' && s[w + 3] == 'e' {
                    Option::Some((JsonV::Bool(true), w + 4))
                } else {
                    Option::None
                }
            } else if c == 'f' {
                if w + 5 <= s.len() && s[w + 1] == 'a' && s[w + 2] == 'l' && s[w + 3] == 's' && s[w
                    + 4] == 'e' {
                    Option::Some((JsonV::Bool(false), w + 5))
                } else {
                    Option::None
                }
            } else if c == '"' {
                match p_string(s, w + 1, (fuel - 1) as nat) {
                    Option::Some((cs, j)) => Option::Some((JsonV::Str(cs), j)),
                    Option::None => Option::None,
                }
            } else if c == '[' {
                let a = skip_ws(s, w + 1);
                if a < s.len() && s[a] == ']' {
                    Option::Some((JsonV::Arr(Seq::empty()), a + 1))
                } else {
                    match p_items(s, w + 1, (fuel - 1) as nat) {
                        Option::Some((vs, j)) => Option::Some((JsonV::Arr(vs), j)),
                        Option::None => Option::None,
                    }
                }
            } else if c == '{' {
                let a = skip_ws(s, w + 1);
                if a < s.len() && s[a] == '}' {
                    Option::Some((JsonV::Obj(Seq::empty()), a + 1))
                } else {
                    match p_members(s, w + 1, (fuel - 1) as nat) {
                        Option::Some((ms, j)) => Option::Some((JsonV::Obj(ms), j)),
                        Option::None => Option::None,
                    }
                }
            } else if c == '-' || is_digit(c) {
                p_number(s, w)
            } else {
                Option::None
            }
        }
    }
}

/// The items of an array from position `i` (just after `[` or a comma) up
/// to and including the closing bracket.
pub open spec fn p_items(s: Seq<char>, i: int, fuel: nat) -> Option<(Seq<JsonV>, int)>
    decreases fuel,
{
    if fuel == 0 {
        Option::None
    } else {
        match p_value(s, i, (fuel - 1) as nat) {
            Option::None => Option::None,
            Option::Some((v, j)) => if 0 <= j <= s.len() {
                let k = skip_ws(s, j);
                if k < s.len() && s[k] == ',' {
                    match p_items(s, k + 1, (fuel - 1) as nat) {
                        Option::Some((rest, e)) => Option::Some((seq![v] + rest, e)),
                        Option::None => Option::None,
                    }
                } else if k < s.len() && s[k] == ']' {
                    Option::Some((seq![v], k + 1))
                } else {
                    Option::None
                }
            } else {
                Option::None
            },
        }
    }
}

/// The members of an object from position `i` (just after `{` or a comma)
/// up to and including the closing brace.
pub open spec fn p_members(s: Seq<char>, i: int, fuel: nat) -> Option<
    (Seq<(Seq<char>, JsonV)>, int),
>
    decreases fuel,
{
    if fuel == 0 || i < 0 || i > s.len() {
        Option::None
    } else {
        let w = skip_ws(s, i);
        if w < s.len() && s[w] == '"' {
            match p_string(s, w + 1, (fuel - 1) as nat) {
                Option::None => Option::None,
                Option::Some((key, j)) => if 0 <= j <= s.len() {
                    let c = skip_ws(s, j);
                    if c < s.len() && s[c] == ':' {
                        match p_value(s, c + 1, (fuel - 1) as nat) {
                            Option::None => Option::None,
                            Option::Some((v, j2)) => if 0 <= j2 <= s.len() {
                                let k = skip_ws(s, j2);
                                if k < s.len() && s[k] == ',' {
                                    match p_members(s, k + 1, (fuel - 1) as nat) {
                                        Option::Some((rest, e)) => Option::Some(
                                            (seq![(key, v)] + rest, e),
                                        ),
                                        Option::None => Option::None,
                                    }
                                } else if k < s.len() && s[k] == '}' {
                                    Option::Some((seq![(key, v)], k + 1))
                                } else {
                                    Option::None
                                }
                            } else {
                                Option::None
                            },
                        }
                    } else {
                        Option::None
                    }
                } else {
                    Option::None
                },
            }
        } else {
            Option::None
        }
    }
}

/// What a whole JSON text denotes: one value, with nothing but whitespace
/// around it.
pub open spec fn parse_text(s: Seq<char>) -> Option<JsonV> {
    match p_value(s, 0, text_fuel(s)) {
        Option::Some((v, j)) => if 0 <= j <= s.len() && skip_ws(s, j) == s.len() {
            Option::Some(v)
        } else {
            Option::None
        },
        Option::None => Option::None,
    }
}

/// The fuel that bounds the parser's descent: ample for any text, and
/// saturating at the machine word.
pub open spec fn text_fuel(s: Seq<char>) -> nat {
    if 2 * s.len() + 2 <= usize::MAX {
        (2 * s.len() + 2) as nat
    } else {
        usize::MAX as nat
    }
}

fn skip_ws_x(s: &Vec<char>, i: usize) -> (r: usize)
    requires
        i <= s@.len(),
    ensures
        r as int == skip_ws(s@, i as int),
        i <= r <= s@.len(),
    decreases s@.len() - i,
{
    if i < s.len() {
        let c = s[i];
        if c == ' ' || c == '\t' || c == '\n' || c == '\r' {
            return skip_ws_x(s, i + 1);
        }
    }
    i
}

fn scan_digits_x(s: &Vec<char>, i: usize) -> (r: usize)
    requires
        i <= s@.len(),
    ensures
        r as int == scan_digits(s@, i as int),
        i <= r <= s@.len(),
    decreases s@.len() - i,
{
    if i < s.len() {
        let c = s[i];
        if '0' <= c && c <= '9' {
            return scan_digits_x(s, i + 1);
        }
    }
    i
}

/// The digit run's magnitude clamped: the exact value while it fits, and
/// a witness that it exceeds the 64-bit range when it does not.
fn digits_val_x(s: &Vec<char>, i: usize, j: usize) -> (r: Option<u64>)
    requires
        i <= j <= s@.len(),
        forall|k: int| i <= k < j ==> is_digit(s@[k]),
    ensures
        match r {
            Option::Some(v) => v as int == digits_val(s@, i as int, j as int),
            Option::None => digits_val(s@, i as int, j as int) > 0x8000_0000_0000_0000,
        },
    decreases j - i,
{
    if j == i {
        Option::Some(0)
    } else {
        proof {
            lemma_digit_val_range(s@, i as int, j as int);
        }
        match digits_val_x(s, i, j - 1) {
            Option::None => {
                proof {
                    lemma_digits_val_nonneg(s@, i as int, j as int - 1);
                }
                Option::None
            },
            Option::Some(v) => {
                let c = s[j - 1];
                let d: u64 = (c as u32 as u64) - 48;
                if v > (0x8000_0000_0000_0000u64 - d) / 10 {
                    proof {
                        lemma_digits_val_nonneg(s@, i as int, j as int - 1);
                    }
                    Option::None
                } else {
                    Option::Some(v * 10 + d)
                }
            },
        }
    }
}

/// Every digit run has a non-negative value.
pub proof fn lemma_digits_val_nonneg(s: Seq<char>, i: int, j: int)
    requires
        i <= j,
        forall|k: int| i <= k < j ==> is_digit(s[k]),
    ensures
        digits_val(s, i, j) >= 0,
    decreases j - i,
{
    if i < j {
        lemma_digits_val_nonneg(s, i, j - 1);
        lemma_digit_val_range(s, i, j);
    }
}

proof fn lemma_digit_val_range(s: Seq<char>, i: int, j: int)
    requires
        i < j,
        forall|k: int| i <= k < j ==> is_digit(s[k]),
    ensures
        0 <= (s[j - 1] as u32) - 48 <= 9,
{
    assert(is_digit(s[j - 1]));
}

fn p_number_x(s: &Vec<char>, i: usize) -> (r: Option<(Json, usize)>)
    requires
        i <= s@.len(),
    ensures
        match r {
            Option::Some((v, j)) => p_number(s@, i as int) == Option::Some((v@, j as int)) && i
                <= j <= s@.len(),
            Option::None => p_number(s@, i as int) is None,
        },
{
    let neg = i < s.len() && s[i] == '-';
    let di = if neg {
        i + 1
    } else {
        i
    };
    if di > s.len() {
        return Option::None;
    }
    let de = scan_digits_x(s, di);
    if de == di {
        return Option::None;
    }
    let mut is_int = true;
    let mut e = de;
    if de < s.len() && s[de] == '.' {
        let fe = scan_digits_x(s, de + 1);
        if fe == de + 1 {
            return Option::None;
        }
        is_int = false;
        match exp_end_x(s, fe) {
            Option::Some(v) => {
                e = v;
            },
            Option::None => {
                return Option::None;
            },
        }
    } else {
        match exp_end_x(s, de) {
            Option::Some(v) => {
                e = v;
                if e != de {
                    is_int = false;
                }
            },
            Option::None => {
                return Option::None;
            },
        }
    }
    if is_int {
        proof {
            lemma_scan_digits_all(s@, di as int);
        }
        match digits_val_x(s, di, de) {
            Option::Some(m) => {
                if neg {
                    if m <= 0x8000_0000_0000_0000u64 {
                        let v: i64 = if m == 0x8000_0000_0000_0000u64 {
                            i64::MIN
                        } else {
                            -(m as i64)
                        };
                        return Option::Some((Json::Int(v), e));
                    }
                } else {
                    if m <= i64::MAX as u64 {
                        return Option::Some((Json::Int(m as i64), e));
                    }
                }
                let lex = lexeme(s, i, e);
                proof {
                    lemma_digits_val_nonneg(s@, di as int, de as int);
                }
                Option::Some((Json::Num(lex), e))
            },
            Option::None => {
                let lex = lexeme(s, i, e);
                Option::Some((Json::Num(lex), e))
            },
        }
    } else {
        let lex = lexeme(s, i, e);
        Option::Some((Json::Num(lex), e))
    }
}

/// Every position that a digit scan passed over holds a digit.
proof fn lemma_scan_digits_all(s: Seq<char>, i: int)
    requires
        0 <= i <= s.len(),
    ensures
        forall|k: int| i <= k < scan_digits(s, i) ==> is_digit(s[k]),
        i <= scan_digits(s, i) <= s.len(),
    decreases s.len() - i,
{
    if i < s.len() && is_digit(s[i]) {
        lemma_scan_digits_all(s, i + 1);
    }
}

fn exp_end_x(s: &Vec<char>, j: usize) -> (r: Option<usize>)
    requires
        j <= s@.len(),
    ensures
        match r {
            Option::Some(v) => exp_end(s@, j as int) == Option::Some(v as int) && j <= v
                <= s@.len(),
            Option::None => exp_end(s@, j as int) is None,
        },
{
    if j < s.len() && (s[j] == 'e' || s[j] == 'E') {
        let k = if j + 1 < s.len() && (s[j + 1] == '+' || s[j + 1] == '-') {
            j + 2
        } else {
            j + 1
        };
        if k <= s.len() {
            let ke = scan_digits_x(s, k);
            if ke == k {
                Option::None
            } else {
                Option::Some(ke)
            }
        } else {
            Option::None
        }
    } else {
        Option::Some(j)
    }
}

/// The characters `s[i..e]` as a string.
fn lexeme(s: &Vec<char>, i: usize, e: usize) -> (r: String)
    requires
        i <= e <= s@.len(),
    ensures
        r@ == s@.subrange(i as int, e as int),
{
    let mut out: Vec<char> = Vec::new();
    let mut k = i;
    while k < e
        invariant
            i <= k <= e <= s@.len(),
            out@ =~= s@.subrange(i as int, k as int),
        decreases e - k,
    {
        out.push(s[k]);
        k = k + 1;
    }
    proof {
        assert(out@ =~= s@.subrange(i as int, e as int));
    }
    chars_to_string(out)
}

fn hex_v_x(c: char) -> (r: Option<u32>)
    ensures
        match r {
            Option::Some(v) => hex_v(c) == Option::Some(v as int) && v < 16,
            Option::None => hex_v(c) is None,
        },
{
    if '0' <= c && c <= '9' {
        Option::Some((c as u32) - 48)
    } else if 'a' <= c && c <= 'f' {
        Option::Some((c as u32) - 87)
    } else if 'A' <= c && c <= 'F' {
        Option::Some((c as u32) - 55)
    } else {
        Option::None
    }
}

/// Relies on `char::from_u32`: it returns the character of a valid scalar
/// value and nothing for a surrogate or out-of-range value.
#[verifier::external_body]
fn char_from_u32(v: u32) -> (r: char)
    requires
        v < 0xD800 || (0xE000 <= v && v <= 0x10FFFF),
    ensures
        r == ((v as u32) as char),
{
    char::from_u32(v).unwrap_or(' ')
}

fn p_string_x(s: &Vec<char>, i: usize, fuel: usize) -> (r: Option<(Vec<char>, usize)>)
    requires
        i <= s@.len(),
    ensures
        match r {
            Option::Some((cs, j)) => p_string(s@, i as int, fuel as nat) == Option::Some(
                (cs@, j as int),
            ) && i <= j <= s@.len(),
            Option::None => p_string(s@, i as int, fuel as nat) is None,
        },
    decreases fuel,
{
    if fuel == 0 || i >= s.len() {
        proof {
            if fuel != 0 && i >= s@.len() {
            }
        }
        return Option::None;
    }
    let c = s[i];
    if c == '"' {
        let cs: Vec<char> = Vec::new();
        proof {
            assert(cs@ =~= Seq::<char>::empty());
        }
        Option::Some((cs, i + 1))
    } else if c == '\\' {
        if i + 1 >= s.len() {
            return Option::None;
        }
        let e = s[i + 1];
        if e == 'u' {
            if s.len() - i < 6 {
                proof {
                    assert(hex4(s@, i as int + 2) is None);
                }
                return Option::None;
            }
            let (a, b, cc, d) = (s[i + 2], s[i + 3], s[i + 4], s[i + 5]);
            match (hex_v_x(a), hex_v_x(b), hex_v_x(cc), hex_v_x(d)) {
                (Option::Some(va), Option::Some(vb), Option::Some(vc), Option::Some(vd)) => {
                    let v: u32 = va * 4096 + vb * 256 + vc * 16 + vd;
                    if 0xD800 <= v && v < 0xE000 {
                        Option::None
                    } else {
                        let ch = char_from_u32(v);
                        match p_string_x(s, i + 6, fuel - 1) {
                            Option::Some((rest, j)) => {
                                let ghost rest_v = rest@;
                                let mut out: Vec<char> = Vec::new();
                                out.push(ch);
                                let mut rest = rest;
                                out.append(&mut rest);
                                proof {
                                    assert(out@ =~= seq![((v as u32) as char)] + rest_v);
                                }
                                Option::Some((out, j))
                            },
                            Option::None => Option::None,
                        }
                    }
                },
                _ => Option::None,
            }
        } else {
            let uc: Option<char> = if e == '"' {
                Option::Some('"')
            } else if e == '\\' {
                Option::Some('\\')
            } else if e == '/' {
                Option::Some('/')
            } else if e == 'n' {
                Option::Some('\n')
            } else if e == 't' {
                Option::Some('\t')
            } else if e == 'r' {
                Option::Some('\r')
            } else if e == 'b' {
                Option::Some('\u{0008}')
            } else if e == 'f' {
                Option::Some('\u{000C}')
            } else {
                Option::None
            };
            match uc {
                Option::None => Option::None,
                Option::Some(u) => match p_string_x(s, i + 2, fuel - 1) {
                    Option::Some((rest, j)) => {
                        let ghost rest_v = rest@;
                        let mut out: Vec<char> = Vec::new();
                        out.push(u);
                        let mut rest = rest;
                        out.append(&mut rest);
                        proof {
                            assert(out@ =~= seq![u] + rest_v);
                        }
                        Option::Some((out, j))
                    },
                    Option::None => Option::None,
                },
            }
        }
    } else if (c as u32) < 32 {
        Option::None
    } else {
        match p_string_x(s, i + 1, fuel - 1) {
            Option::Some((rest, j)) => {
                let ghost rest_v = rest@;
                let mut out: Vec<char> = Vec::new();
                out.push(c);
                let mut rest = rest;
                out.append(&mut rest);
                proof {
                    assert(out@ =~= seq![s@[i as int]] + rest_v);
                }
                Option::Some((out, j))
            },
            Option::None => Option::None,
        }
    }
}

fn p_value_x(s: &Vec<char>, i: usize, fuel: usize) -> (r: Option<(Json, usize)>)
    requires
        i <= s@.len(),
    ensures
        match r {
            Option::Some((v, j)) => p_value(s@, i as int, fuel as nat) == Option::Some((v@, j as int))
                && i <= j <= s@.len(),
            Option::None => p_value(s@, i as int, fuel as nat) is None,
        },
    decreases fuel,
{
    if fuel == 0 {
        return Option::None;
    }
    let w = skip_ws_x(s, i);
    if w >= s.len() {
        return Option::None;
    }
    let c = s[w];
    if c == 'n' {
        if s.len() - w >= 4 && s[w + 1] == 'u' && s[w + 2] == 'l' && s[w + 3] == 'l' {
            Option::Some((Json::Null, w + 4))
        } else {
            Option::None
        }
    } else if c == 't' {
        if s.len() - w >= 4 && s[w + 1] == 'r' && s[w + 2] == 'u' && s[w + 3] == 'e' {
            Option::Some((Json::Bool(true), w + 4))
        } else {
            Option::None
        }
    } else if c == 'f' {
        if s.len() - w >= 5 && s[w + 1] == 'a' && s[w + 2] == 'l' && s[w + 3] == 's' && s[w + 4]
            == 'e' {
            Option::Some((Json::Bool(false), w + 5))
        } else {
            Option::None
        }
    } else if c == '"' {
        match p_string_x(s, w + 1, fuel - 1) {
            Option::Some((cs, j)) => Option::Some((Json::Str(chars_to_string(cs)), j)),
            Option::None => Option::None,
        }
    } else if c == '[' {
        let a = skip_ws_x(s, w + 1);
        if a < s.len() && s[a] == ']' {
            let r = Json::Arr(Box::new(JsonList::Nil));
            proof {
                assert(r matches Json::Arr(lb) && crate::json::list_view(*lb)
                    =~= Seq::<JsonV>::empty());
            }
            Option::Some((r, a + 1))
        } else {
            match p_items_x(s, w + 1, fuel - 1) {
                Option::Some((vs, j)) => {
                    let ghost vs_v = vs@;
                    let r = Json::Arr(Box::new(vs));
                    proof {
                        assert(r matches Json::Arr(lb) && crate::json::list_view(*lb) == vs_v);
                    }
                    Option::Some((r, j))
                },
                Option::None => Option::None,
            }
        }
    } else if c == '{' {
        let a = skip_ws_x(s, w + 1);
        if a < s.len() && s[a] == '}' {
            let r = Json::Obj(Box::new(JsonMembers::Nil));
            proof {
                assert(r matches Json::Obj(ob) && crate::json::members_view(*ob) =~= Seq::<
                    (Seq<char>, JsonV),
                >::empty());
            }
            Option::Some((r, a + 1))
        } else {
            match p_members_x(s, w + 1, fuel - 1) {
                Option::Some((ms, j)) => {
                    let ghost ms_v = ms@;
                    let r = Json::Obj(Box::new(ms));
                    proof {
                        assert(r matches Json::Obj(ob) && crate::json::members_view(*ob) == ms_v);
                    }
                    Option::Some((r, j))
                },
                Option::None => Option::None,
            }
        }
    } else if c == '-' || ('0' <= c && c <= '9') {
        p_number_x(s, w)
    } else {
        Option::None
    }
}

fn p_items_x(s: &Vec<char>, i: usize, fuel: usize) -> (r: Option<(JsonList, usize)>)
    requires
        i <= s@.len(),
    ensures
        match r {
            Option::Some((vs, j)) => p_items(s@, i as int, fuel as nat) == Option::Some(
                (vs@, j as int),
            ) && i <= j <= s@.len(),
            Option::None => p_items(s@, i as int, fuel as nat) is None,
        },
    decreases fuel,
{
    if fuel == 0 {
        return Option::None;
    }
    match p_value_x(s, i, fuel - 1) {
        Option::None => Option::None,
        Option::Some((v, j)) => {
            let ghost v_v = v@;
            let k = skip_ws_x(s, j);
            if k < s.len() && s[k] == ',' {
                match p_items_x(s, k + 1, fuel - 1) {
                    Option::Some((rest, e)) => {
                        let ghost rest_v = rest@;
                        let r = JsonList::Cons(v, Box::new(rest));
                        proof {
                            assert(r matches JsonList::Cons(h, t) && crate::json::json_view(h)
                                == v_v && crate::json::list_view(*t) == rest_v);
                            assert(r@ == seq![v_v] + rest_v);
                        }
                        Option::Some((r, e))
                    },
                    Option::None => Option::None,
                }
            } else if k < s.len() && s[k] == ']' {
                let r = JsonList::Cons(v, Box::new(JsonList::Nil));
                proof {
                    assert(r matches JsonList::Cons(h, t) && crate::json::json_view(h) == v_v
                        && crate::json::list_view(*t) =~= Seq::<JsonV>::empty());
                    assert(r@ =~= seq![v_v]);
                }
                Option::Some((r, k + 1))
            } else {
                Option::None
            }
        },
    }
}

fn p_members_x(s: &Vec<char>, i: usize, fuel: usize) -> (r: Option<
    (JsonMembers, usize),
>)
    requires
        i <= s@.len(),
    ensures
        match r {
            Option::Some((ms, j)) => p_members(s@, i as int, fuel as nat) == Option::Some(
                (ms@, j as int),
            ) && i <= j <= s@.len(),
            Option::None => p_members(s@, i as int, fuel as nat) is None,
        },
    decreases fuel,
{
    if fuel == 0 {
        return Option::None;
    }
    let w = skip_ws_x(s, i);
    if w < s.len() && s[w] == '"' {
        match p_string_x(s, w + 1, fuel - 1) {
            Option::None => Option::None,
            Option::Some((key, j)) => {
                let ghost key_v = key@;
                let c = skip_ws_x(s, j);
                if c < s.len() && s[c] == ':' {
                    match p_value_x(s, c + 1, fuel - 1) {
                        Option::None => Option::None,
                        Option::Some((v, j2)) => {
                            let ghost v_v = v@;
                            let k = skip_ws_x(s, j2);
                            let key_s = chars_to_string(key);
                            if k < s.len() && s[k] == ',' {
                                match p_members_x(s, k + 1, fuel - 1) {
                                    Option::Some((rest, e)) => {
                                        let ghost rest_v = rest@;
                                        let r = JsonMembers::Cons(key_s, v, Box::new(rest));
                                        proof {
                                            assert(r matches JsonMembers::Cons(k2, v2, t2) && k2@
                                                == key_v && crate::json::json_view(v2) == v_v
                                                && crate::json::members_view(*t2) == rest_v);
                                            assert(r@ == seq![(key_v, v_v)] + rest_v);
                                        }
                                        Option::Some((r, e))
                                    },
                                    Option::None => Option::None,
                                }
                            } else if k < s.len() && s[k] == '}' {
                                let r = JsonMembers::Cons(key_s, v, Box::new(JsonMembers::Nil));
                                proof {
                                    assert(r matches JsonMembers::Cons(k2, v2, t2) && k2@ == key_v
                                        && crate::json::json_view(v2) == v_v
                                        && crate::json::members_view(*t2) =~= Seq::<
                                        (Seq<char>, JsonV),
                                    >::empty());
                                    assert(r@ =~= seq![(key_v, v_v)]);
                                }
                                Option::Some((r, k + 1))
                            } else {
                                Option::None
                            }
                        },
                    }
                } else {
                    Option::None
                }
            },
        }
    } else {
        Option::None
    }
}

/// Parses a whole JSON text; `None` exactly on the texts that the
/// specification rejects.
pub fn from_text(s: &str) -> (r: Option<Json>)
    ensures
        match r {
            Option::Some(j) => parse_text(s@) == Option::Some(j@),
            Option::None => parse_text(s@) is None,
        },
{
    let cs = str_chars(s);
    let fuel: usize = if cs.len() <= (usize::MAX - 2) / 2 {
        2 * cs.len() + 2
    } else {
        usize::MAX
    };
    proof {
        assert(fuel as nat == text_fuel(s@));
    }
    match p_value_x(&cs, 0, fuel) {
        Option::Some((v, j)) => {
            let e = skip_ws_x(&cs, j);
            if e == cs.len() {
                Option::Some(v)
            } else {
                Option::None
            }
        },
        Option::None => Option::None,
    }
}

} // verus!
