use vstd::prelude::*;
use vstd::string::StringExecFns;

use crate::text::allowed_char;
use crate::text::allowed_text;
use crate::text::balanced;
use crate::text::char_delta;
use crate::text::lemma_allowed_concat;
use crate::text::lemma_delta_concat;
use crate::text::lemma_neutral_text;
use crate::text::lemma_ok_concat;
use crate::text::lemma_ok_mono;
use crate::text::paren_delta;
use crate::text::paren_ok_from;

use crate::node::CONST_DENOM;
use crate::node::NodeKind;
use crate::node::NodeNonTerminal;
use crate::node::NodeTerminal;

verus! {

/// The decimal character for a digit.
pub open spec fn digit_char(d: nat) -> char {
    if d == 0 {
        '0'
    } else if d == 1 {
        '1'
    } else if d == 2 {
        '2'
    } else if d == 3 {
        '3'
    } else if d == 4 {
        '4'
    } else if d == 5 {
        '5'
    } else if d == 6 {
        '6'
    } else if d == 7 {
        '7'
    } else if d == 8 {
        '8'
    } else {
        '9'
    }
}

/// The fractional digits of `f` thousandths, `1 <= f <= 999`, with
/// trailing zeros trimmed as a floating literal prints them.
pub open spec fn frac_digits(f: nat) -> Seq<char> {
    let d1 = digit_char((f / 100) % 10);
    let d2 = digit_char((f / 10) % 10);
    let d3 = digit_char(f % 10);
    if f % 10 != 0 {
        seq![d1, d2, d3]
    } else if (f / 10) % 10 != 0 {
        seq![d1, d2]
    } else {
        seq![d1]
    }
}

/// The floating literal for the constant with grid index `k`: the decimal
/// text of `(k - CONST_DENOM) / CONST_DENOM`, sign first, then the integer
/// part, then the fractional digits when they are not all zero.
pub open spec fn const_text(k: u32) -> Seq<char> {
    let m: int = if k >= CONST_DENOM {
        k - CONST_DENOM
    } else {
        CONST_DENOM - k
    };
    let sign: Seq<char> = if k < CONST_DENOM {
        seq!['-']
    } else {
        Seq::empty()
    };
    let ip: Seq<char> = if m == CONST_DENOM {
        seq!['1']
    } else {
        seq!['0']
    };
    let f: int = m % (CONST_DENOM as int);
    if f == 0 {
        sign + ip
    } else {
        sign + ip + seq!['.'] + frac_digits(f as nat)
    }
}

/// The exact text the emitter produces for a tree, by structural
/// recursion over the node kinds.
pub open spec fn render_spec(n: NodeKind) -> Seq<char>
    decreases n,
{
    match n {
        NodeKind::NodeTerminal(NodeTerminal::X) => "UV.x * 2.0 - 1.0"@,
        NodeKind::NodeTerminal(NodeTerminal::Y) => "UV.y * 2.0 - 1.0"@,
        NodeKind::NodeTerminal(NodeTerminal::Time) => "sin(TIME)"@,
        NodeKind::NodeTerminal(NodeTerminal::Random(k)) => "float("@ + const_text(k) + ")"@,
        NodeKind::NodeNonTerminal(NodeNonTerminal::Add(b)) => "("@ + render_spec(*b.lhs)
            + ") + ("@ + render_spec(*b.rhs) + ")"@,
        NodeKind::NodeNonTerminal(NodeNonTerminal::Mult(b)) => "("@ + render_spec(*b.lhs)
            + ") * ("@ + render_spec(*b.rhs) + ")"@,
        NodeKind::NodeNonTerminal(NodeNonTerminal::Sqrt(u)) => "sqrt(abs("@ + render_spec(*u.value)
            + "))"@,
        NodeKind::NodeNonTerminal(NodeNonTerminal::Abs(u)) => "abs("@ + render_spec(*u.value)
            + ")"@,
        NodeKind::NodeNonTerminal(NodeNonTerminal::Sin(u)) => "sin("@ + render_spec(*u.value)
            + ")"@,
        NodeKind::NodeNonTerminal(NodeNonTerminal::Mod(b)) => "fix_fmod("@ + render_spec(*b.lhs)
            + ", "@ + render_spec(*b.rhs) + ")"@,
        NodeKind::NodeNonTerminal(NodeNonTerminal::Gt(b)) => "float(("@ + render_spec(*b.lhs)
            + ") > ("@ + render_spec(*b.rhs) + "))"@,
    }
}

/// The one-character text for a decimal digit.
fn digit_str(d: u32) -> (s: &'static str)
    requires
        d < 10,
    ensures
        s@ == seq![digit_char(d as nat)],
{
    proof {
        reveal_strlit("0");
        reveal_strlit("1");
        reveal_strlit("2");
        reveal_strlit("3");
        reveal_strlit("4");
        reveal_strlit("5");
        reveal_strlit("6");
        reveal_strlit("7");
        reveal_strlit("8");
        reveal_strlit("9");
    }
    let s: &'static str = match d {
        0 => "0",
        1 => "1",
        2 => "2",
        3 => "3",
        4 => "4",
        5 => "5",
        6 => "6",
        7 => "7",
        8 => "8",
        _ => "9",
    };
    proof {
        assert(s@ =~= seq![digit_char(d as nat)]);
    }
    s
}

/// Renders the constant with grid index `k` as a floating literal.
fn const_render(k: u32) -> (s: String)
    ensures
        s@ == const_text(k),
{
    proof {
        reveal_strlit("-");
        reveal_strlit("1");
        reveal_strlit("0");
        reveal_strlit(".");
    }
    let mut s = String::new();
    let m: u32 = if k >= CONST_DENOM {
        k - CONST_DENOM
    } else {
        CONST_DENOM - k
    };
    if k < CONST_DENOM {
        s.append("-");
    }
    if m == CONST_DENOM {
        s.append("1");
    } else {
        s.append("0");
    }
    let f: u32 = m % CONST_DENOM;
    if f != 0 {
        s.append(".");
        let d1: u32 = (f / 100) % 10;
        let d2: u32 = (f / 10) % 10;
        let d3: u32 = f % 10;
        s.append(digit_str(d1));
        if d3 != 0 {
            s.append(digit_str(d2));
            s.append(digit_str(d3));
        } else if d2 != 0 {
            s.append(digit_str(d2));
        }
    }
    proof {
        assert(s@ =~= const_text(k));
    }
    s
}

/// Lowers a tree to the textual expression `render_spec` describes,
/// one emission rule per node kind.
pub fn generate_shader_code(node: &NodeKind) -> (s: String)
    ensures
        s@ == render_spec(*node),
    decreases *node,
{
    match node {
        NodeKind::NodeTerminal(NodeTerminal::X) => "UV.x * 2.0 - 1.0".to_owned(),
        NodeKind::NodeTerminal(NodeTerminal::Y) => "UV.y * 2.0 - 1.0".to_owned(),
        NodeKind::NodeTerminal(NodeTerminal::Time) => "sin(TIME)".to_owned(),
        NodeKind::NodeTerminal(NodeTerminal::Random(k)) => {
            let mut s = String::from_str("float(");
            let c = const_render(*k);
            s.append(c.as_str());
            s.append(")");
            proof {
                assert(s@ =~= render_spec(*node));
            }
            s
        },
        NodeKind::NodeNonTerminal(NodeNonTerminal::Add(b)) => {
            let mut s = String::from_str("(");
            let l = generate_shader_code(&*b.lhs);
            s.append(l.as_str());
            s.append(") + (");
            let r = generate_shader_code(&*b.rhs);
            s.append(r.as_str());
            s.append(")");
            proof {
                assert(s@ =~= render_spec(*node));
            }
            s
        },
        NodeKind::NodeNonTerminal(NodeNonTerminal::Mult(b)) => {
            let mut s = String::from_str("(");
            let l = generate_shader_code(&*b.lhs);
            s.append(l.as_str());
            s.append(") * (");
            let r = generate_shader_code(&*b.rhs);
            s.append(r.as_str());
            s.append(")");
            proof {
                assert(s@ =~= render_spec(*node));
            }
            s
        },
        NodeKind::NodeNonTerminal(NodeNonTerminal::Sqrt(u)) => {
            let mut s = String::from_str("sqrt(abs(");
            let v = generate_shader_code(&*u.value);
            s.append(v.as_str());
            s.append("))");
            proof {
                assert(s@ =~= render_spec(*node));
            }
            s
        },
        NodeKind::NodeNonTerminal(NodeNonTerminal::Abs(u)) => {
            let mut s = String::from_str("abs(");
            let v = generate_shader_code(&*u.value);
            s.append(v.as_str());
            s.append(")");
            proof {
                assert(s@ =~= render_spec(*node));
            }
            s
        },
        NodeKind::NodeNonTerminal(NodeNonTerminal::Sin(u)) => {
            let mut s = String::from_str("sin(");
            let v = generate_shader_code(&*u.value);
            s.append(v.as_str());
            s.append(")");
            proof {
                assert(s@ =~= render_spec(*node));
            }
            s
        },
        NodeKind::NodeNonTerminal(NodeNonTerminal::Mod(b)) => {
            let mut s = String::from_str("fix_fmod(");
            let l = generate_shader_code(&*b.lhs);
            s.append(l.as_str());
            s.append(", ");
            let r = generate_shader_code(&*b.rhs);
            s.append(r.as_str());
            s.append(")");
            proof {
                assert(s@ =~= render_spec(*node));
            }
            s
        },
        NodeKind::NodeNonTerminal(NodeNonTerminal::Gt(b)) => {
            let mut s = String::from_str("float((");
            let l = generate_shader_code(&*b.lhs);
            s.append(l.as_str());
            s.append(") > (");
            let r = generate_shader_code(&*b.rhs);
            s.append(r.as_str());
            s.append("))");
            proof {
                assert(s@ =~= render_spec(*node));
            }
            s
        },
    }
}

/// A character of a printed constant: a digit, a minus sign or a
/// decimal point.
pub open spec fn numeric_char(c: char) -> bool {
    ('0' <= c && c <= '9') || c == '-' || c == '.'
}

/// Every character of a constant's text is numeric.
proof fn lemma_const_text_numeric(k: u32)
    ensures
        forall|i: int| 0 <= i < const_text(k).len() ==> numeric_char(#[trigger] const_text(k)[i]),
{
    let s = const_text(k);
    let m: int = if k >= CONST_DENOM {
        k - CONST_DENOM
    } else {
        CONST_DENOM - k
    };
    let f: int = m % (CONST_DENOM as int);
    assert forall|i: int| 0 <= i < s.len() implies numeric_char(s[i]) by {
        if f != 0 {
            assert(numeric_char(digit_char(((f as nat) / 100) % 10)));
            assert(numeric_char(digit_char(((f as nat) / 10) % 10)));
            assert(numeric_char(digit_char((f as nat) % 10)));
        }
    }
}

/// A constant's text lies in the grammar's character set and holds no
/// parenthesis.
proof fn lemma_const_text_valid(k: u32)
    ensures
        allowed_text(const_text(k)),
        forall|i: int| 0 <= i < const_text(k).len() ==> char_delta(#[trigger] const_text(k)[i])
            == 0,
{
    lemma_const_text_numeric(k);
    let s = const_text(k);
    assert forall|i: int| 0 <= i < s.len() implies allowed_char(#[trigger] s[i]) && char_delta(
        s[i],
    ) == 0 by {
        assert(numeric_char(s[i]));
    }
}

/// Wrapping one balanced operand: `pre`, then the operand, then `post`,
/// where `post` closes exactly what `pre` opened.
proof fn lemma_wrap_one(pre: Seq<char>, v: Seq<char>, post: Seq<char>)
    requires
        allowed_text(pre),
        allowed_text(v),
        allowed_text(post),
        paren_delta(v) == 0,
        paren_ok_from(v, 0),
        paren_ok_from(pre, 0),
        paren_delta(pre) >= 0,
        paren_delta(pre) + paren_delta(post) == 0,
        paren_ok_from(post, paren_delta(pre)),
    ensures
        balanced(pre + v + post),
        allowed_text(pre + v + post),
{
    lemma_delta_concat(pre, v);
    lemma_delta_concat(pre + v, post);
    lemma_ok_mono(v, 0, paren_delta(pre));
    lemma_ok_concat(pre, v, 0);
    lemma_ok_concat(pre + v, post, 0);
    lemma_allowed_concat(pre, v);
    lemma_allowed_concat(pre + v, post);
}

/// Wrapping two balanced operands: `pre`, the first operand, `mid`, the
/// second operand, then `post`, with the counts closing to zero.
proof fn lemma_wrap_two(pre: Seq<char>, l: Seq<char>, mid: Seq<char>, r: Seq<char>, post: Seq<char>)
    requires
        allowed_text(pre),
        allowed_text(l),
        allowed_text(mid),
        allowed_text(r),
        allowed_text(post),
        paren_delta(l) == 0,
        paren_ok_from(l, 0),
        paren_delta(r) == 0,
        paren_ok_from(r, 0),
        paren_ok_from(pre, 0),
        paren_delta(pre) >= 0,
        paren_ok_from(mid, paren_delta(pre)),
        paren_delta(pre) + paren_delta(mid) >= 0,
        paren_delta(pre) + paren_delta(mid) + paren_delta(post) == 0,
        paren_ok_from(post, paren_delta(pre) + paren_delta(mid)),
    ensures
        balanced(pre + l + mid + r + post),
        allowed_text(pre + l + mid + r + post),
{
    lemma_delta_concat(pre, l);
    lemma_delta_concat(pre + l, mid);
    lemma_delta_concat(pre + l + mid, r);
    lemma_delta_concat(pre + l + mid + r, post);
    lemma_ok_mono(l, 0, paren_delta(pre));
    lemma_ok_mono(r, 0, paren_delta(pre) + paren_delta(mid));
    lemma_ok_concat(pre, l, 0);
    lemma_ok_concat(pre + l, mid, 0);
    lemma_ok_concat(pre + l + mid, r, 0);
    lemma_ok_concat(pre + l + mid + r, post, 0);
    lemma_allowed_concat(pre, l);
    lemma_allowed_concat(pre + l, mid);
    lemma_allowed_concat(pre + l + mid, r);
    lemma_allowed_concat(pre + l + mid + r, post);
}

/// Character facts of the fixed text `"UV.x * 2.0 - 1.0"`.
proof fn lemma_lit_var_x()
    ensures
        allowed_text("UV.x * 2.0 - 1.0"@),
        paren_delta("UV.x * 2.0 - 1.0"@) == 0,
        paren_ok_from("UV.x * 2.0 - 1.0"@, 0),
{
    reveal_strlit("UV.x * 2.0 - 1.0");
    reveal_with_fuel(paren_delta, 18);
    reveal_with_fuel(paren_ok_from, 18);
    assert(allowed_text("UV.x * 2.0 - 1.0"@));
    assert(paren_delta("UV.x * 2.0 - 1.0"@) == 0);
    assert(paren_ok_from("UV.x * 2.0 - 1.0"@, 0));
}

/// Character facts of the fixed text `"UV.y * 2.0 - 1.0"`.
proof fn lemma_lit_var_y()
    ensures
        allowed_text("UV.y * 2.0 - 1.0"@),
        paren_delta("UV.y * 2.0 - 1.0"@) == 0,
        paren_ok_from("UV.y * 2.0 - 1.0"@, 0),
{
    reveal_strlit("UV.y * 2.0 - 1.0");
    reveal_with_fuel(paren_delta, 18);
    reveal_with_fuel(paren_ok_from, 18);
    assert(allowed_text("UV.y * 2.0 - 1.0"@));
    assert(paren_delta("UV.y * 2.0 - 1.0"@) == 0);
    assert(paren_ok_from("UV.y * 2.0 - 1.0"@, 0));
}

/// Character facts of the fixed text `"sin(TIME)"`.
proof fn lemma_lit_time()
    ensures
        allowed_text("sin(TIME)"@),
        paren_delta("sin(TIME)"@) == 0,
        paren_ok_from("sin(TIME)"@, 0),
{
    reveal_strlit("sin(TIME)");
    reveal_with_fuel(paren_delta, 11);
    reveal_with_fuel(paren_ok_from, 11);
    assert(allowed_text("sin(TIME)"@));
    assert(paren_delta("sin(TIME)"@) == 0);
    assert(paren_ok_from("sin(TIME)"@, 0));
}

/// Character facts of the fixed text `"float("`.
proof fn lemma_lit_float_open()
    ensures
        allowed_text("float("@),
        paren_delta("float("@) == 1,
        paren_ok_from("float("@, 0),
{
    reveal_strlit("float(");
    reveal_with_fuel(paren_delta, 8);
    reveal_with_fuel(paren_ok_from, 8);
    assert(allowed_text("float("@));
    assert(paren_delta("float("@) == 1);
    assert(paren_ok_from("float("@, 0));
}

/// Character facts of the fixed text `"("`.
proof fn lemma_lit_open()
    ensures
        allowed_text("("@),
        paren_delta("("@) == 1,
        paren_ok_from("("@, 0),
{
    reveal_strlit("(");
    reveal_with_fuel(paren_delta, 3);
    reveal_with_fuel(paren_ok_from, 3);
    assert(allowed_text("("@));
    assert(paren_delta("("@) == 1);
    assert(paren_ok_from("("@, 0));
}

/// Character facts of the fixed text `")"`.
proof fn lemma_lit_close()
    ensures
        allowed_text(")"@),
        paren_delta(")"@) == -1,
        paren_ok_from(")"@, 1),
{
    reveal_strlit(")");
    reveal_with_fuel(paren_delta, 3);
    reveal_with_fuel(paren_ok_from, 3);
    assert(allowed_text(")"@));
    assert(paren_delta(")"@) == -1);
    assert(paren_ok_from(")"@, 1));
}

/// Character facts of the fixed text `"))"`.
proof fn lemma_lit_close_two()
    ensures
        allowed_text("))"@),
        paren_delta("))"@) == -2,
        paren_ok_from("))"@, 2),
{
    reveal_strlit("))");
    reveal_with_fuel(paren_delta, 4);
    reveal_with_fuel(paren_ok_from, 4);
    assert(allowed_text("))"@));
    assert(paren_delta("))"@) == -2);
    assert(paren_ok_from("))"@, 2));
}

/// Character facts of the fixed text `") + ("`.
proof fn lemma_lit_add_mid()
    ensures
        allowed_text(") + ("@),
        paren_delta(") + ("@) == 0,
        paren_ok_from(") + ("@, 1),
{
    reveal_strlit(") + (");
    reveal_with_fuel(paren_delta, 7);
    reveal_with_fuel(paren_ok_from, 7);
    assert(allowed_text(") + ("@));
    assert(paren_delta(") + ("@) == 0);
    assert(paren_ok_from(") + ("@, 1));
}

/// Character facts of the fixed text `") * ("`.
proof fn lemma_lit_mult_mid()
    ensures
        allowed_text(") * ("@),
        paren_delta(") * ("@) == 0,
        paren_ok_from(") * ("@, 1),
{
    reveal_strlit(") * (");
    reveal_with_fuel(paren_delta, 7);
    reveal_with_fuel(paren_ok_from, 7);
    assert(allowed_text(") * ("@));
    assert(paren_delta(") * ("@) == 0);
    assert(paren_ok_from(") * ("@, 1));
}

/// Character facts of the fixed text `"sqrt(abs("`.
proof fn lemma_lit_sqrt_open()
    ensures
        allowed_text("sqrt(abs("@),
        paren_delta("sqrt(abs("@) == 2,
        paren_ok_from("sqrt(abs("@, 0),
{
    reveal_strlit("sqrt(abs(");
    reveal_with_fuel(paren_delta, 11);
    reveal_with_fuel(paren_ok_from, 11);
    assert(allowed_text("sqrt(abs("@));
    assert(paren_delta("sqrt(abs("@) == 2);
    assert(paren_ok_from("sqrt(abs("@, 0));
}

/// Character facts of the fixed text `"abs("`.
proof fn lemma_lit_abs_open()
    ensures
        allowed_text("abs("@),
        paren_delta("abs("@) == 1,
        paren_ok_from("abs("@, 0),
{
    reveal_strlit("abs(");
    reveal_with_fuel(paren_delta, 6);
    reveal_with_fuel(paren_ok_from, 6);
    assert(allowed_text("abs("@));
    assert(paren_delta("abs("@) == 1);
    assert(paren_ok_from("abs("@, 0));
}

/// Character facts of the fixed text `"sin("`.
proof fn lemma_lit_sin_open()
    ensures
        allowed_text("sin("@),
        paren_delta("sin("@) == 1,
        paren_ok_from("sin("@, 0),
{
    reveal_strlit("sin(");
    reveal_with_fuel(paren_delta, 6);
    reveal_with_fuel(paren_ok_from, 6);
    assert(allowed_text("sin("@));
    assert(paren_delta("sin("@) == 1);
    assert(paren_ok_from("sin("@, 0));
}

/// Character facts of the fixed text `"fix_fmod("`.
proof fn lemma_lit_fmod_open()
    ensures
        allowed_text("fix_fmod("@),
        paren_delta("fix_fmod("@) == 1,
        paren_ok_from("fix_fmod("@, 0),
{
    reveal_strlit("fix_fmod(");
    reveal_with_fuel(paren_delta, 11);
    reveal_with_fuel(paren_ok_from, 11);
    assert(allowed_text("fix_fmod("@));
    assert(paren_delta("fix_fmod("@) == 1);
    assert(paren_ok_from("fix_fmod("@, 0));
}

/// Character facts of the fixed text `", "`.
proof fn lemma_lit_comma()
    ensures
        allowed_text(", "@),
        paren_delta(", "@) == 0,
        paren_ok_from(", "@, 1),
{
    reveal_strlit(", ");
    reveal_with_fuel(paren_delta, 4);
    reveal_with_fuel(paren_ok_from, 4);
    assert(allowed_text(", "@));
    assert(paren_delta(", "@) == 0);
    assert(paren_ok_from(", "@, 1));
}

/// Character facts of the fixed text `"float(("`.
proof fn lemma_lit_gt_open()
    ensures
        allowed_text("float(("@),
        paren_delta("float(("@) == 2,
        paren_ok_from("float(("@, 0),
{
    reveal_strlit("float((");
    reveal_with_fuel(paren_delta, 9);
    reveal_with_fuel(paren_ok_from, 9);
    assert(allowed_text("float(("@));
    assert(paren_delta("float(("@) == 2);
    assert(paren_ok_from("float(("@, 0));
}

/// Character facts of the fixed text `") > ("`.
proof fn lemma_lit_gt_mid()
    ensures
        allowed_text(") > ("@),
        paren_delta(") > ("@) == 0,
        paren_ok_from(") > ("@, 2),
{
    reveal_strlit(") > (");
    reveal_with_fuel(paren_delta, 7);
    reveal_with_fuel(paren_ok_from, 7);
    assert(allowed_text(") > ("@));
    assert(paren_delta(") > ("@) == 0);
    assert(paren_ok_from(") > ("@, 2));
}

/// Emission totality and syntactic validity: the rendering of any tree
/// is nonempty, parenthesis-balanced, and drawn entirely from the
/// emitted grammar's character set.
pub proof fn lemma_render_valid(n: NodeKind)
    ensures
        render_spec(n).len() > 0,
        balanced(render_spec(n)),
        allowed_text(render_spec(n)),
    decreases n,
{
    match n {
        NodeKind::NodeTerminal(NodeTerminal::X) => {
            lemma_lit_var_x();
            reveal_strlit("UV.x * 2.0 - 1.0");
        },
        NodeKind::NodeTerminal(NodeTerminal::Y) => {
            lemma_lit_var_y();
            reveal_strlit("UV.y * 2.0 - 1.0");
        },
        NodeKind::NodeTerminal(NodeTerminal::Time) => {
            lemma_lit_time();
            reveal_strlit("sin(TIME)");
        },
        NodeKind::NodeTerminal(NodeTerminal::Random(k)) => {
            lemma_lit_float_open();
            lemma_lit_close();
            reveal_strlit("float(");
            lemma_const_text_valid(k);
            lemma_neutral_text(const_text(k), 0);
            lemma_wrap_one("float("@, const_text(k), ")"@);
        },
        NodeKind::NodeNonTerminal(NodeNonTerminal::Add(b)) => {
            lemma_render_valid(*b.lhs);
            lemma_render_valid(*b.rhs);
            lemma_lit_open();
            lemma_lit_add_mid();
            lemma_lit_close();
            reveal_strlit("(");
            lemma_wrap_two("("@, render_spec(*b.lhs), ") + ("@, render_spec(*b.rhs), ")"@);
        },
        NodeKind::NodeNonTerminal(NodeNonTerminal::Mult(b)) => {
            lemma_render_valid(*b.lhs);
            lemma_render_valid(*b.rhs);
            lemma_lit_open();
            lemma_lit_mult_mid();
            lemma_lit_close();
            reveal_strlit("(");
            lemma_wrap_two("("@, render_spec(*b.lhs), ") * ("@, render_spec(*b.rhs), ")"@);
        },
        NodeKind::NodeNonTerminal(NodeNonTerminal::Sqrt(u)) => {
            lemma_render_valid(*u.value);
            lemma_lit_sqrt_open();
            lemma_lit_close_two();
            reveal_strlit("sqrt(abs(");
            lemma_wrap_one("sqrt(abs("@, render_spec(*u.value), "))"@);
        },
        NodeKind::NodeNonTerminal(NodeNonTerminal::Abs(u)) => {
            lemma_render_valid(*u.value);
            lemma_lit_abs_open();
            lemma_lit_close();
            reveal_strlit("abs(");
            lemma_wrap_one("abs("@, render_spec(*u.value), ")"@);
        },
        NodeKind::NodeNonTerminal(NodeNonTerminal::Sin(u)) => {
            lemma_render_valid(*u.value);
            lemma_lit_sin_open();
            lemma_lit_close();
            reveal_strlit("sin(");
            lemma_wrap_one("sin("@, render_spec(*u.value), ")"@);
        },
        NodeKind::NodeNonTerminal(NodeNonTerminal::Mod(b)) => {
            lemma_render_valid(*b.lhs);
            lemma_render_valid(*b.rhs);
            lemma_lit_fmod_open();
            lemma_lit_comma();
            lemma_lit_close();
            reveal_strlit("fix_fmod(");
            lemma_wrap_two("fix_fmod("@, render_spec(*b.lhs), ", "@, render_spec(*b.rhs), ")"@);
        },
        NodeKind::NodeNonTerminal(NodeNonTerminal::Gt(b)) => {
            lemma_render_valid(*b.lhs);
            lemma_render_valid(*b.rhs);
            lemma_lit_gt_open();
            lemma_lit_gt_mid();
            lemma_lit_close_two();
            reveal_strlit("float((");
            lemma_wrap_two("float(("@, render_spec(*b.lhs), ") > ("@, render_spec(*b.rhs), "))"@);
        },
    }
}

/// Rendering is a pure function of the tree: any two texts the emitter's
/// contract admits for one and the same tree are byte-identical.
pub proof fn lemma_render_deterministic(n: NodeKind, a: Seq<char>, b: Seq<char>)
    requires
        a == render_spec(n),
        b == render_spec(n),
    ensures
        a == b,
{
}

} // verus!
