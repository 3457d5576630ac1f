//! Names and values of the simulator's script variables.
//!
//! A component never writes a variable itself: it returns [`VarWrite`]
//! values, which the host performs in order.
use vstd::prelude::*;

verus! {

/// The value a script variable is set to.
#[derive(Debug, Clone, Copy, PartialEq, Eq)]
pub enum VarValue {
    Bool(bool),
    Int(i64),
}

/// One write to a named script variable.
#[derive(Debug, Clone, PartialEq, Eq)]
pub struct VarWrite {
    pub name: String,
    pub value: VarValue,
}

/// The character of a decimal digit.
pub open spec fn digit_char(d: nat) -> char
    recommends
        d < 10,
{
    (d + 48) as char
}

/// The decimal representation of `n`, without leading zeros.
pub open spec fn dec_seq(n: nat) -> Seq<char>
    decreases n,
{
    if n < 10 {
        seq![digit_char(n)]
    } else {
        dec_seq(n / 10).push(digit_char(n % 10))
    }
}

/// The name `prefix` followed by the decimal index, as used for indexed
/// script variables such as `DoorOpen_3`.
pub open spec fn indexed_name_spec(prefix: Seq<char>, index: nat) -> Seq<char> {
    prefix + dec_seq(index)
}

fn digit_str(d: usize) -> (s: &'static str)
    requires
        d < 10,
    ensures
        s@ == seq![digit_char(d as nat)],
{
    proof {
        reveal_strlit("0");
        reveal_strlit("1");
        reveal_strlit("2");
        reveal_strlit("3");
        reveal_strlit("4");
        reveal_strlit("5");
        reveal_strlit("6");
        reveal_strlit("7");
        reveal_strlit("8");
        reveal_strlit("9");
    }
    let s = match d {
        0 => "0",
        1 => "1",
        2 => "2",
        3 => "3",
        4 => "4",
        5 => "5",
        6 => "6",
        7 => "7",
        8 => "8",
        _ => "9",
    };
    assert(s@ =~= seq![digit_char(d as nat)]);
    s
}

/// Writes `n` in decimal.
pub fn decimal_string(n: usize) -> (s: String)
    ensures
        s@ == dec_seq(n as nat),
    decreases n,
{
    if n < 10 {
        String::from_str(digit_str(n))
    } else {
        let mut s = decimal_string(n / 10);
        s.append(digit_str(n % 10));
        s
    }
}

/// Builds the name of an indexed script variable: `prefix` followed by the
/// decimal `index`.
pub fn indexed_name(prefix: &str, index: usize) -> (s: String)
    ensures
        s@ == indexed_name_spec(prefix@, index as nat),
{
    let digits = decimal_string(index);
    let s = String::from_str(prefix);
    s.concat(digits.as_str())
}

/// Builds the name of an indexed script variable with a suffix: `prefix`,
/// the decimal `index`, then `suffix`.
pub fn framed_name(prefix: &str, index: usize, suffix: &str) -> (s: String)
    ensures
        s@ == indexed_name_spec(prefix@, index as nat) + suffix@,
{
    let s = indexed_name(prefix, index);
    s.concat(suffix)
}

/// A write of a boolean to the variable `name`.
pub fn bool_write(name: String, value: bool) -> (w: VarWrite)
    ensures
        w.name == name,
        w.value == VarValue::Bool(value),
{
    VarWrite { name, value: VarValue::Bool(value) }
}

/// The abstract view of a write: the variable's name and the value.
pub open spec fn write_view(w: VarWrite) -> (Seq<char>, VarValue) {
    (w.name@, w.value)
}

/// The abstract view of a list of writes, in order.
pub open spec fn writes_view(ws: Seq<VarWrite>) -> Seq<(Seq<char>, VarValue)> {
    ws.map_values(|w: VarWrite| write_view(w))
}

/// The view of an optional write: nothing, or the one write.
pub open spec fn opt_write_view(w: Option<VarWrite>) -> Seq<(Seq<char>, VarValue)> {
    match w {
        Some(x) => seq![write_view(x)],
        None => Seq::empty(),
    }
}

/// The write of `value` to an optional variable: nothing where there is no
/// variable.
pub open spec fn opt_bool_write(name: Option<Seq<char>>, value: bool) -> Seq<(Seq<char>, VarValue)> {
    match name {
        Some(n) => seq![(n, VarValue::Bool(value))],
        None => Seq::empty(),
    }
}

/// Appends an optional write to a list of writes.
pub fn push_write(out: &mut Vec<VarWrite>, w: Option<VarWrite>)
    ensures
        writes_view(final(out)@) == writes_view(old(out)@) + opt_write_view(w),
{
    let ghost before = out@;
    match w {
        Some(x) => {
            out.push(x);
            assert(writes_view(out@) =~= writes_view(before) + opt_write_view(w));
        },
        None => {
            assert(writes_view(out@) =~= writes_view(before) + opt_write_view(w));
        },
    }
}

} // verus!
