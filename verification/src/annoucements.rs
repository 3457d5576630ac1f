//! Passenger announcements: the announcement player, the parsing of glued
//! announcements and the choice of speakers.
//!
//! A glued announcement is a text such as `"12+3+12+7"`: pairs of a user id
//! and a sub id of sound content, joined by `+`. Each pair names one part
//! of the announcement; pairs that are not two decimal `i32` numbers are
//! skipped, and an unpaired last number is ignored.
use vstd::prelude::*;

verus! {

/// Where an announcement is heard.
#[derive(Debug, Copy, Clone, PartialEq, Eq, Structural)]
pub enum SpeakerTarget {
    /// Interior speakers.
    Int,
    /// Exterior speakers.
    Ext,
    /// Interior and exterior speakers.
    IntExt,
    /// Exterior speakers on the right.
    Extr,
    /// Exterior speakers on the left.
    Extl,
}

/// Splits `s` at every `sep`, keeping empty parts: `n` separators give
/// `n + 1` parts.
pub open spec fn split_on(s: Seq<char>, sep: char) -> Seq<Seq<char>>
    decreases s.len(),
{
    if s.len() == 0 {
        seq![Seq::empty()]
    } else {
        let rest = split_on(s.drop_last(), sep);
        if s.last() == sep {
            rest.push(Seq::empty())
        } else {
            rest.update(rest.len() - 1, rest.last().push(s.last()))
        }
    }
}

/// Whether `c` is an ASCII decimal digit.
pub open spec fn is_digit(c: char) -> bool {
    '0' <= c && c <= '9'
}

/// The value of a string of decimal digits.
pub open spec fn digits_value(d: Seq<char>) -> int
    decreases d.len(),
{
    if d.len() == 0 {
        0
    } else {
        digits_value(d.drop_last()) * 10 + (d.last() as int - 48)
    }
}

/// The digits of a number text: without its sign, where it has one.
pub open spec fn unsigned_part(t: Seq<char>) -> Seq<char> {
    if t.len() > 0 && (t[0] == '-' || t[0] == '+') {
        t.skip(1)
    } else {
        t
    }
}

/// The `i32` that a text denotes, as the standard library parses it: an
/// optional `+` or `-`, then one or more decimal digits, within the range
/// of `i32`. Any other text denotes none.
pub open spec fn parse_i32_spec(t: Seq<char>) -> Option<i32> {
    let body = unsigned_part(t);
    let negative = t.len() > 0 && t[0] == '-';
    if body.len() == 0 || !(forall|i: int| 0 <= i < body.len() ==> is_digit(#[trigger] body[i])) {
        None
    } else {
        let v = if negative { -digits_value(body) } else { digits_value(body) };
        if i32::MIN <= v && v <= i32::MAX {
            Some(v as i32)
        } else {
            None
        }
    }
}

/// The parts of a glued announcement, from its `+`-separated tokens: each
/// pair of tokens that both denote an `i32`, in order; a last unpaired
/// token is ignored.
pub open spec fn glued_pairs(tokens: Seq<Seq<char>>) -> Seq<(i32, i32)>
    decreases tokens.len(),
{
    if tokens.len() < 2 {
        Seq::empty()
    } else {
        let head = match (parse_i32_spec(tokens[0]), parse_i32_spec(tokens[1])) {
            (Some(a), Some(b)) => seq![(a, b)],
            _ => Seq::empty(),
        };
        head + glued_pairs(tokens.skip(2))
    }
}

/// The view of a list of character vectors.
pub open spec fn tokens_view(tokens: Seq<Vec<char>>) -> Seq<Seq<char>> {
    tokens.map_values(|v: Vec<char>| v@)
}

/// Splits `s` at every `+`.
pub fn split_plus(s: &str) -> (res: Vec<Vec<char>>)
    ensures
        tokens_view(res@) == split_on(s@, '+'),
{
    let n = s.unicode_len();
    let mut tokens: Vec<Vec<char>> = Vec::new();
    let mut cur: Vec<char> = Vec::new();
    assert(s@.take(0) =~= Seq::<char>::empty());
    assert(tokens_view(tokens@).push(cur@) =~= split_on(s@.take(0), '+'));
    for i in 0..n
        invariant
            n == s@.len(),
            tokens_view(tokens@).push(cur@) == split_on(s@.take(i as int), '+'),
    {
        let c = s.get_char(i);
        let ghost before = tokens_view(tokens@).push(cur@);
        assert(s@.take(i + 1).drop_last() =~= s@.take(i as int));
        assert(s@.take(i + 1).last() == c);
        if c == '+' {
            let done = cur;
            tokens.push(done);
            cur = Vec::new();
            assert(tokens_view(tokens@).push(cur@) =~= before.push(Seq::empty()));
        } else {
            cur.push(c);
            assert(tokens_view(tokens@).push(cur@) =~= before.update(before.len() - 1, before.last().push(c)));
        }
    }
    assert(s@.take(n as int) =~= s@);
    tokens.push(cur);
    assert(tokens_view(tokens@) =~= split_on(s@, '+'));
    tokens
}

/// Prefixes of a digit string have a value that grows with every digit.
proof fn lemma_digits_value_step(d: Seq<char>, k: int)
    requires
        0 <= k < d.len(),
    ensures
        digits_value(d.take(k + 1)) == digits_value(d.take(k)) * 10 + (d[k] as int - 48),
{
    assert(d.take(k + 1).drop_last() =~= d.take(k));
}

/// Parses a token as an `i32`, as the standard library does.
pub fn parse_i32(t: &Vec<char>) -> (res: Option<i32>)
    ensures
        res == parse_i32_spec(t@),
{
    let n = t.len();
    if n == 0 {
        return None;
    }
    let negative = t[0] == '-';
    let start: usize = if t[0] == '-' || t[0] == '+' { 1 } else { 0 };
    let ghost body = unsigned_part(t@);
    assert(body =~= t@.skip(start as int));
    if start == n {
        return None;
    }
    let mut acc: i64 = 0;
    let mut big = false;
    let mut k = start;
    assert(body.take(0) =~= Seq::<char>::empty());
    while k < n
        invariant
            start <= k <= n,
            n == t@.len(),
            body == t@.skip(start as int),
            body == unsigned_part(t@),
            negative == (t@.len() > 0 && t@[0] == '-'),
            forall|j: int| 0 <= j < k - start ==> is_digit(#[trigger] body[j]),
            !big ==> acc == digits_value(body.take(k - start)) && 0 <= acc <= 2147483648,
            big ==> digits_value(body.take(k - start)) > 2147483648,
        decreases n - k,
    {
        let c = t[k];
        assert(body[k - start] == c);
        if !('0' <= c && c <= '9') {
            assert(!is_digit(body[k - start]));
            assert(body.len() > 0);
            assert(body == unsigned_part(t@));
            assert(!(forall|i: int| 0 <= i < body.len() ==> is_digit(#[trigger] body[i])));
            assert(parse_i32_spec(t@) is None);
            return None;
        }
        proof {
            lemma_digits_value_step(body, k - start);
        }
        let d = (c as u32 - 48) as i64;
        if !big {
            acc = acc * 10 + d;
            if acc > 2147483648 {
                big = true;
            }
        }
        k = k + 1;
    }
    assert(body.take(n - start) =~= body);
    if big {
        return None;
    }
    if negative {
        let v = -acc;
        assert(v >= i32::MIN);
        Some(v as i32)
    } else if acc <= 2147483647 {
        Some(acc as i32)
    } else {
        None
    }
}

/// Pairs the tokens of a glued announcement.
fn pair_tokens(tokens: &Vec<Vec<char>>) -> (res: Vec<(i32, i32)>)
    ensures
        res@ == glued_pairs(tokens_view(tokens@)),
{
    let n = tokens.len();
    let ghost tv = tokens_view(tokens@);
    let mut res: Vec<(i32, i32)> = Vec::new();
    let mut i: usize = 0;
    assert(tv.skip(0) =~= tv);
    while n - i >= 2
        invariant
            n == tokens@.len(),
            tv == tokens_view(tokens@),
            i <= n,
            glued_pairs(tv) == res@ + glued_pairs(tv.skip(i as int)),
        decreases n - i,
    {
        let ghost rest = tv.skip(i as int);
        assert(rest[0] == tokens@[i as int]@);
        assert(rest[1] == tokens@[i + 1]@);
        assert(rest.skip(2) =~= tv.skip(i + 2));
        let a = parse_i32(&tokens[i]);
        let b = parse_i32(&tokens[i + 1]);
        match (a, b) {
            (Some(x), Some(y)) => {
                res.push((x, y));
                assert(glued_pairs(tv) =~= res@ + glued_pairs(tv.skip(i + 2)));
            },
            _ => {
                assert(glued_pairs(tv) =~= res@ + glued_pairs(tv.skip(i + 2)));
            },
        }
        i = i + 2;
    }
    assert(glued_pairs(tv.skip(i as int)) =~= Seq::<(i32, i32)>::empty());
    assert(res@ =~= glued_pairs(tv));
    res
}

/// The parts of a glued announcement text, as (user id, sub id) pairs.
pub fn parse_glued_announcement(s: &str) -> (res: Vec<(i32, i32)>)
    ensures
        res@ == glued_pairs(split_on(s@, '+')),
{
    let tokens = split_plus(s);
    pair_tokens(&tokens)
}

/// Which speaker groups an announcement manager plays on, given where its
/// speakers are switched to and whether an announcement runs: the interior
/// group plays for `Int` and `IntExt`; the exterior group for `Int`,
/// `IntExt`, `Extr` and `Extl` (not for `Ext`).
pub fn speaker_outputs(speaker_target: SpeakerTarget, active: bool) -> (res: (bool, bool))
    ensures
        res.0 == (active && (speaker_target == SpeakerTarget::Int || speaker_target == SpeakerTarget::IntExt)),
        res.1 == (active && (speaker_target == SpeakerTarget::Int || speaker_target == SpeakerTarget::IntExt
            || speaker_target == SpeakerTarget::Extr || speaker_target == SpeakerTarget::Extl)),
{
    let int_speaker = active && match speaker_target {
        SpeakerTarget::Int | SpeakerTarget::IntExt => true,
        _ => false,
    };
    let ext_speaker = active && match speaker_target {
        SpeakerTarget::Int | SpeakerTarget::IntExt | SpeakerTarget::Extr | SpeakerTarget::Extl => true,
        _ => false,
    };
    (int_speaker, ext_speaker)
}

/// Splitting never leaves a separator inside a part, and gives one part
/// more than the text has separators.
pub proof fn lemma_split_parts_have_no_separator(s: Seq<char>, sep: char)
    ensures
        split_on(s, sep).len() >= 1,
        forall|k: int| 0 <= k < split_on(s, sep).len() ==> !(#[trigger] split_on(s, sep)[k]).contains(sep),
        split_on(s, sep).len() == s.filter(|c: char| c == sep).len() + 1,
    decreases s.len(),
{
    if s.len() > 0 {
        let rest = split_on(s.drop_last(), sep);
        lemma_split_parts_have_no_separator(s.drop_last(), sep);
        assert(s =~= s.drop_last().push(s.last()));
        reveal(Seq::filter);
        if s.last() == sep {
            let r = rest.push(Seq::<char>::empty());
            assert forall|k: int| 0 <= k < r.len() implies !(#[trigger] r[k]).contains(sep) by {
                if k < rest.len() {
                    assert(r[k] == rest[k]);
                } else {
                    assert(r[k] =~= Seq::<char>::empty());
                }
            }
        } else {
            let last = rest.last().push(s.last());
            let r = rest.update(rest.len() - 1, last);
            assert(!rest.last().contains(sep));
            assert forall|k: int| 0 <= k < r.len() implies !(#[trigger] r[k]).contains(sep) by {
                if k < rest.len() - 1 {
                    assert(r[k] == rest[k]);
                } else {
                    assert(r[k] == last);
                    if last.contains(sep) {
                        let j = choose|j: int| 0 <= j < last.len() && last[j] == sep;
                        if j < rest.last().len() {
                            assert(rest.last()[j] == sep);
                        }
                    }
                }
            }
        }
    } else {
        reveal(Seq::filter);
        assert(split_on(s, sep)[0] =~= Seq::<char>::empty());
        assert(s.filter(|c: char| c == sep) =~= Seq::<char>::empty());
    }
}

/// A signed number is its unsigned digits with the sign applied: a leading
/// `+` changes nothing and a leading `-` negates, within the range of
/// `i32`; a text that denotes a number ends in a digit.
pub proof fn lemma_sign_applies_to_digits(b: Seq<char>)
    requires
        b.len() > 0,
        forall|i: int| 0 <= i < b.len() ==> is_digit(#[trigger] b[i]),
    ensures
        parse_i32_spec(b) == (if digits_value(b) <= i32::MAX { Some(digits_value(b) as i32) } else { None::<i32> }),
        parse_i32_spec(seq!['+'] + b) == parse_i32_spec(b),
        parse_i32_spec(seq!['-'] + b) == (if -digits_value(b) >= i32::MIN { Some((-digits_value(b)) as i32) } else { None::<i32> }),
{
    lemma_digits_value_nonneg(b);
    assert(unsigned_part(b) =~= b);
    assert(unsigned_part(seq!['+'] + b) =~= b);
    assert(unsigned_part(seq!['-'] + b) =~= b);
}

/// A text that denotes a number ends in a digit.
pub proof fn lemma_number_ends_in_digit(t: Seq<char>)
    ensures
        parse_i32_spec(t) is Some ==> t.len() > 0 && is_digit(t.last()),
{
    if parse_i32_spec(t) is Some {
        let body = unsigned_part(t);
        assert(is_digit(body[body.len() - 1]));
        assert(body[body.len() - 1] == t.last());
    }
}

proof fn lemma_digits_value_nonneg(d: Seq<char>)
    requires
        forall|i: int| 0 <= i < d.len() ==> is_digit(#[trigger] d[i]),
    ensures
        digits_value(d) >= 0,
    decreases d.len(),
{
    if d.len() > 0 {
        assert(is_digit(d[d.len() - 1]));
        lemma_digits_value_nonneg(d.drop_last());
    }
}

} // verus!
