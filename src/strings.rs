//! The text rules behind the fixers: dash repair, number suffixes and escaping.

use vstd::prelude::*;

use crate::text::{
    digit, has_prefix, is_digit, is_space, push_char, push_chars, push_sub, space, starts_with,
    to_chars,
};

verus! {

/// The hyphen at the start of `s` stands between two digits; `dp` tells whether the
/// character before `s` is a digit.
pub open spec fn range_hyphen(dp: bool, s: Seq<char>) -> bool {
    dp && s.len() > 1 && s[0] == '-' && digit(s[1])
}

/// `s` with every hyphen between two digits doubled; `dp` tells whether the character
/// before `s` is a digit.
pub open spec fn ranges(dp: bool, s: Seq<char>) -> Seq<char>
    decreases s.len(),
{
    if s.len() == 0 {
        s
    } else {
        (if range_hyphen(dp, s) {
            seq!['-', '-']
        } else {
            seq![s[0]]
        }) + ranges(digit(s[0]), s.skip(1))
    }
}

/// Every hyphen between two digits doubled, as in a page range `1--9`.
pub open spec fn range_fixed(s: Seq<char>) -> Seq<char> {
    ranges(false, s)
}

/// The character before position `i` is a digit.
pub open spec fn digit_before(s: Seq<char>, i: int) -> bool {
    i > 0 && digit(s[i - 1])
}

/// Doubles every hyphen that stands between two digits.
pub fn fix_range(s: &str) -> (r: String)
    ensures
        r@ == range_fixed(s@),
{
    let v = to_chars(s);
    let n = v.len();
    let mut out = String::new();
    let mut i: usize = 0;
    assert(v@.skip(0) =~= v@);
    while i < n
        invariant
            v@ == s@,
            n == v@.len(),
            i <= n,
            out@ + ranges(digit_before(v@, i as int), v@.skip(i as int)) == range_fixed(s@),
        decreases n - i,
    {
        let ghost rest = v@.skip(i as int);
        let ghost before = out@;
        let dp = i > 0 && is_digit(v[i - 1]);
        assert(rest.skip(1) =~= v@.skip(i as int + 1));
        assert(rest[0] == v@[i as int]);
        if i + 1 < n {
            assert(rest[1] == v@[i as int + 1]);
        }
        if v[i] == '-' && dp && i + 1 < n && is_digit(v[i + 1]) {
            push_chars(&mut out, &['-', '-']);
        } else {
            push_char(&mut out, v[i]);
        }
        assert(out@ + ranges(digit_before(v@, i as int + 1), v@.skip(i as int + 1)) =~= before
            + ranges(digit_before(v@, i as int), rest));
        i = i + 1;
    }
    assert(v@.skip(n as int) =~= Seq::<char>::empty());
    assert(out@ =~= out@ + Seq::<char>::empty());
    out
}

/// Whether `s` ends in a space and four digits, the suffix that tells apart people of
/// the same name.
pub open spec fn has_num_suffix(s: Seq<char>) -> bool {
    let n = s.len();
    n >= 5 && s[n - 5] == ' ' && digit(s[n - 4]) && digit(s[n - 3]) && digit(s[n - 2]) && digit(
        s[n - 1],
    )
}

/// The name `s` without its number suffixes, however many there are.
pub open spec fn num_stripped(s: Seq<char>) -> Seq<char>
    decreases s.len(),
{
    if has_num_suffix(s) {
        num_stripped(s.take(s.len() - 5))
    } else {
        s
    }
}

/// Removes every trailing suffix of a space and four digits.
pub fn strip_num(s: &str) -> (r: String)
    ensures
        r@ == num_stripped(s@),
{
    let v = to_chars(s);
    let mut n = v.len();
    assert(v@.take(n as int) =~= v@);
    while n >= 5 && v[n - 5] == ' ' && is_digit(v[n - 4]) && is_digit(v[n - 3]) && is_digit(
        v[n - 2],
    ) && is_digit(v[n - 1])
        invariant
            n <= v@.len(),
            v@ == s@,
            num_stripped(v@.take(n as int)) == num_stripped(s@),
        decreases n,
    {
        assert(v@.take(n as int).take(n - 5) =~= v@.take(n - 5));
        n = n - 5;
    }
    let mut out = String::new();
    push_sub(&mut out, &v, 0, n);
    assert(out@ =~= v@.take(n as int));
    out
}

/// A spaced hyphen ` - ` starts at the beginning of `s`.
pub open spec fn spaced_dash(s: Seq<char>) -> bool {
    s.len() >= 3 && s[0] == ' ' && s[1] == '-' && s[2] == ' '
}

/// Every spaced hyphen ` - ` of `s`, from left to right, replaced by `--`.
pub open spec fn dashed(s: Seq<char>) -> Seq<char>
    decreases s.len(),
{
    if s.len() == 0 {
        s
    } else if spaced_dash(s) {
        seq!['-', '-'] + dashed(s.skip(3))
    } else {
        seq![s[0]] + dashed(s.skip(1))
    }
}

/// Replaces each spaced hyphen by an unspaced dash `--`.
pub fn fix_dashes(s: &str) -> (r: String)
    ensures
        r@ == dashed(s@),
{
    let v = to_chars(s);
    let n = v.len();
    let mut out = String::new();
    let mut i: usize = 0;
    assert(v@.skip(0) =~= v@);
    while i < n
        invariant
            v@ == s@,
            n == v@.len(),
            i <= n,
            out@ + dashed(v@.skip(i as int)) == dashed(s@),
        decreases n - i,
    {
        let ghost rest = v@.skip(i as int);
        if n - i > 2 && v[i] == ' ' && v[i + 1] == '-' && v[i + 2] == ' ' {
            push_chars(&mut out, &['-', '-']);
            assert(rest.skip(3) =~= v@.skip(i as int + 3));
            i = i + 3;
        } else {
            push_char(&mut out, v[i]);
            assert(rest.skip(1) =~= v@.skip(i as int + 1));
            i = i + 1;
        }
    }
    assert(v@.skip(n as int) =~= Seq::<char>::empty());
    assert(out@ =~= out@ + Seq::<char>::empty());
    out
}

/// The escaped form of a character that the output format reserves.
pub open spec fn reserved(c: char) -> Option<Seq<char>> {
    match c {
        '#' => Some(r"\#"@),
        '$' => Some(r"\$"@),
        '%' => Some(r"\%"@),
        '&' => Some(r"\&"@),
        '<' => Some(r"\ensuremath{<}"@),
        '>' => Some(r"\ensuremath{>}"@),
        '\\' => Some(r"\textbackslash{}"@),
        '^' => Some(r"\textasciicircum{}"@),
        '_' => Some(r"\_"@),
        '{' => Some(r"\{"@),
        '}' => Some(r"\}"@),
        '~' => Some(r"\textasciitilde{}"@),
        _ => None,
    }
}

/// The escaped form of `c`, or `None` when `c` stands for itself.
pub fn reserved_escape(c: char) -> (r: Option<&'static str>)
    ensures
        r matches Some(t) ==> reserved(c) == Some(t@),
        r is None ==> reserved(c) is None,
{
    match c {
        '#' => Some(r"\#"),
        '$' => Some(r"\$"),
        '%' => Some(r"\%"),
        '&' => Some(r"\&"),
        '<' => Some(r"\ensuremath{<}"),
        '>' => Some(r"\ensuremath{>}"),
        '\\' => Some(r"\textbackslash{}"),
        '^' => Some(r"\textasciicircum{}"),
        '_' => Some(r"\_"),
        '{' => Some(r"\{"),
        '}' => Some(r"\}"),
        '~' => Some(r"\textasciitilde{}"),
        _ => None,
    }
}

/// The escaped form of one character.
pub open spec fn escape_one(c: char) -> Seq<char> {
    match reserved(c) {
        Some(t) => t,
        None => seq![c],
    }
}

/// `s` with every reserved character replaced by its escaped form.
pub open spec fn escaped(s: Seq<char>) -> Seq<char>
    decreases s.len(),
{
    if s.len() == 0 {
        s
    } else {
        escaped(s.drop_last()) + escape_one(s.last())
    }
}

/// Escapes every character that the output format reserves.
pub fn escape_chars(s: &str) -> (r: String)
    ensures
        r@ == escaped(s@),
{
    let v = to_chars(s);
    let n = v.len();
    let mut out = String::new();
    let mut i: usize = 0;
    while i < n
        invariant
            v@ == s@,
            n == v@.len(),
            i <= n,
            out@ == escaped(v@.take(i as int)),
        decreases n - i,
    {
        assert(v@.take(i as int + 1).drop_last() =~= v@.take(i as int));
        match reserved_escape(v[i]) {
            Some(t) => out.append(t),
            None => push_char(&mut out, v[i]),
        }
        i = i + 1;
    }
    assert(v@.take(n as int) =~= v@);
    out
}

/// `s` begins with the name of a month.
pub open spec fn month_start(s: Seq<char>) -> bool {
    has_prefix(s, "January"@)
    || has_prefix(s, "February"@)
    || has_prefix(s, "March"@)
    || has_prefix(s, "April"@)
    || has_prefix(s, "May"@)
    || has_prefix(s, "June"@)
    || has_prefix(s, "July"@)
    || has_prefix(s, "August"@)
    || has_prefix(s, "September"@)
    || has_prefix(s, "October"@)
    || has_prefix(s, "November"@)
    || has_prefix(s, "December"@)
}

fn is_month_start(s: &Vec<char>) -> (r: bool)
    ensures
        r == month_start(s@),
{
    if starts_with(s, to_chars("January").as_slice()) {
        return true;
    }
    if starts_with(s, to_chars("February").as_slice()) {
        return true;
    }
    if starts_with(s, to_chars("March").as_slice()) {
        return true;
    }
    if starts_with(s, to_chars("April").as_slice()) {
        return true;
    }
    if starts_with(s, to_chars("May").as_slice()) {
        return true;
    }
    if starts_with(s, to_chars("June").as_slice()) {
        return true;
    }
    if starts_with(s, to_chars("July").as_slice()) {
        return true;
    }
    if starts_with(s, to_chars("August").as_slice()) {
        return true;
    }
    if starts_with(s, to_chars("September").as_slice()) {
        return true;
    }
    if starts_with(s, to_chars("October").as_slice()) {
        return true;
    }
    if starts_with(s, to_chars("November").as_slice()) {
        return true;
    }
    if starts_with(s, to_chars("December").as_slice()) {
        return true;
    }
    false
}

/// The hyphen at the start of `s` is to be doubled: it stands between two digits, or it
/// follows a digit and a space and precedes a space and a month name. `d2` and `d1` tell
/// whether the second and the first character before `s` are digits, `sp1` whether the
/// first is whitespace.
pub open spec fn date_hyphen(d2: bool, d1: bool, sp1: bool, s: Seq<char>) -> bool {
    s.len() > 1 && s[0] == '-' && ((d1 && digit(s[1])) || (d2 && sp1 && space(s[1])
        && month_start(s.skip(2))))
}

/// `s` with every such hyphen doubled, given what precedes `s`.
pub open spec fn dates(d2: bool, d1: bool, sp1: bool, s: Seq<char>) -> Seq<char>
    decreases s.len(),
{
    if s.len() == 0 {
        s
    } else {
        (if date_hyphen(d2, d1, sp1, s) {
            seq!['-', '-']
        } else {
            seq![s[0]]
        }) + dates(d1, digit(s[0]), space(s[0]), s.skip(1))
    }
}

/// Every digit range and every date range such as `30 - May` with its hyphen doubled.
pub open spec fn date_fixed(s: Seq<char>) -> Seq<char> {
    dates(false, false, false, s)
}

/// Whitespace stands before position `i`.
pub open spec fn space_before(s: Seq<char>, i: int) -> bool {
    i > 0 && space(s[i - 1])
}

/// Doubles the hyphen of every digit range and date range such as `30 - May`.
pub fn fix_date(s: &str) -> (r: String)
    ensures
        r@ == date_fixed(s@),
{
    let v = to_chars(s);
    let n = v.len();
    let mut out = String::new();
    let mut i: usize = 0;
    assert(v@.skip(0) =~= v@);
    while i < n
        invariant
            v@ == s@,
            n == v@.len(),
            i <= n,
            out@ + dates(
                digit_before(v@, i as int - 1),
                digit_before(v@, i as int),
                space_before(v@, i as int),
                v@.skip(i as int),
            ) == date_fixed(s@),
        decreases n - i,
    {
        let ghost rest = v@.skip(i as int);
        let ghost before = out@;
        let d2 = i > 1 && is_digit(v[i - 2]);
        let d1 = i > 0 && is_digit(v[i - 1]);
        let sp1 = i > 0 && is_space(v[i - 1]);
        assert(rest.skip(1) =~= v@.skip(i as int + 1));
        assert(rest[0] == v@[i as int]);
        let mut double = false;
        if i + 1 < n && v[i] == '-' {
            assert(rest[1] == v@[i as int + 1]);
            if d1 && is_digit(v[i + 1]) {
                double = true;
            } else if d2 && sp1 && is_space(v[i + 1]) {
                let after = crate::aux::tail(&v, i + 2);
                assert(after@ =~= rest.skip(2));
                double = is_month_start(&after);
            }
        }
        assert(double == date_hyphen(
            digit_before(v@, i as int - 1),
            digit_before(v@, i as int),
            space_before(v@, i as int),
            rest,
        ));
        if double {
            push_chars(&mut out, &['-', '-']);
        } else {
            push_char(&mut out, v[i]);
        }
        assert(out@ + dates(
            digit_before(v@, i as int),
            digit_before(v@, i as int + 1),
            space_before(v@, i as int + 1),
            v@.skip(i as int + 1),
        ) =~= before + dates(
            digit_before(v@, i as int - 1),
            digit_before(v@, i as int),
            space_before(v@, i as int),
            rest,
        ));
        i = i + 1;
    }
    assert(v@.skip(n as int) =~= Seq::<char>::empty());
    assert(out@ =~= out@ + Seq::<char>::empty());
    out
}

} // verus!

