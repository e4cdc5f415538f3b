//! String primitives of std that the library builds its text on.
use vstd::prelude::*;
use vstd::utf8::{decode_utf8, valid_utf8};

verus! {

/// Calls `<str as PartialEq>::eq`: two string slices are equal exactly when
/// they hold the same characters.
#[verifier::external_body]
pub(crate) fn str_eq(a: &str, b: &str) -> (r: bool)
    ensures
        r == (a@ == b@),
{
    a == b
}

/// Calls `String::from_utf8`: it succeeds exactly on valid UTF-8 and then
/// holds the decoded characters.
#[verifier::external_body]
pub(crate) fn utf8_to_string(bytes: Vec<u8>) -> (r: Option<String>)
    ensures
        r is Some <==> valid_utf8(bytes@),
        r matches Some(s) ==> s@ == decode_utf8(bytes@),
{
    String::from_utf8(bytes).ok()
}

/// Calls `String::push`: the character is appended.
#[verifier::external_body]
pub(crate) fn push_char(s: &mut String, c: char)
    ensures
        final(s)@ == old(s)@.push(c),
{
    s.push(c)
}

} // verus!

verus! {

/// The value of a digit character.
pub open spec fn digit_value(c: char) -> int {
    c as int - '0' as int
}

/// Whether a character is an ASCII decimal digit.
pub open spec fn is_digit(c: char) -> bool {
    '0' <= c && c <= '9'
}

/// Whether every character is an ASCII decimal digit.
pub open spec fn all_digits(s: Seq<char>) -> bool {
    forall|i: int| 0 <= i < s.len() ==> is_digit(#[trigger] s[i])
}

/// The value of a sequence of decimal digits, most significant first.
pub open spec fn digits_value(s: Seq<char>) -> int
    decreases s.len(),
{
    if s.len() == 0 {
        0
    } else {
        digits_value(s.drop_last()) * 10 + digit_value(s.last())
    }
}

/// What `str::parse::<i32>` gives: an optional `+` or `-` sign followed by at
/// least one decimal digit, whose value must lie in the range of `i32`.
pub open spec fn spec_parse_i32(s: Seq<char>) -> Option<i32> {
    let neg = s.len() > 0 && s[0] == '-';
    let signed = s.len() > 0 && (s[0] == '-' || s[0] == '+');
    let digits = if signed { s.skip(1) } else { s };
    let v = if neg { -digits_value(digits) } else { digits_value(digits) };
    if digits.len() == 0 || !all_digits(digits) || v < i32::MIN || v > i32::MAX {
        None
    } else {
        Some(v as i32)
    }
}

proof fn lemma_digits_value_nonneg(s: Seq<char>)
    requires
        all_digits(s),
    ensures
        digits_value(s) >= 0,
    decreases s.len(),
{
    if s.len() > 0 {
        assert(is_digit(s[s.len() - 1]));
        lemma_digits_value_nonneg(s.drop_last());
    }
}

proof fn lemma_digits_value_grows(s: Seq<char>, n: int)
    requires
        all_digits(s),
        0 <= n <= s.len(),
    ensures
        digits_value(s.take(n)) <= digits_value(s),
    decreases s.len(),
{
    if n < s.len() {
        assert(is_digit(s[s.len() - 1]));
        lemma_digits_value_grows(s.drop_last(), n);
        assert(s.drop_last().take(n) =~= s.take(n));
        lemma_digits_value_nonneg(s.drop_last());
    } else {
        assert(s.take(n) =~= s);
    }
}

/// Parses a decimal `i32` as `str::parse::<i32>` does.
pub fn parse_i32(s: &str) -> (r: Option<i32>)
    ensures
        r == spec_parse_i32(s@),
{
    let ghost full = s@;
    let mut neg = false;
    let mut signed = false;
    let mut acc: i64 = 0;
    let mut too_big = false;
    let mut bad = false;
    let mut first = true;
    let mut any = false;
    for c in it: s.chars()
        invariant
            full == s@,
            it.seq() == full,
            first == (it.index() == 0),
            any == (it.index() > (if signed { 1int } else { 0int })),
            signed == (full.len() > 0 && (full[0] == '-' || full[0] == '+') && it.index() > 0),
            neg == (full.len() > 0 && full[0] == '-' && it.index() > 0),
            bad == !all_digits(full.subrange(if signed { 1int } else { 0int }, it.index() as int)),
            !bad ==> (too_big <==> digits_value(full.subrange(if signed { 1int } else { 0int }, it.index() as int)) > 2147483648),
            !bad && !too_big ==> acc == digits_value(full.subrange(if signed { 1int } else { 0int }, it.index() as int)),
            0 <= acc <= 2147483648,
    {
        let ghost start: int = if signed { 1int } else { 0int };
        let ghost before = full.subrange(start, it.index() as int);
        if first && (c == '-' || c == '+') {
            neg = c == '-';
            signed = true;
            assert(full.subrange(1, 1) =~= Seq::<char>::empty());
        } else {
            let ghost after = full.subrange(start, it.index() + 1);
            assert(after.drop_last() =~= before);
            assert(after.last() == c);
            any = true;
            if c < '0' || c > '9' {
                bad = true;
                assert(!is_digit(after[after.len() - 1]));
            } else {
                if bad {
                    assert(!all_digits(after)) by {
                        let k = choose|k: int| 0 <= k < before.len() && !is_digit(#[trigger] before[k]);
                        assert(after[k] == before[k]);
                    }
                } else {
                    assert(all_digits(after)) by {
                        assert forall|k: int| 0 <= k < after.len() implies is_digit(#[trigger] after[k]) by {
                            if k < before.len() {
                                assert(after[k] == before[k]);
                            }
                        }
                    }
                    proof {
                        lemma_digits_value_nonneg(before);
                    }
                    if !too_big {
                        let d = (c as u32 - '0' as u32) as i64;
                        if acc * 10 + d > 2147483648 {
                            too_big = true;
                        } else {
                            acc = acc * 10 + d;
                        }
                    }
                }
            }
        }
        first = false;
    }
    let ghost start: int = if signed { 1int } else { 0int };
    let ghost digits = full.subrange(start, full.len() as int);
    assert(signed ==> digits =~= full.skip(1));
    assert(!signed ==> digits =~= full);
    if !any || bad || too_big {
        None
    } else if neg {
        Some((0 - acc) as i32)
    } else if acc > 2147483647 {
        None
    } else {
        Some(acc as i32)
    }
}

} // verus!

verus! {

// ---------------------------------------------------------------------------
// Characters and texts

/// The characters of a string slice, in order.
pub fn to_chars(s: &str) -> (r: Vec<char>)
    ensures
        r@ == s@,
{
    let mut out: Vec<char> = Vec::new();
    for c in it: s.chars()
        invariant
            it.seq() == s@,
            out@ == it.seq().take(it.index() as int),
    {
        out.push(c);
        assert(out@ =~= it.seq().take(it.index() + 1));
    }
    assert(out@ =~= s@);
    out
}

/// The string of the characters `v[from..to]`.
pub fn from_chars(v: &Vec<char>, from: usize, to: usize) -> (r: String)
    requires
        from <= to <= v.len(),
    ensures
        r@ == v@.subrange(from as int, to as int),
{
    let mut out = String::new();
    let mut i = from;
    while i < to
        invariant
            from <= i <= to <= v.len(),
            out@ == v@.subrange(from as int, i as int),
        decreases to - i,
    {
        push_char(&mut out, v[i]);
        assert(out@ =~= v@.subrange(from as int, i + 1));
        i = i + 1;
    }
    out
}

/// Whether `pat` occurs in `s` at position `i`.
pub open spec fn occurs_at(s: Seq<char>, pat: Seq<char>, i: int) -> bool {
    0 <= i && i + pat.len() <= s.len() && s.subrange(i, i + pat.len()) == pat
}

proof fn lemma_replace_empty_starts(s: Seq<char>, rep: Seq<char>)
    ensures
        replace_empty(s, rep).len() >= rep.len(),
        replace_empty(s, rep).take(rep.len() as int) == rep,
    decreases s.len(),
{
    if s.len() > 0 {
        lemma_replace_empty_starts(s.skip(1), rep);
        assert((rep + seq![s[0]] + replace_empty(s.skip(1), rep)).take(rep.len() as int) =~= rep);
    } else {
        assert(rep.take(rep.len() as int) =~= rep);
    }
}

/// `s` with `rep` before each character and after the last, which is what
/// `str::replace` makes of an empty pattern.
pub open spec fn replace_empty(s: Seq<char>, rep: Seq<char>) -> Seq<char>
    decreases s.len(),
{
    if s.len() == 0 {
        rep
    } else {
        rep + seq![s[0]] + replace_empty(s.skip(1), rep)
    }
}

/// `s` with every occurrence of `pat` replaced by `rep`, the occurrences
/// taken from left to right without overlap, as `str::replace` does; an empty
/// pattern occurs before each character and at the end.
pub open spec fn replace_all(s: Seq<char>, pat: Seq<char>, rep: Seq<char>) -> Seq<char>
    decreases s.len(),
{
    if pat.len() == 0 {
        replace_empty(s, rep)
    } else if s.len() < pat.len() {
        s
    } else if occurs_at(s, pat, 0) {
        rep + replace_all(s.skip(pat.len() as int), pat, rep)
    } else {
        seq![s[0]] + replace_all(s.skip(1), pat, rep)
    }
}

fn occurs_at_exec(s: &Vec<char>, pat: &Vec<char>, i: usize) -> (r: bool)
    requires
        i <= s.len(),
    ensures
        r == occurs_at(s@, pat@, i as int),
{
    if s.len() - i < pat.len() {
        return false;
    }
    let mut k: usize = 0;
    while k < pat.len()
        invariant
            i + pat.len() <= s.len(),
            k <= pat.len(),
            forall|j: int| 0 <= j < k ==> s@[i + j] == pat@[j],
        decreases pat.len() - k,
    {
        if s[i + k] != pat[k] {
            assert(s@.subrange(i as int, i + pat.len())[k as int] != pat@[k as int]);
            return false;
        }
        k = k + 1;
    }
    assert(s@.subrange(i as int, i + pat.len()) =~= pat@);
    true
}

/// `str::replace` for a non-empty pattern: every occurrence of `pat`, from
/// left to right and without overlap, is replaced by `rep`.
pub fn replace_str(s: &str, pat: &str, rep: &str) -> (r: String)
    ensures
        r@ == replace_all(s@, pat@, rep@),
{
    let cs = to_chars(s);
    let ps = to_chars(pat);
    let n = cs.len();
    if ps.len() == 0 {
        let mut out = String::new();
        out.append(rep);
        let mut i: usize = 0;
        assert(cs@.skip(0) =~= s@);
        while i < n
            invariant
                n == cs.len(),
                cs@ == s@,
                i <= n,
                out@ + replace_empty(cs@.skip(i as int), rep@).skip(rep@.len() as int) == replace_empty(s@, rep@),
                replace_empty(cs@.skip(i as int), rep@).take(rep@.len() as int) == rep@,
            decreases n - i,
        {
            let ghost rest = cs@.skip(i as int);
            let ghost before = out@;
            assert(rest.skip(1) =~= cs@.skip(i + 1));
            assert(rest[0] == cs@[i as int]);
            push_char(&mut out, cs[i]);
            out.append(rep);
            proof {
                let tail = replace_empty(rest.skip(1), rep@);
                lemma_replace_empty_starts(rest.skip(1), rep@);
                assert(replace_empty(rest, rep@) == rep@ + seq![rest[0]] + tail);
                assert(replace_empty(rest, rep@).skip(rep@.len() as int) =~= seq![rest[0]] + tail);
                assert(tail =~= rep@ + tail.skip(rep@.len() as int));
                assert(out@ + tail.skip(rep@.len() as int) =~= before + (seq![rest[0]] + tail));
            }
            i = i + 1;
        }
        proof {
            assert(cs@.skip(n as int) =~= Seq::<char>::empty());
            assert(replace_empty(Seq::<char>::empty(), rep@).skip(rep@.len() as int) =~= Seq::<char>::empty());
            assert(out@ + Seq::<char>::empty() =~= out@);
        }
        return out;
    }
    let mut out = String::new();
    let mut i: usize = 0;
    assert(cs@.skip(0) =~= s@);
    assert(out@ + replace_all(s@, pat@, rep@) =~= replace_all(s@, pat@, rep@));
    while i < n
        invariant
            n == cs.len(),
            cs@ == s@,
            ps@ == pat@,
            ps@.len() > 0,
            i <= n,
            out@ + replace_all(cs@.skip(i as int), pat@, rep@) == replace_all(s@, pat@, rep@),
        decreases n - i,
    {
        let ghost rest = cs@.skip(i as int);
        if occurs_at_exec(&cs, &ps, i) {
            assert(rest.subrange(0, ps@.len() as int) =~= cs@.subrange(i as int, i + ps@.len()));
            assert(rest.skip(ps@.len() as int) =~= cs@.skip(i + ps@.len()));
            let ghost before = out@;
            out.append(rep);
            assert(out@ + replace_all(cs@.skip(i + ps@.len()), pat@, rep@) =~= before + replace_all(rest, pat@, rep@));
            i = i + ps.len();
        } else {
            proof {
                if rest.len() >= ps@.len() {
                    assert(rest.subrange(0, ps@.len() as int) =~= cs@.subrange(i as int, i + ps@.len()));
                }
            }
            assert(rest.skip(1) =~= cs@.skip(i + 1));
            let ghost before = out@;
            push_char(&mut out, cs[i]);
            proof {
                if rest.len() < ps@.len() {
                    assert(replace_all(rest, pat@, rep@) == rest);
                    assert(replace_all(rest.skip(1), pat@, rep@) == rest.skip(1));
                }
            }
            assert(out@ + replace_all(cs@.skip(i + 1), pat@, rep@) =~= before + replace_all(rest, pat@, rep@));
            i = i + 1;
        }
    }
    assert(cs@.skip(n as int) =~= Seq::<char>::empty());
    assert(out@ + Seq::<char>::empty() =~= out@);
    out
}

/// `s` with every character `from` replaced by `to`.
pub open spec fn replace_char(s: Seq<char>, from: char, to: char) -> Seq<char> {
    s.map_values(|c: char| if c == from { to } else { c })
}

/// `str::replace` for a one-character pattern and replacement.
pub fn replace_char_str(s: &str, from: char, to: char) -> (r: String)
    ensures
        r@ == replace_char(s@, from, to),
{
    let cs = to_chars(s);
    let mut out = String::new();
    let n = cs.len();
    for i in 0..n
        invariant
            n == cs.len(),
            cs@ == s@,
            out@ =~= replace_char(cs@.take(i as int), from, to),
    {
        let c = cs[i];
        if c == from {
            push_char(&mut out, to);
        } else {
            push_char(&mut out, c);
        }
        assert(cs@.take(i + 1) =~= cs@.take(i as int).push(c));
    }
    assert(cs@.take(n as int) =~= cs@);
    out
}

/// The strings of `parts` joined with `sep` between each two, as
/// `[String]::join` does.
pub open spec fn join(parts: Seq<Seq<char>>, sep: Seq<char>) -> Seq<char>
    decreases parts.len(),
{
    if parts.len() == 0 {
        Seq::empty()
    } else if parts.len() == 1 {
        parts[0]
    } else {
        join(parts.drop_last(), sep) + sep + parts.last()
    }
}

/// The views of a list of strings.
pub open spec fn string_views(s: Seq<String>) -> Seq<Seq<char>> {
    s.map_values(|t: String| t@)
}

/// `[String]::join`: the parts with `sep` between each two.
pub fn join_strings(parts: &Vec<String>, sep: &str) -> (r: String)
    ensures
        r@ == join(string_views(parts@), sep@),
{
    let mut out = String::new();
    let n = parts.len();
    for i in 0..n
        invariant
            n == parts.len(),
            out@ == join(string_views(parts@.take(i as int)), sep@),
    {
        let ghost prev = string_views(parts@.take(i as int));
        if i > 0 {
            out.append(sep);
        }
        out.append(parts[i].as_str());
        assert(string_views(parts@.take(i + 1)).drop_last() =~= prev);
        assert(string_views(parts@.take(i + 1)).last() == parts@[i as int]@);
        if i == 0 {
            assert(prev =~= Seq::<Seq<char>>::empty());
            assert(string_views(parts@.take(1)) =~= seq![parts@[0]@]);
        }
    }
    assert(parts@.take(n as int) =~= parts@);
    out
}

/// The concatenation of the strings of a list.
pub open spec fn concat_all(parts: Seq<Seq<char>>) -> Seq<char>
    decreases parts.len(),
{
    if parts.len() == 0 {
        Seq::empty()
    } else {
        concat_all(parts.drop_last()) + parts.last()
    }
}

/// The strings that are present, in order.
pub open spec fn present(parts: Seq<Option<Seq<char>>>) -> Seq<Seq<char>>
    decreases parts.len(),
{
    if parts.len() == 0 {
        Seq::empty()
    } else {
        match parts.last() {
            Some(s) => present(parts.drop_last()).push(s),
            None => present(parts.drop_last()),
        }
    }
}

/// The view of an optional string.
pub open spec fn opt_view(o: Option<String>) -> Option<Seq<char>> {
    match o {
        Some(t) => Some(t@),
        None => None,
    }
}

/// The views of a list of optional strings.
pub open spec fn option_views(s: Seq<Option<String>>) -> Seq<Option<Seq<char>>> {
    s.map_values(|t: Option<String>| opt_view(t))
}

/// The strings of `parts` that are present, in order.
pub fn flatten(parts: Vec<Option<String>>) -> (r: Vec<String>)
    ensures
        string_views(r@) == present(option_views(parts@)),
{
    let ghost orig = parts@;
    let n = parts.len();
    let mut rest = parts;
    let mut out: Vec<String> = Vec::new();
    let mut k: usize = 0;
    assert(string_views(out@) =~= present(option_views(orig.take(0))));
    while k < n
        invariant
            n == orig.len(),
            k <= n,
            rest@ =~= orig.subrange(k as int, n as int),
            string_views(out@) == present(option_views(orig.take(k as int))),
        decreases n - k,
    {
        let x = rest.remove(0);
        assert(x == orig[k as int]);
        assert(option_views(orig.take(k + 1)).drop_last() =~= option_views(orig.take(k as int)));
        let ghost before = out@;
        match x {
            Some(s) => {
                out.push(s);
                assert(string_views(out@) =~= string_views(before).push(out@.last()@));
            },
            None => {},
        }
        k = k + 1;
        assert(rest@ =~= orig.subrange(k as int, n as int));
    }
    assert(orig.take(n as int) =~= orig);
    out
}

/// The concatenation of the strings of a list.
pub fn concat_strings(parts: &Vec<String>) -> (r: String)
    ensures
        r@ == concat_all(string_views(parts@)),
{
    let mut out = String::new();
    let n = parts.len();
    for i in 0..n
        invariant
            n == parts.len(),
            out@ == concat_all(string_views(parts@.take(i as int))),
    {
        out.append(parts[i].as_str());
        assert(string_views(parts@.take(i + 1)).drop_last() =~= string_views(parts@.take(i as int)));
    }
    assert(parts@.take(n as int) =~= parts@);
    out
}

} // verus!

verus! {

// ---------------------------------------------------------------------------
// Lines, prefixes and first occurrences

/// Whether a character is white space as `char::is_whitespace` defines it:
/// the characters of Unicode's `White_Space` property.
pub open spec fn is_whitespace(c: char) -> bool {
    ('\u{9}' <= c && c <= '\u{d}') || c == ' ' || c == '\u{85}' || c == '\u{a0}' || c == '\u{1680}' || (
    '\u{2000}' <= c && c <= '\u{200a}') || c == '\u{2028}' || c == '\u{2029}' || c == '\u{202f}' || c
        == '\u{205f}' || c == '\u{3000}'
}

/// The number of white space characters at the start of a text.
pub open spec fn leading_whitespace(s: Seq<char>) -> int
    decreases s.len(),
{
    if s.len() > 0 && is_whitespace(s[0]) {
        1 + leading_whitespace(s.skip(1))
    } else {
        0
    }
}

/// The text without its leading white space, as `str::trim_start` gives it.
pub open spec fn trim_start(s: Seq<char>) -> Seq<char> {
    s.skip(leading_whitespace(s))
}

/// Whether `s` starts with `p`.
pub open spec fn starts_with(s: Seq<char>, p: Seq<char>) -> bool {
    p.len() <= s.len() && s.take(p.len() as int) == p
}

/// The index of the first occurrence of `pat` in `s` at or after `from`.
pub open spec fn find_from(s: Seq<char>, pat: Seq<char>, from: int) -> Option<int>
    decreases s.len() + 1 - from,
{
    if from < 0 || from + pat.len() > s.len() {
        None
    } else if occurs_at(s, pat, from) {
        Some(from)
    } else {
        find_from(s, pat, from + 1)
    }
}

/// `s` with its first occurrence of `pat` replaced by `rep`, as
/// `str::replacen(pat, rep, 1)` gives it.
pub open spec fn replace_first(s: Seq<char>, pat: Seq<char>, rep: Seq<char>) -> Seq<char> {
    match find_from(s, pat, 0) {
        Some(i) => s.take(i) + rep + s.skip(i + pat.len()),
        None => s,
    }
}

/// A line without the carriage return that ends it, if it has one.
pub open spec fn strip_cr(l: Seq<char>) -> Seq<char> {
    if l.len() > 0 && l.last() == '\r' {
        l.drop_last()
    } else {
        l
    }
}

/// The lines of a text, as `str::lines` gives them: split at each `\n`, a
/// `\r` before it dropped, no line after a final `\n`.
pub open spec fn lines(s: Seq<char>) -> Seq<Seq<char>>
    decreases s.len(),
{
    if s.len() == 0 {
        Seq::empty()
    } else {
        match find_from(s, seq!['\n'], 0) {
            Some(k) => {
                proof {
                    lemma_find_from_bounds(s, seq!['\n'], 0);
                }
                seq![strip_cr(s.take(k))] + lines(s.skip(k + 1))
            },
            None => seq![s],
        }
    }
}

/// Each line with its first occurrence of `pat` replaced by `rep`.
pub open spec fn replace_first_each(ls: Seq<Seq<char>>, pat: Seq<char>, rep: Seq<char>) -> Seq<Seq<char>>
    decreases ls.len(),
{
    if ls.len() == 0 {
        Seq::empty()
    } else {
        replace_first_each(ls.drop_last(), pat, rep).push(replace_first(ls.last(), pat, rep))
    }
}

/// `s` without its `c` characters.
pub open spec fn remove_char(s: Seq<char>, c: char) -> Seq<char>
    decreases s.len(),
{
    if s.len() == 0 {
        Seq::empty()
    } else if s.last() == c {
        remove_char(s.drop_last(), c)
    } else {
        remove_char(s.drop_last(), c).push(s.last())
    }
}

pub proof fn lemma_find_from_bounds(s: Seq<char>, pat: Seq<char>, from: int)
    ensures
        find_from(s, pat, from) matches Some(i) ==> from <= i && i + pat.len() <= s.len() && occurs_at(s, pat, i),
        find_from(s, pat, from) matches Some(i) ==> forall|j: int| from <= j < i ==> !occurs_at(s, pat, j),
    decreases s.len() + 1 - from,
{
    if !(from < 0 || from + pat.len() > s.len()) && !occurs_at(s, pat, from) {
        lemma_find_from_bounds(s, pat, from + 1);
    }
}

/// The index of the first occurrence of `pat` in `s` at or after `from`.
pub fn find_from_exec(s: &Vec<char>, pat: &Vec<char>, from: usize) -> (r: Option<usize>)
    requires
        from <= s.len(),
    ensures
        match r {
            Some(i) => find_from(s@, pat@, from as int) == Some(i as int),
            None => find_from(s@, pat@, from as int) is None,
        },
{
    let mut i = from;
    while i < s.len()
        invariant
            from <= i <= s.len(),
            find_from(s@, pat@, from as int) == find_from(s@, pat@, i as int),
        decreases s.len() - i,
    {
        if occurs_at_exec(s, pat, i) {
            return Some(i);
        }
        i = i + 1;
    }
    if occurs_at_exec(s, pat, i) {
        return Some(i);
    }
    assert(find_from(s@, pat@, i + 1) is None);
    None
}

/// Whether `s` starts with `p`.
pub fn starts_with_exec(s: &Vec<char>, p: &str) -> (r: bool)
    ensures
        r == starts_with(s@, p@),
{
    let pc = to_chars(p);
    let r = occurs_at_exec(s, &pc, 0);
    proof {
        if pc@.len() <= s@.len() {
            assert(s@.subrange(0, pc@.len() as int) =~= s@.take(pc@.len() as int));
        }
    }
    r
}

/// The number of white space characters at the start of `s[from..]`.
fn leading_whitespace_exec(s: &Vec<char>) -> (r: usize)
    ensures
        r as int == leading_whitespace(s@),
        r <= s.len(),
{
    let mut i: usize = 0;
    assert(s@.skip(0) =~= s@);
    while i < s.len()
        invariant
            i <= s.len(),
            leading_whitespace(s@) == i + leading_whitespace(s@.skip(i as int)),
        decreases s.len() - i,
    {
        let c = s[i];
        let ws = ('\u{9}' <= c && c <= '\u{d}') || c == ' ' || c == '\u{85}' || c == '\u{a0}' || c == '\u{1680}'
            || ('\u{2000}' <= c && c <= '\u{200a}') || c == '\u{2028}' || c == '\u{2029}' || c == '\u{202f}'
            || c == '\u{205f}' || c == '\u{3000}';
        assert(s@.skip(i as int)[0] == c);
        if !ws {
            return i;
        }
        assert(s@.skip(i as int).skip(1) =~= s@.skip(i + 1));
        i = i + 1;
    }
    assert(s@.skip(i as int).len() == 0);
    i
}

/// `s` without its leading white space.
pub fn trim_start_exec(s: &Vec<char>) -> (r: Vec<char>)
    ensures
        r@ == trim_start(s@),
{
    let k = leading_whitespace_exec(s);
    let mut out: Vec<char> = Vec::new();
    let mut i = k;
    while i < s.len()
        invariant
            k <= i <= s.len(),
            out@ == s@.subrange(k as int, i as int),
        decreases s.len() - i,
    {
        out.push(s[i]);
        assert(out@ =~= s@.subrange(k as int, i + 1));
        i = i + 1;
    }
    assert(out@ =~= s@.skip(k as int));
    out
}

/// `s` with its first occurrence of the non-empty `pat` replaced by `rep`.
pub fn replace_first_exec(s: &Vec<char>, pat: &str, rep: &str) -> (r: String)
    ensures
        r@ == replace_first(s@, pat@, rep@),
{
    let pc = to_chars(pat);
    match find_from_exec(s, &pc, 0) {
        Some(i) => {
            proof {
                lemma_find_from_bounds(s@, pat@, 0);
            }
            let mut out = from_chars(s, 0, i);
            out.append(rep);
            let tail = from_chars(s, i + pc.len(), s.len());
            out.append(tail.as_str());
            assert(s@.subrange(0, i as int) =~= s@.take(i as int));
            assert(s@.subrange(i + pc@.len(), s@.len() as int) =~= s@.skip(i + pat@.len()));
            out
        },
        None => from_chars(s, 0, s.len()),
    }
}

/// The views of a list of character vectors.
pub open spec fn char_vec_views(s: Seq<Vec<char>>) -> Seq<Seq<char>> {
    s.map_values(|v: Vec<char>| v@)
}

/// The lines of `s`, as `str::lines` gives them.
pub fn lines_exec(s: &Vec<char>) -> (r: Vec<Vec<char>>)
    ensures
        char_vec_views(r@) == lines(s@),
{
    let nl: Vec<char> = vec!['\n'];
    let mut out: Vec<Vec<char>> = Vec::new();
    let mut start: usize = 0;
    let ghost full = s@;
    assert(full.skip(0) =~= full);
    assert(char_vec_views(out@) + lines(full) =~= lines(full));
    while start < s.len()
        invariant
            full == s@,
            nl@ == seq!['\n'],
            start <= s.len(),
            char_vec_views(out@) + lines(full.skip(start as int)) == lines(full),
        decreases s.len() - start,
    {
        let ghost rest = full.skip(start as int);
        let ghost before = out@;
        let found = find_from_exec(s, &nl, start);
        proof {
            lemma_find_from_bounds(full, seq!['\n'], start as int);
            lemma_find_shift(full, seq!['\n'], start as int);
        }
        match found {
            Some(k) => {
                let mut line: Vec<char> = Vec::new();
                let mut j = start;
                while j < k
                    invariant
                        start <= j <= k < s.len(),
                        line@ == s@.subrange(start as int, j as int),
                    decreases k - j,
                {
                    line.push(s[j]);
                    assert(line@ =~= s@.subrange(start as int, j + 1));
                    j = j + 1;
                }
                assert(rest.take(k - start) =~= s@.subrange(start as int, k as int));
                if line.len() > 0 && line[line.len() - 1] == '\r' {
                    line.pop();
                    assert(line@ =~= strip_cr(rest.take(k - start)));
                }
                assert(rest.skip(k - start + 1) =~= full.skip(k + 1));
                assert(lines(rest) == seq![strip_cr(rest.take(k - start))] + lines(rest.skip(k - start + 1)));
                out.push(line);
                assert(char_vec_views(out@) =~= char_vec_views(before).push(out@.last()@));
                start = k + 1;
                assert(char_vec_views(out@) + lines(full.skip(start as int)) =~= char_vec_views(before) + lines(rest));
            },
            None => {
                let mut line: Vec<char> = Vec::new();
                let mut j = start;
                while j < s.len()
                    invariant
                        start <= j <= s.len(),
                        line@ == s@.subrange(start as int, j as int),
                    decreases s.len() - j,
                {
                    line.push(s[j]);
                    assert(line@ =~= s@.subrange(start as int, j + 1));
                    j = j + 1;
                }
                assert(line@ =~= rest);
                assert(lines(rest) == seq![rest]);
                out.push(line);
                assert(char_vec_views(out@) =~= char_vec_views(before).push(out@.last()@));
                start = s.len();
                assert(full.skip(start as int) =~= Seq::<char>::empty());
                assert(lines(full.skip(start as int)) =~= Seq::<Seq<char>>::empty());
                assert(char_vec_views(out@) + lines(full.skip(start as int)) =~= char_vec_views(before) + lines(rest));
            },
        }
    }
    assert(full.skip(start as int) =~= Seq::<char>::empty());
    assert(lines(full.skip(start as int)) =~= Seq::<Seq<char>>::empty());
    assert(char_vec_views(out@) + Seq::<Seq<char>>::empty() =~= char_vec_views(out@));
    out
}

/// Finding from `from` in `s` is finding from the start in `s[from..]`,
/// shifted.
proof fn lemma_find_shift(s: Seq<char>, pat: Seq<char>, from: int)
    requires
        0 <= from <= s.len(),
    ensures
        match find_from(s.skip(from), pat, 0) {
            Some(i) => find_from(s, pat, from) == Some(i + from),
            None => find_from(s, pat, from) is None,
        },
{
    lemma_find_shift_from(s, pat, from, 0);
}

proof fn lemma_find_shift_from(s: Seq<char>, pat: Seq<char>, from: int, k: int)
    requires
        0 <= from <= s.len(),
        0 <= k,
    ensures
        match find_from(s.skip(from), pat, k) {
            Some(i) => find_from(s, pat, from + k) == Some(i + from),
            None => find_from(s, pat, from + k) is None,
        },
    decreases s.len() + 1 - from - k,
{
    let t = s.skip(from);
    if k + pat.len() <= t.len() {
        assert(t.subrange(k, k + pat.len()) =~= s.subrange(from + k, from + k + pat.len()));
        if !occurs_at(t, pat, k) {
            lemma_find_shift_from(s, pat, from, k + 1);
        }
    }
}

/// `s` without its `c` characters.
pub fn remove_char_exec(s: &Vec<char>, c: char) -> (r: String)
    ensures
        r@ == remove_char(s@, c),
{
    let mut out = String::new();
    let n = s.len();
    for i in 0..n
        invariant
            n == s.len(),
            out@ == remove_char(s@.take(i as int), c),
    {
        assert(s@.take(i + 1).drop_last() =~= s@.take(i as int));
        if s[i] != c {
            push_char(&mut out, s[i]);
        }
    }
    assert(s@.take(n as int) =~= s@);
    out
}

} // verus!
