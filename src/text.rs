//! Character-level pieces of the wire format: JSON string escaping, decimal
//! numbers, and the scanners that read them back.
use vstd::prelude::*;

verus! {

// ---------------------------------------------------------------------------
// Trusted access to std's string and char iteration
// ---------------------------------------------------------------------------

/// Relies on `String::push`: appends one character to the string.
#[verifier::external_body]
pub(crate) fn push_char(s: &mut String, c: char)
    ensures
        final(s)@ == old(s)@.push(c),
{
    s.push(c);
}

/// Relies on `str::chars` collected into a `Vec`: the characters of `s`, in order.
#[verifier::external_body]
pub(crate) fn chars_of(s: &str) -> (r: Vec<char>)
    ensures
        r@ == s@,
{
    s.chars().collect()
}

// ---------------------------------------------------------------------------
// Specification of the text forms
// ---------------------------------------------------------------------------

/// `l` occurs in `t` starting at index `i`.
pub open spec fn lit_at(t: Seq<char>, i: int, l: Seq<char>) -> bool {
    0 <= i && i + l.len() <= t.len() && t.subrange(i, i + l.len()) == l
}

pub open spec fn is_digit(c: char) -> bool {
    48 <= (c as u32) && (c as u32) <= 57
}

pub open spec fn digit_value(c: char) -> nat {
    if is_digit(c) {
        ((c as u32) - 48) as nat
    } else {
        0
    }
}

pub open spec fn digit_char(d: nat) -> char {
    ((d + 48) as u8) as char
}

/// Decimal notation of `n`, without sign or leading zeros.
pub open spec fn decimal(n: nat) -> Seq<char>
    decreases n,
{
    if n < 10 {
        seq![digit_char(n)]
    } else {
        decimal(n / 10).push(digit_char(n % 10))
    }
}

/// The number that a run of decimal digits denotes.
pub open spec fn digits_value(s: Seq<char>) -> nat
    decreases s.len(),
{
    if s.len() == 0 {
        0
    } else {
        digits_value(s.drop_last()) * 10 + digit_value(s.last())
    }
}

/// Lower-case hexadecimal digit of `v` (`v < 16`).
pub open spec fn hex_char(v: u32) -> char {
    if v < 10 {
        ((v + 48) as u8) as char
    } else {
        ((v + 87) as u8) as char
    }
}

pub open spec fn is_hex(c: char) -> bool {
    is_digit(c) || (97 <= (c as u32) && (c as u32) <= 102) || (65 <= (c as u32) && (c as u32)
        <= 70)
}

pub open spec fn hex_value(c: char) -> u32 {
    if is_digit(c) {
        ((c as u32) - 48) as u32
    } else if 97 <= (c as u32) && (c as u32) <= 102 {
        ((c as u32) - 87) as u32
    } else if 65 <= (c as u32) && (c as u32) <= 70 {
        ((c as u32) - 55) as u32
    } else {
        0
    }
}

/// How one character is written inside a JSON string: quote, backslash and
/// control characters are escaped, everything else stands for itself.
pub open spec fn escape_char(c: char) -> Seq<char> {
    if c == '"' {
        seq!['\\', '"']
    } else if c == '\\' {
        seq!['\\', '\\']
    } else if c == '\n' {
        seq!['\\', 'n']
    } else if c == '\r' {
        seq!['\\', 'r']
    } else if c == '\t' {
        seq!['\\', 't']
    } else if c == '\x08' {
        seq!['\\', 'b']
    } else if c == '\x0c' {
        seq!['\\', 'f']
    } else if (c as u32) < 32 {
        seq!['\\', 'u', '0', '0', hex_char((c as u32) / 16), hex_char((c as u32) % 16)]
    } else {
        seq![c]
    }
}

/// The escaped body of a JSON string holding `s`.
pub open spec fn escape(s: Seq<char>) -> Seq<char>
    decreases s.len(),
{
    if s.len() == 0 {
        Seq::empty()
    } else {
        escape(s.drop_last()) + escape_char(s.last())
    }
}

/// `s` as a JSON string literal.
pub open spec fn quoted(s: Seq<char>) -> Seq<char> {
    seq!['"'] + escape(s) + seq!['"']
}

// ---------------------------------------------------------------------------
// Specification of the scanners
// ---------------------------------------------------------------------------

/// Reads one (possibly escaped) character of a string body at `i`: the
/// character and the number of text characters it took.
pub open spec fn unit_at(t: Seq<char>, i: int) -> Option<(char, int)> {
    if !(0 <= i < t.len()) {
        None
    } else if t[i] == '\\' {
        if i + 1 >= t.len() {
            None
        } else {
            let e = t[i + 1];
            if e == '"' {
                Some(('"', 2))
            } else if e == '\\' {
                Some(('\\', 2))
            } else if e == '/' {
                Some(('/', 2))
            } else if e == 'n' {
                Some(('\n', 2))
            } else if e == 'r' {
                Some(('\r', 2))
            } else if e == 't' {
                Some(('\t', 2))
            } else if e == 'b' {
                Some(('\x08', 2))
            } else if e == 'f' {
                Some(('\x0c', 2))
            } else if e == 'u' && t.len() - i > 5 && t[i + 2] == '0' && t[i + 3] == '0' && is_hex(
                t[i + 4],
            ) && is_hex(t[i + 5]) {
                Some(((((hex_value(t[i + 4]) * 16 + hex_value(t[i + 5])) as u8) as char), 6))
            } else {
                None
            }
        }
    } else if (t[i] as u32) < 32 {
        None
    } else {
        Some((t[i], 1))
    }
}

/// Reads a string body starting at `i` up to its closing quote: the decoded
/// characters and the index just past the quote.
pub open spec fn body_at(t: Seq<char>, i: int) -> Option<(Seq<char>, int)>
    decreases t.len() - i,
{
    if !(0 <= i < t.len()) {
        None
    } else if t[i] == '"' {
        Some((Seq::empty(), i + 1))
    } else {
        match unit_at(t, i) {
            Some((c, n)) => match body_at(t, i + n) {
                Some((s, e)) => Some((seq![c] + s, e)),
                None => None,
            },
            None => None,
        }
    }
}

/// Reads a JSON string literal starting at `i`.
pub open spec fn string_at(t: Seq<char>, i: int) -> Option<(Seq<char>, int)> {
    if 0 <= i < t.len() && t[i] == '"' {
        body_at(t, i + 1)
    } else {
        None
    }
}

/// End of the run of digits that starts at `i`.
pub open spec fn run_end(t: Seq<char>, i: int) -> int
    decreases t.len() - i,
{
    if 0 <= i < t.len() && is_digit(t[i]) {
        run_end(t, i + 1)
    } else {
        i
    }
}

/// Reads a non-empty run of decimal digits starting at `i`.
pub open spec fn number_at(t: Seq<char>, i: int) -> Option<(nat, int)> {
    let e = run_end(t, i);
    if 0 <= i < e {
        Some((digits_value(t.subrange(i, e)), e))
    } else {
        None
    }
}

pub open spec fn prepend(o: Seq<char>, r: Option<(Seq<char>, int)>) -> Option<(Seq<char>, int)> {
    match r {
        Some((s, e)) => Some((o + s, e)),
        None => None,
    }
}

// ---------------------------------------------------------------------------
// Lemmas
// ---------------------------------------------------------------------------

pub proof fn lemma_lit_cat(t: Seq<char>, i: int, a: Seq<char>, b: Seq<char>)
    requires
        lit_at(t, i, a + b),
    ensures
        lit_at(t, i, a),
        lit_at(t, i + a.len(), b),
{
    let ab = a + b;
    let w = t.subrange(i, i + ab.len());
    assert forall|k: int| 0 <= k < a.len() implies t.subrange(i, i + a.len())[k] == a[k] by {
        assert(w[k] == ab[k]);
    }
    assert(t.subrange(i, i + a.len()) =~= a);
    assert forall|k: int| 0 <= k < b.len() implies t.subrange(
        i + a.len(),
        i + a.len() + b.len(),
    )[k] == b[k] by {
        assert(w[a.len() + k] == ab[a.len() + k]);
    }
    assert(t.subrange(i + a.len(), i + a.len() + b.len()) =~= b);
}

pub proof fn lemma_escape_cat(a: Seq<char>, b: Seq<char>)
    ensures
        escape(a + b) == escape(a) + escape(b),
    decreases b.len(),
{
    if b.len() == 0 {
        assert(a + b =~= a);
        assert(escape(a) + escape(b) =~= escape(a));
    } else {
        lemma_escape_cat(a, b.drop_last());
        assert((a + b).drop_last() =~= a + b.drop_last());
        assert((a + b).last() == b.last());
        assert(escape(a + b) =~= escape(a) + escape(b));
    }
}

pub proof fn lemma_unit_escape(t: Seq<char>, i: int, c: char)
    requires
        lit_at(t, i, escape_char(c)),
    ensures
        unit_at(t, i) == Some((c, escape_char(c).len() as int)),
        t[i] != '"',
{
    let l = escape_char(c);
    assert forall|k: int| 0 <= k < l.len() implies t[i + k] == l[k] by {
        assert(t.subrange(i, i + l.len())[k] == t[i + k]);
    }
    assert(t[i] == l[0]);
    if l.len() >= 2 {
        assert(t[i + 1] == l[1]);
    }
    if c == '"' || c == '\\' || c == '\n' || c == '\r' || c == '\t' || c == '\x08' || c == '\x0c' {
    } else if (c as u32) < 32 {
        let v = c as u32;
        assert(t[i + 2] == l[2]);
        assert(t[i + 3] == l[3]);
        assert(t[i + 4] == l[4]);
        assert(t[i + 5] == l[5]);
        assert(t[i + 4] == hex_char(v / 16));
        assert(t[i + 5] == hex_char(v % 16));
        assert(hex_value(hex_char(v / 16)) == v / 16);
        assert(hex_value(hex_char(v % 16)) == v % 16);
        assert(((((v / 16) * 16 + v % 16) as u8) as char) == c);
    }
}

pub proof fn lemma_body_escape(t: Seq<char>, i: int, s: Seq<char>)
    requires
        lit_at(t, i, escape(s) + seq!['"']),
    ensures
        body_at(t, i) == Some((s, i + escape(s).len() + 1)),
    decreases s.len(),
{
    if s.len() == 0 {
        assert(escape(s) =~= Seq::<char>::empty());
        assert(t[i] == (escape(s) + seq!['"'])[0]) by {
            assert(t.subrange(i, i + 1)[0] == t[i]);
        }
    } else {
        let c = s[0];
        let rest = s.subrange(1, s.len() as int);
        assert(s =~= seq![c] + rest);
        lemma_escape_cat(seq![c], rest);
        assert(seq![c].drop_last() =~= Seq::<char>::empty());
        assert(seq![c].last() == c);
        assert(escape(Seq::<char>::empty()) =~= Seq::<char>::empty());
        assert(escape(seq![c]) =~= escape_char(c));
        let l = escape_char(c);
        assert(escape(s) + seq!['"'] =~= l + (escape(rest) + seq!['"']));
        lemma_lit_cat(t, i, l, escape(rest) + seq!['"']);
        lemma_unit_escape(t, i, c);
        lemma_body_escape(t, i + l.len(), rest);
        assert(seq![c] + rest =~= s);
    }
}

pub proof fn lemma_string_quoted(t: Seq<char>, i: int, s: Seq<char>)
    requires
        lit_at(t, i, quoted(s)),
    ensures
        string_at(t, i) == Some((s, i + quoted(s).len())),
{
    assert(quoted(s) =~= seq!['"'] + (escape(s) + seq!['"']));
    lemma_lit_cat(t, i, seq!['"'], escape(s) + seq!['"']);
    assert(t.subrange(i, i + 1)[0] == t[i]);
    lemma_body_escape(t, i + 1, s);
}

pub proof fn lemma_digit_char(d: nat)
    requires
        d < 10,
    ensures
        is_digit(digit_char(d)),
        digit_value(digit_char(d)) == d,
{
}

pub proof fn lemma_decimal(n: nat)
    ensures
        digits_value(decimal(n)) == n,
        decimal(n).len() >= 1,
        forall|k: int| 0 <= k < decimal(n).len() ==> is_digit(#[trigger] decimal(n)[k]),
    decreases n,
{
    lemma_digit_char(n % 10);
    if n < 10 {
        assert(decimal(n).drop_last() =~= Seq::<char>::empty());
        assert(digits_value(Seq::<char>::empty()) == 0);
    } else {
        lemma_decimal(n / 10);
        assert(decimal(n).drop_last() =~= decimal(n / 10));
        assert forall|k: int| 0 <= k < decimal(n).len() implies is_digit(#[trigger] decimal(n)[k]) by {
            if k < decimal(n).len() - 1 {
                assert(decimal(n)[k] == decimal(n / 10)[k]);
            }
        }
    }
}

pub proof fn lemma_run_end(t: Seq<char>, p: int, e: int)
    requires
        0 <= p <= e <= t.len(),
        forall|k: int| p <= k < e ==> is_digit(#[trigger] t[k]),
        e == t.len() || !is_digit(t[e]),
    ensures
        run_end(t, p) == e,
    decreases e - p,
{
    if p < e {
        lemma_run_end(t, p + 1, e);
    }
}

pub proof fn lemma_number_decimal(t: Seq<char>, i: int, n: nat)
    requires
        lit_at(t, i, decimal(n)),
        i + decimal(n).len() == t.len() || !is_digit(t[i + decimal(n).len()]),
    ensures
        number_at(t, i) == Some((n, i + decimal(n).len())),
{
    lemma_decimal(n);
    let e = i + decimal(n).len();
    assert forall|k: int| i <= k < e implies is_digit(#[trigger] t[k]) by {
        assert(t.subrange(i, e)[k - i] == t[k]);
    }
    lemma_run_end(t, i, e);
}

pub proof fn lemma_digits_value_prefix(s: Seq<char>, a: int)
    requires
        0 <= a <= s.len(),
    ensures
        digits_value(s.subrange(0, a)) <= digits_value(s),
    decreases s.len() - a,
{
    if a < s.len() {
        lemma_digits_value_prefix(s, a + 1);
        assert(s.subrange(0, a + 1).drop_last() =~= s.subrange(0, a));
    } else {
        assert(s.subrange(0, a) =~= s);
    }
}

// ---------------------------------------------------------------------------
// Writers
// ---------------------------------------------------------------------------

fn digit_of(d: u64) -> (c: char)
    requires
        d < 10,
    ensures
        c == digit_char(d as nat),
{
    ((d + 48) as u8) as char
}

/// Appends the decimal notation of `n`.
pub fn push_decimal(out: &mut String, n: u64)
    ensures
        final(out)@ == old(out)@ + decimal(n as nat),
    decreases n,
{
    if n >= 10 {
        push_decimal(out, n / 10);
    }
    push_char(out, digit_of(n % 10));
    proof {
        if n >= 10 {
            assert(decimal(n as nat) == decimal((n / 10) as nat).push(digit_char((n % 10) as nat)));
        } else {
            assert(decimal(n as nat) =~= seq![digit_char((n % 10) as nat)]);
        }
    }
}

fn hex_of(v: u32) -> (c: char)
    requires
        v < 16,
    ensures
        c == hex_char(v),
{
    if v < 10 {
        ((v + 48) as u8) as char
    } else {
        ((v + 87) as u8) as char
    }
}

/// Appends `c` as it is written inside a JSON string.
fn push_escaped_char(out: &mut String, c: char)
    ensures
        final(out)@ == old(out)@ + escape_char(c),
{
    let ghost start = out@;
    if c == '"' {
        push_char(out, '\\');
        push_char(out, '"');
    } else if c == '\\' {
        push_char(out, '\\');
        push_char(out, '\\');
    } else if c == '\n' {
        push_char(out, '\\');
        push_char(out, 'n');
    } else if c == '\r' {
        push_char(out, '\\');
        push_char(out, 'r');
    } else if c == '\t' {
        push_char(out, '\\');
        push_char(out, 't');
    } else if c == '\x08' {
        push_char(out, '\\');
        push_char(out, 'b');
    } else if c == '\x0c' {
        push_char(out, '\\');
        push_char(out, 'f');
    } else if (c as u32) < 32 {
        let v = c as u32;
        push_char(out, '\\');
        push_char(out, 'u');
        push_char(out, '0');
        push_char(out, '0');
        push_char(out, hex_of(v / 16));
        push_char(out, hex_of(v % 16));
    } else {
        push_char(out, c);
    }
    assert(out@ =~= start + escape_char(c));
}

/// Appends `s` as a JSON string literal.
pub fn push_quoted(out: &mut String, s: &str)
    ensures
        final(out)@ == old(out)@ + quoted(s@),
{
    let cs = chars_of(s);
    let ghost start = out@;
    push_char(out, '"');
    let mut i: usize = 0;
    while i < cs.len()
        invariant
            i <= cs@.len(),
            cs@ == s@,
            out@ == start + seq!['"'] + escape(cs@.subrange(0, i as int)),
        decreases cs@.len() - i,
    {
        push_escaped_char(out, cs[i]);
        proof {
            let p = cs@.subrange(0, i as int + 1);
            assert(p.drop_last() =~= cs@.subrange(0, i as int));
            assert(p.last() == cs@[i as int]);
        }
        i = i + 1;
    }
    push_char(out, '"');
    assert(cs@.subrange(0, cs@.len() as int) =~= s@);
    assert(out@ =~= start + quoted(s@));
}

// ---------------------------------------------------------------------------
// Scanners
// ---------------------------------------------------------------------------

/// Whether the text `l` stands in `t` at index `i`.
pub fn match_lit(t: &Vec<char>, i: usize, l: &str) -> (r: bool)
    ensures
        r == lit_at(t@, i as int, l@),
{
    let lc = chars_of(l);
    if i > t.len() || lc.len() > t.len() - i {
        return false;
    }
    let mut k: usize = 0;
    while k < lc.len()
        invariant
            i + lc@.len() <= t@.len(),
            t@.len() <= usize::MAX,
            k <= lc@.len(),
            lc@ == l@,
            forall|j: int| 0 <= j < k ==> t@[i + j] == lc@[j],
        decreases lc@.len() - k,
    {
        if t[i + k] != lc[k] {
            assert(t@.subrange(i as int, i + lc@.len())[k as int] == t@[i + k]);
            return false;
        }
        k = k + 1;
    }
    assert(t@.subrange(i as int, i + lc@.len()) =~= l@);
    true
}

/// Index just past `l` if `l` stands in `t` at `i`.
pub fn skip_lit(t: &Vec<char>, i: usize, l: &str) -> (r: Option<usize>)
    ensures
        match r {
            Some(e) => lit_at(t@, i as int, l@) && e == i + l@.len(),
            None => !lit_at(t@, i as int, l@),
        },
{
    if match_lit(t, i, l) {
        let lc = chars_of(l);
        let n = t.len();
        assert(i + lc@.len() <= n);
        Some(i + lc.len())
    } else {
        None
    }
}

/// A string holding the characters of `v`.
pub fn string_of(v: &Vec<char>) -> (r: String)
    ensures
        r@ == v@,
{
    let mut s = String::new();
    let mut k: usize = 0;
    while k < v.len()
        invariant
            k <= v@.len(),
            s@ == v@.subrange(0, k as int),
        decreases v@.len() - k,
    {
        push_char(&mut s, v[k]);
        assert(v@.subrange(0, k + 1) =~= v@.subrange(0, k as int).push(v@[k as int]));
        k = k + 1;
    }
    assert(v@.subrange(0, v@.len() as int) =~= v@);
    s
}

/// Whether `v` holds exactly the characters of `l`.
pub fn chars_equal(v: &Vec<char>, l: &str) -> (r: bool)
    ensures
        r == (v@ == l@),
{
    let lc = chars_of(l);
    if v.len() != lc.len() {
        return false;
    }
    let mut k: usize = 0;
    while k < lc.len()
        invariant
            v@.len() == lc@.len(),
            k <= lc@.len(),
            lc@ == l@,
            forall|j: int| 0 <= j < k ==> v@[j] == lc@[j],
        decreases lc@.len() - k,
    {
        if v[k] != lc[k] {
            return false;
        }
        k = k + 1;
    }
    assert(v@ =~= lc@);
    true
}

fn hex_digit_value(c: char) -> (r: u32)
    ensures
        r == hex_value(c),
{
    let v = c as u32;
    if 48 <= v && v <= 57 {
        v - 48
    } else if 97 <= v && v <= 102 {
        v - 87
    } else if 65 <= v && v <= 70 {
        v - 55
    } else {
        0
    }
}

fn is_hex_char(c: char) -> (r: bool)
    ensures
        r == is_hex(c),
{
    let v = c as u32;
    (48 <= v && v <= 57) || (97 <= v && v <= 102) || (65 <= v && v <= 70)
}

/// Reads one character of a string body at `i`.
fn scan_unit(t: &Vec<char>, i: usize) -> (r: Option<(char, usize)>)
    ensures
        match unit_at(t@, i as int) {
            Some((c, n)) => r == Some((c, n as usize)),
            None => r is None,
        },
{
    if i >= t.len() {
        return None;
    }
    let c = t[i];
    if c == '\\' {
        if i + 1 >= t.len() {
            return None;
        }
        let e = t[i + 1];
        if e == '"' {
            Some(('"', 2))
        } else if e == '\\' {
            Some(('\\', 2))
        } else if e == '/' {
            Some(('/', 2))
        } else if e == 'n' {
            Some(('\n', 2))
        } else if e == 'r' {
            Some(('\r', 2))
        } else if e == 't' {
            Some(('\t', 2))
        } else if e == 'b' {
            Some(('\x08', 2))
        } else if e == 'f' {
            Some(('\x0c', 2))
        } else if e == 'u' && t.len() - i > 5 && t[i + 2] == '0' && t[i + 3] == '0' && is_hex_char(
            t[i + 4],
        ) && is_hex_char(t[i + 5]) {
            let v = hex_digit_value(t[i + 4]) * 16 + hex_digit_value(t[i + 5]);
            Some((((v as u8) as char), 6))
        } else {
            None
        }
    } else if (c as u32) < 32 {
        None
    } else {
        Some((c, 1))
    }
}

/// Reads a JSON string literal starting at `i`.
pub fn scan_string(t: &Vec<char>, i: usize) -> (r: Option<(Vec<char>, usize)>)
    ensures
        match string_at(t@, i as int) {
            Some((s, e)) => r matches Some((v, e2)) && v@ == s && e2 == e,
            None => r is None,
        },
{
    if i >= t.len() || t[i] != '"' {
        return None;
    }
    let mut out: Vec<char> = Vec::new();
    let mut j: usize = i + 1;
    while j < t.len()
        invariant
            i + 1 <= j <= t@.len(),
            string_at(t@, i as int) == prepend(out@, body_at(t@, j as int)),
        decreases t@.len() - j,
    {
        if t[j] == '"' {
            assert(out@ + Seq::<char>::empty() =~= out@);
            return Some((out, j + 1));
        }
        match scan_unit(t, j) {
            None => {
                return None;
            },
            Some((c, n)) => {
                proof {
                    let rest = body_at(t@, j + n);
                    match rest {
                        Some((s, e)) => {
                            assert(out@ + (seq![c] + s) =~= out@.push(c) + s);
                        },
                        None => {},
                    }
                }
                out.push(c);
                j = j + n;
            },
        }
    }
    None
}

/// Reads a non-empty run of decimal digits starting at `i`; `None` also when
/// the number does not fit in a `u64`.
pub fn scan_number(t: &Vec<char>, i: usize) -> (r: Option<(u64, usize)>)
    ensures
        match number_at(t@, i as int) {
            Some((v, e)) => if v <= u64::MAX {
                r matches Some((w, e2)) && w == v && e2 == e
            } else {
                r is None
            },
            None => r is None,
        },
{
    let mut j: usize = i;
    let mut val: u64 = 0;
    if i > t.len() {
        return None;
    }
    proof {
        lemma_run_end_ge(t@, i as int);
    }
    while j < t.len() && (48 <= (t[j] as u32) && (t[j] as u32) <= 57)
        invariant
            i <= j <= t@.len(),
            run_end(t@, i as int) == run_end(t@, j as int),
            val == digits_value(t@.subrange(i as int, j as int)),
        decreases t@.len() - j,
    {
        let d = (t[j] as u32 - 48) as u64;
        assert(t@.subrange(i as int, j + 1).drop_last() =~= t@.subrange(i as int, j as int));
        if val > (u64::MAX - d) / 10 {
            proof {
                let e = run_end(t@, i as int);
                assert(run_end(t@, j as int) == run_end(t@, j + 1));
                lemma_run_end_ge(t@, j as int + 1);
                let s = t@.subrange(i as int, e);
                assert(s.subrange(0, j - i + 1) =~= t@.subrange(i as int, j + 1));
                lemma_digits_value_prefix(s, j - i + 1);
            }
            return None;
        }
        val = val * 10 + d;
        j = j + 1;
    }
    if j == i {
        return None;
    }
    Some((val, j))
}

proof fn lemma_run_end_ge(t: Seq<char>, p: int)
    ensures
        run_end(t, p) >= p,
        0 <= p <= t.len() ==> run_end(t, p) <= t.len(),
    decreases t.len() - p,
{
    if 0 <= p < t.len() && is_digit(t[p]) {
        lemma_run_end_ge(t, p + 1);
    }
}

} // verus!
