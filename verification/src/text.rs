//! Text helpers: thin wrappers over std string operations that vstd does not
//! specify, and verified conversions between strings and character vectors.

use vstd::prelude::*;
use vstd::relations::{sorted_by, total_ordering};
use vstd::utf8::is_ascii_chars;

verus! {

/// Equality of two string slices, character by character.
pub(crate) fn str_eq(a: &str, b: &str) -> (r: bool)
    ensures
        r == (a@ == b@),
{
    let x = chars_of(a);
    let y = chars_of(b);
    if x.len() != y.len() {
        return false;
    }
    let mut i: usize = 0;
    while i < x.len()
        invariant
            i <= x@.len(),
            x@.len() == y@.len(),
            x@ == a@,
            y@ == b@,
            forall|j: int| 0 <= j < i ==> x@[j] == y@[j],
        decreases x@.len() - i,
    {
        if x[i] != y[i] {
            return false;
        }
        i = i + 1;
    }
    proof {
        assert(a@ =~= b@);
    }
    true
}

/// The lowercase of one character, where it is an ASCII capital.
pub open spec fn spec_ascii_lower_char(c: char) -> char {
    if 'A' <= c <= 'Z' {
        ((c as u32) + 32) as char
    } else {
        c
    }
}

/// Every ASCII capital of `s` made lowercase.
pub open spec fn spec_ascii_lowercase(s: Seq<char>) -> Seq<char> {
    s.map_values(|c: char| spec_ascii_lower_char(c))
}

/// The Unicode lowercase of a text, as std's `str::to_lowercase` gives it.
pub uninterp spec fn spec_to_lowercase(s: Seq<char>) -> Seq<char>;

/// Trusted: `str::to_lowercase`. Its result depends on the text alone; on
/// ASCII text it lowers the ASCII capitals and keeps every other character,
/// as the Unicode lowercase mapping does for ASCII.
#[verifier::external_body]
pub(crate) fn to_lowercase(s: &str) -> (r: String)
    ensures
        r@ == spec_to_lowercase(s@),
        is_ascii_chars(s@) ==> r@ == spec_ascii_lowercase(s@),
{
    s.to_lowercase()
}

/// Trusted: `String::push`, which appends one character.
#[verifier::external_body]
pub(crate) fn push_char(s: &mut String, c: char)
    ensures
        final(s)@ == old(s)@.push(c),
{
    s.push(c)
}

/// Trusted: `String::pop`, which removes and returns the last character.
#[verifier::external_body]
pub(crate) fn pop_char(s: &mut String) -> (r: Option<char>)
    ensures
        old(s)@.len() == 0 ==> r is None && final(s)@ == old(s)@,
        old(s)@.len() > 0 ==> r == Some(old(s)@.last()) && final(s)@ == old(s)@.drop_last(),
{
    s.pop()
}

/// A new string holding the text of `s`.
pub fn owned(s: &str) -> (r: String)
    ensures
        r@ == s@,
{
    s.to_owned()
}

/// The characters of a text, in order.
pub fn chars_of(s: &str) -> (r: Vec<char>)
    ensures
        r@ == s@,
{
    let mut out: Vec<char> = Vec::new();
    proof {
        broadcast use vstd::string::group_string_axioms;
    }
    for c in it: s.chars()
        invariant
            out@ == it.seq().take(it.index() as int),
    {
        out.push(c);
    }
    out
}

/// A string made of the given characters, in order.
pub fn string_of(chars: &[char]) -> (r: String)
    ensures
        r@ == chars@,
{
    let mut out = String::new();
    let mut i: usize = 0;
    while i < chars.len()
        invariant
            i <= chars@.len(),
            out@ == chars@.take(i as int),
        decreases chars@.len() - i,
    {
        push_char(&mut out, chars[i]);
        proof {
            assert(chars@.take(i + 1) =~= chars@.take(i as int).push(chars@[i as int]));
        }
        i = i + 1;
    }
    proof {
        assert(chars@.take(chars@.len() as int) =~= chars@);
    }
    out
}

/// `a` followed by `b`.
pub fn concat(a: &str, b: &str) -> (r: String)
    ensures
        r@ == a@ + b@,
{
    let mut out = owned(a);
    out.append(b);
    out
}

/// Lexicographic order on texts, character by character: a proper prefix
/// comes first. On UTF-8 this is the order of std's `Ord` for strings.
pub open spec fn spec_lex_le(a: Seq<char>, b: Seq<char>) -> bool
    decreases a.len(),
{
    if a.len() == 0 {
        true
    } else if b.len() == 0 {
        false
    } else if a[0] < b[0] {
        true
    } else if a[0] > b[0] {
        false
    } else {
        spec_lex_le(a.drop_first(), b.drop_first())
    }
}

/// The lexicographic order as a relation.
pub open spec fn lex_order() -> spec_fn(Seq<char>, Seq<char>) -> bool {
    |a: Seq<char>, b: Seq<char>| spec_lex_le(a, b)
}

proof fn lemma_lex_reflexive(a: Seq<char>)
    ensures
        spec_lex_le(a, a),
    decreases a.len(),
{
    if a.len() > 0 {
        lemma_lex_reflexive(a.drop_first());
    }
}

proof fn lemma_lex_antisymmetric(a: Seq<char>, b: Seq<char>)
    requires
        spec_lex_le(a, b),
        spec_lex_le(b, a),
    ensures
        a == b,
    decreases a.len(),
{
    if a.len() > 0 && b.len() > 0 {
        lemma_lex_antisymmetric(a.drop_first(), b.drop_first());
        assert(a =~= seq![a[0]] + a.drop_first());
        assert(b =~= seq![b[0]] + b.drop_first());
    }
}

proof fn lemma_lex_transitive(a: Seq<char>, b: Seq<char>, c: Seq<char>)
    requires
        spec_lex_le(a, b),
        spec_lex_le(b, c),
    ensures
        spec_lex_le(a, c),
    decreases a.len(),
{
    if a.len() > 0 && b.len() > 0 && c.len() > 0 {
        if a[0] == b[0] && b[0] == c[0] {
            lemma_lex_transitive(a.drop_first(), b.drop_first(), c.drop_first());
        }
    }
}

proof fn lemma_lex_total(a: Seq<char>, b: Seq<char>)
    ensures
        spec_lex_le(a, b) || spec_lex_le(b, a),
    decreases a.len(),
{
    if a.len() > 0 && b.len() > 0 {
        lemma_lex_total(a.drop_first(), b.drop_first());
    }
}

/// The lexicographic order is a total order.
pub proof fn lemma_lex_total_ordering()
    ensures
        total_ordering(lex_order()),
{
    assert forall|a: Seq<char>| #[trigger] lex_order()(a, a) by {
        lemma_lex_reflexive(a);
    }
    assert forall|a: Seq<char>, b: Seq<char>|
        #[trigger] lex_order()(a, b) && #[trigger] lex_order()(b, a) implies a == b by {
        lemma_lex_antisymmetric(a, b);
    }
    assert forall|a: Seq<char>, b: Seq<char>, c: Seq<char>|
        #[trigger] lex_order()(a, b) && #[trigger] lex_order()(b, c) implies lex_order()(a, c) by {
        lemma_lex_transitive(a, b, c);
    }
    assert forall|a: Seq<char>, b: Seq<char>|
        #[trigger] lex_order()(a, b) || #[trigger] lex_order()(b, a) by {
        lemma_lex_total(a, b);
    }
}

/// Whether `a` comes no later than `b` in lexicographic order.
pub fn lex_le(a: &str, b: &str) -> (r: bool)
    ensures
        r == spec_lex_le(a@, b@),
{
    let av = chars_of(a);
    let bv = chars_of(b);
    let mut i: usize = 0;
    proof {
        assert(a@.skip(0) =~= a@);
        assert(b@.skip(0) =~= b@);
    }
    while i < av.len() && i < bv.len()
        invariant
            i <= av@.len(),
            i <= bv@.len(),
            av@ == a@,
            bv@ == b@,
            spec_lex_le(a@, b@) == spec_lex_le(a@.skip(i as int), b@.skip(i as int)),
        decreases av@.len() - i,
    {
        let x = av[i];
        let y = bv[i];
        proof {
            assert(a@.skip(i as int)[0] == x);
            assert(b@.skip(i as int)[0] == y);
        }
        if x < y {
            return true;
        }
        if x > y {
            return false;
        }
        proof {
            assert(a@.skip(i as int).drop_first() =~= a@.skip(i + 1));
            assert(b@.skip(i as int).drop_first() =~= b@.skip(i + 1));
        }
        i = i + 1;
    }
    i == av.len()
}

/// The views of a sequence of strings.
pub open spec fn spec_string_views(s: Seq<String>) -> Seq<Seq<char>> {
    s.map_values(|x: String| x@)
}

proof fn lemma_insert_keeps_sorted(s: Seq<Seq<char>>, j: int, x: Seq<char>)
    requires
        sorted_by(s, lex_order()),
        0 <= j <= s.len(),
        forall|k: int| 0 <= k < j ==> spec_lex_le(#[trigger] s[k], x),
        j < s.len() ==> spec_lex_le(x, s[j]),
    ensures
        sorted_by(s.insert(j, x), lex_order()),
{
    lemma_lex_total_ordering();
    let t = s.insert(j, x);
    assert forall|p: int, q: int| 0 <= p < q < t.len() implies #[trigger] lex_order()(t[p], t[q]) by {
        if q < j {
            assert(lex_order()(s[p], s[q]));
        } else if q == j {
            assert(spec_lex_le(s[p], x));
        } else if p == j {
            assert(spec_lex_le(x, s[j]));
            if q - 1 > j {
                assert(lex_order()(s[j], s[q - 1]));
                lemma_lex_transitive(x, s[j], s[q - 1]);
            }
        } else if p < j {
            assert(lex_order()(s[p], s[q - 1]));
        } else {
            assert(lex_order()(s[p - 1], s[q - 1]));
        }
    }
}

/// The strings sorted in lexicographic order.
pub fn sort_strings(v: &Vec<String>) -> (r: Vec<String>)
    ensures
        spec_string_views(r@) == spec_string_views(v@).sort_by(lex_order()),
{
    broadcast use vstd::seq_lib::group_to_multiset_ensures;
    let mut out: Vec<String> = Vec::new();
    let mut i: usize = 0;
    while i < v.len()
        invariant
            i <= v@.len(),
            sorted_by(spec_string_views(out@), lex_order()),
            spec_string_views(out@).to_multiset() == spec_string_views(v@.take(i as int)).to_multiset(),
        decreases v@.len() - i,
    {
        let x = v[i].clone();
        let mut j: usize = 0;
        while j < out.len() && lex_le(out[j].as_str(), x.as_str())
            invariant
                j <= out@.len(),
                forall|k: int| 0 <= k < j ==> spec_lex_le(#[trigger] spec_string_views(out@)[k], x@),
            decreases out@.len() - j,
        {
            j = j + 1;
        }
        let ghost before = spec_string_views(out@);
        proof {
            if j < out@.len() {
                lemma_lex_total(before[j as int], x@);
            }
            lemma_insert_keeps_sorted(before, j as int, x@);
            vstd::seq_lib::to_multiset_insert(before, j as int, x@);
            assert(spec_string_views(v@.take(i + 1)) =~= spec_string_views(v@.take(i as int)).push(x@));
            vstd::seq_lib::to_multiset_build(spec_string_views(v@.take(i as int)), x@);
        }
        out.insert(j, x);
        proof {
            assert(spec_string_views(out@) =~= before.insert(j as int, x@));
        }
        i = i + 1;
    }
    proof {
        let s = spec_string_views(v@);
        assert(v@.take(v@.len() as int) =~= v@);
        lemma_lex_total_ordering();
        s.lemma_sort_by_ensures(lex_order());
        vstd::seq_lib::lemma_sorted_unique(spec_string_views(out@), s.sort_by(lex_order()), lex_order());
    }
    out
}

/// The decimal digit character of `d`.
pub open spec fn spec_digit(d: nat) -> char {
    if d == 0 { '0' }
    else if d == 1 { '1' }
    else if d == 2 { '2' }
    else if d == 3 { '3' }
    else if d == 4 { '4' }
    else if d == 5 { '5' }
    else if d == 6 { '6' }
    else if d == 7 { '7' }
    else if d == 8 { '8' }
    else { '9' }
}

/// The decimal form of `n`, without leading zeros.
pub open spec fn spec_decimal(n: nat) -> Seq<char>
    decreases n,
{
    if n < 10 {
        seq![spec_digit(n)]
    } else {
        spec_decimal(n / 10).push(spec_digit(n % 10))
    }
}

fn digit_char(d: u64) -> (r: char)
    requires
        d < 10,
    ensures
        r == spec_digit(d as nat),
{
    match d {
        0 => '0',
        1 => '1',
        2 => '2',
        3 => '3',
        4 => '4',
        5 => '5',
        6 => '6',
        7 => '7',
        8 => '8',
        _ => '9',
    }
}

fn decimal_chars(n: u64) -> (r: Vec<char>)
    ensures
        r@ == spec_decimal(n as nat),
    decreases n,
{
    if n < 10 {
        let r = vec![digit_char(n)];
        assert(r@ =~= seq![spec_digit(n as nat)]);
        r
    } else {
        let mut v = decimal_chars(n / 10);
        v.push(digit_char(n % 10));
        v
    }
}

/// The decimal form of `n`.
pub fn decimal(n: u64) -> (r: String)
    ensures
        r@ == spec_decimal(n as nat),
{
    let v = decimal_chars(n);
    string_of(v.as_slice())
}

/// The decimal form of a signed number: a minus sign before the digits of a
/// negative one.
pub open spec fn spec_signed_decimal(n: int) -> Seq<char> {
    if n < 0 {
        seq!['-'] + spec_decimal((-n) as nat)
    } else {
        spec_decimal(n as nat)
    }
}

/// The decimal form of `n`, signed.
pub fn signed_decimal(n: i64) -> (r: String)
    ensures
        r@ == spec_signed_decimal(n as int),
{
    if n >= 0 {
        decimal(n as u64)
    } else {
        let magnitude: u64 = ((-(n + 1)) as u64) + 1;
        let digits = decimal_chars(magnitude);
        let mut v: Vec<char> = vec!['-'];
        let mut i: usize = 0;
        while i < digits.len()
            invariant
                i <= digits@.len(),
                v@ == seq!['-'] + digits@.take(i as int),
            decreases digits@.len() - i,
        {
            v.push(digits[i]);
            proof {
                assert(digits@.take(i + 1) =~= digits@.take(i as int).push(digits@[i as int]));
                assert(v@ =~= seq!['-'] + digits@.take(i + 1));
            }
            i = i + 1;
        }
        proof {
            assert(digits@.take(digits@.len() as int) =~= digits@);
        }
        string_of(v.as_slice())
    }
}

proof fn lemma_decimal_len(n: nat)
    ensures
        spec_decimal(n).len() >= 1,
        n >= 10 ==> spec_decimal(n).len() >= 2,
    decreases n,
{
    if n >= 10 {
        lemma_decimal_len(n / 10);
    }
}

/// Different numbers have different decimal forms.
pub proof fn lemma_decimal_injective(a: nat, b: nat)
    requires
        a != b,
    ensures
        spec_decimal(a) != spec_decimal(b),
    decreases a + b,
{
    lemma_decimal_len(a);
    lemma_decimal_len(b);
    if a < 10 && b < 10 {
        assert(spec_decimal(a)[0] != spec_decimal(b)[0]);
    } else if a >= 10 && b >= 10 {
        let da = spec_decimal(a);
        let db = spec_decimal(b);
        if a % 10 != b % 10 {
            assert(da.last() != db.last());
        } else {
            assert(a / 10 != b / 10);
            lemma_decimal_injective(a / 10, b / 10);
            if da == db {
                assert(da.drop_last() =~= spec_decimal(a / 10));
                assert(db.drop_last() =~= spec_decimal(b / 10));
            }
        }
    }
}

} // verus!
