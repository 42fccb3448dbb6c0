//! Text operations on character sequences: whitespace trimming, prefixes,
//! splitting into lines. Each is stated over `Seq<char>` and computed on a
//! slice of characters.

use vstd::prelude::*;

use vstd::string::StringSliceAdditionalSpecFns;
use vstd::utf8::{decode_utf8, encode_utf8, is_char_boundary};

use crate::text::chars_of;

verus! {

/// Whether a character has the Unicode White_Space property, which is what
/// std's `char::is_whitespace` tests.
pub open spec fn spec_is_whitespace(c: char) -> bool {
    ||| ('\u{9}' <= c && c <= '\u{d}')
    ||| c == ' '
    ||| c == '\u{85}'
    ||| c == '\u{a0}'
    ||| c == '\u{1680}'
    ||| ('\u{2000}' <= c && c <= '\u{200a}')
    ||| c == '\u{2028}'
    ||| c == '\u{2029}'
    ||| c == '\u{202f}'
    ||| c == '\u{205f}'
    ||| c == '\u{3000}'
}

/// `s` without its leading whitespace.
pub open spec fn spec_trim_start(s: Seq<char>) -> Seq<char>
    decreases s.len(),
{
    if s.len() > 0 && spec_is_whitespace(s[0]) {
        spec_trim_start(s.drop_first())
    } else {
        s
    }
}

/// `s` without its trailing whitespace.
pub open spec fn spec_trim_end(s: Seq<char>) -> Seq<char>
    decreases s.len(),
{
    if s.len() > 0 && spec_is_whitespace(s.last()) {
        spec_trim_end(s.drop_last())
    } else {
        s
    }
}

/// `s` without leading and trailing whitespace.
pub open spec fn spec_trim(s: Seq<char>) -> Seq<char> {
    spec_trim_end(spec_trim_start(s))
}

/// `s` without any of the copies of `c` it starts with.
pub open spec fn spec_trim_start_char(s: Seq<char>, c: char) -> Seq<char>
    decreases s.len(),
{
    if s.len() > 0 && s[0] == c {
        spec_trim_start_char(s.drop_first(), c)
    } else {
        s
    }
}

/// Whether `s` begins with `p`.
pub open spec fn spec_starts_with(s: Seq<char>, p: Seq<char>) -> bool {
    p.len() <= s.len() && s.take(p.len() as int) == p
}

/// `i` is the first position of `c` in `s`.
pub open spec fn spec_is_first_index(s: Seq<char>, c: char, i: int) -> bool {
    0 <= i < s.len() && s[i] == c && forall|j: int| 0 <= j < i ==> s[j] != c
}

/// The part of `s` before the first `c`, or all of `s` where there is none.
pub open spec fn spec_before(s: Seq<char>, c: char) -> Seq<char> {
    if s.contains(c) {
        s.take(choose|i: int| spec_is_first_index(s, c, i))
    } else {
        s
    }
}

/// Whether a character is whitespace (Unicode White_Space).
pub fn is_whitespace(c: char) -> (r: bool)
    ensures
        r == spec_is_whitespace(c),
{
    ('\u{9}' <= c && c <= '\u{d}') || c == ' ' || c == '\u{85}' || c == '\u{a0}' || c == '\u{1680}'
        || ('\u{2000}' <= c && c <= '\u{200a}') || c == '\u{2028}' || c == '\u{2029}'
        || c == '\u{202f}' || c == '\u{205f}' || c == '\u{3000}'
}

/// The characters `s[from..to]`.
pub fn copy_range(s: &[char], from: usize, to: usize) -> (r: Vec<char>)
    requires
        from <= to <= s@.len(),
    ensures
        r@ == s@.subrange(from as int, to as int),
{
    let mut out: Vec<char> = Vec::new();
    let mut k: usize = from;
    while k < to
        invariant
            from <= k <= to,
            to <= s@.len(),
            out@ == s@.subrange(from as int, k as int),
        decreases to - k,
    {
        out.push(s[k]);
        proof {
            assert(out@ =~= s@.subrange(from as int, k + 1));
        }
        k = k + 1;
    }
    out
}

/// `s` without leading and trailing whitespace.
pub fn trim(s: &[char]) -> (r: Vec<char>)
    ensures
        r@ == spec_trim(s@),
{
    let mut i: usize = 0;
    proof {
        assert(s@.skip(0) =~= s@);
    }
    while i < s.len() && is_whitespace(s[i])
        invariant
            i <= s@.len(),
            spec_trim_start(s@) == spec_trim_start(s@.skip(i as int)),
        decreases s@.len() - i,
    {
        proof {
            assert(s@.skip(i as int).drop_first() =~= s@.skip(i + 1));
        }
        i = i + 1;
    }
    let ghost t = s@.skip(i as int);
    assert(spec_trim_start(s@) == t);
    let mut j: usize = s.len();
    proof {
        assert(t.take(t.len() as int) =~= t);
    }
    while j > i && is_whitespace(s[j - 1])
        invariant
            i <= j <= s@.len(),
            t == s@.skip(i as int),
            spec_trim_end(t) == spec_trim_end(t.take(j - i)),
        decreases j,
    {
        proof {
            assert(t.take(j - i).drop_last() =~= t.take(j - 1 - i));
        }
        j = j - 1;
    }
    proof {
        assert(t.take(j - i) =~= s@.subrange(i as int, j as int));
    }
    copy_range(s, i, j)
}

/// `s` without any of the copies of `c` it starts with.
pub fn trim_start_char(s: &[char], c: char) -> (r: Vec<char>)
    ensures
        r@ == spec_trim_start_char(s@, c),
{
    let mut i: usize = 0;
    proof {
        assert(s@.skip(0) =~= s@);
    }
    while i < s.len() && s[i] == c
        invariant
            i <= s@.len(),
            spec_trim_start_char(s@, c) == spec_trim_start_char(s@.skip(i as int), c),
        decreases s@.len() - i,
    {
        proof {
            assert(s@.skip(i as int).drop_first() =~= s@.skip(i + 1));
        }
        i = i + 1;
    }
    proof {
        assert(s@.skip(i as int) =~= s@.subrange(i as int, s@.len() as int));
    }
    copy_range(s, i, s.len())
}

/// Whether `s` begins with the characters of `p`.
pub fn starts_with(s: &[char], p: &str) -> (r: bool)
    ensures
        r == spec_starts_with(s@, p@),
{
    let pv = chars_of(p);
    if pv.len() > s.len() {
        return false;
    }
    let mut i: usize = 0;
    while i < pv.len()
        invariant
            i <= pv@.len() <= s@.len(),
            pv@ == p@,
            forall|k: int| 0 <= k < i ==> s@[k] == pv@[k],
        decreases pv@.len() - i,
    {
        if s[i] != pv[i] {
            proof {
                assert(s@.take(pv@.len() as int)[i as int] != p@[i as int]);
            }
            return false;
        }
        i = i + 1;
    }
    proof {
        assert(s@.take(pv@.len() as int) =~= p@);
    }
    true
}

/// Whether `c` occurs in `s`.
pub fn contains_char(s: &[char], c: char) -> (r: bool)
    ensures
        r == s@.contains(c),
{
    let mut i: usize = 0;
    while i < s.len()
        invariant
            i <= s@.len(),
            forall|k: int| 0 <= k < i ==> s@[k] != c,
        decreases s@.len() - i,
    {
        if s[i] == c {
            return true;
        }
        i = i + 1;
    }
    false
}

/// The part of `s` before the first `c`, or all of `s` where there is none.
pub fn before_char(s: &[char], c: char) -> (r: Vec<char>)
    ensures
        r@ == spec_before(s@, c),
{
    let mut i: usize = 0;
    while i < s.len()
        invariant
            i <= s@.len(),
            forall|k: int| 0 <= k < i ==> s@[k] != c,
        decreases s@.len() - i,
    {
        if s[i] == c {
            proof {
                assert(spec_is_first_index(s@, c, i as int));
                assert(s@.contains(c));
                let j = choose|j: int| spec_is_first_index(s@, c, j);
                assert(j == i);
            }
            return copy_range(s, 0, i);
        }
        i = i + 1;
    }
    proof {
        assert(!s@.contains(c));
        assert(s@.subrange(0, s@.len() as int) =~= s@);
    }
    copy_range(s, 0, s.len())
}

/// A line without the carriage return that ended it, if any.
pub open spec fn spec_strip_cr(l: Seq<char>) -> Seq<char> {
    if l.len() > 0 && l.last() == '\r' {
        l.drop_last()
    } else {
        l
    }
}

/// Reading `s` from the left: the lines finished so far (each ended by a
/// line feed, its carriage return removed) and the line still open.
pub open spec fn spec_lines_state(s: Seq<char>) -> (Seq<Seq<char>>, Seq<char>)
    decreases s.len(),
{
    if s.len() == 0 {
        (Seq::empty(), Seq::empty())
    } else {
        let (done, cur) = spec_lines_state(s.drop_last());
        if s.last() == '\n' {
            (done.push(spec_strip_cr(cur)), Seq::empty())
        } else {
            (done, cur.push(s.last()))
        }
    }
}

/// The lines of `s` as std's `str::lines` gives them: split at each line
/// feed, a carriage return before it dropped, the final line ending optional.
pub open spec fn spec_lines(s: Seq<char>) -> Seq<Seq<char>> {
    let (done, cur) = spec_lines_state(s);
    if cur.len() > 0 {
        done.push(cur)
    } else {
        done
    }
}

/// The views of a sequence of character vectors.
pub open spec fn spec_char_vec_views(v: Seq<Vec<char>>) -> Seq<Seq<char>> {
    v.map_values(|x: Vec<char>| x@)
}

/// The lines of `s`, as `spec_lines` states them.
pub fn split_lines(s: &[char]) -> (r: Vec<Vec<char>>)
    ensures
        spec_char_vec_views(r@) == spec_lines(s@),
{
    let mut done: Vec<Vec<char>> = Vec::new();
    let mut cur: Vec<char> = Vec::new();
    let mut k: usize = 0;
    proof {
        assert(s@.take(0) =~= Seq::<char>::empty());
        assert(spec_char_vec_views(done@) =~= Seq::<Seq<char>>::empty());
    }
    while k < s.len()
        invariant
            k <= s@.len(),
            spec_lines_state(s@.take(k as int)) == (spec_char_vec_views(done@), cur@),
        decreases s@.len() - k,
    {
        let c = s[k];
        proof {
            assert(s@.take(k + 1).drop_last() =~= s@.take(k as int));
            assert(s@.take(k + 1).last() == c);
        }
        if c == '\n' {
            let ghost prev = done@;
            if cur.len() > 0 && cur[cur.len() - 1] == '\r' {
                cur.pop();
            }
            let line = cur;
            let ghost lv = line@;
            done.push(line);
            proof {
                assert(spec_char_vec_views(done@) =~= spec_char_vec_views(prev).push(lv));
            }
            cur = Vec::new();
            proof {
                assert(cur@ =~= Seq::<char>::empty());
            }
        } else {
            cur.push(c);
        }
        k = k + 1;
    }
    proof {
        assert(s@.take(s@.len() as int) =~= s@);
    }
    if cur.len() > 0 {
        let ghost prev = done@;
        let ghost lv = cur@;
        done.push(cur);
        proof {
            assert(spec_char_vec_views(done@) =~= spec_char_vec_views(prev).push(lv));
        }
    }
    done
}

/// Whether `p` occurs in `s` as a contiguous run.
pub open spec fn spec_contains_seq(s: Seq<char>, p: Seq<char>) -> bool {
    exists|i: int| 0 <= i && i + p.len() <= s.len() && #[trigger] s.subrange(i, i + p.len()) == p
}

/// `i` is the first position where `p` occurs in `s`.
pub open spec fn spec_is_first_occurrence(s: Seq<char>, p: Seq<char>, i: int) -> bool {
    &&& 0 <= i && i + p.len() <= s.len()
    &&& s.subrange(i, i + p.len()) == p
    &&& forall|j: int| 0 <= j < i ==> #[trigger] s.subrange(j, j + p.len()) != p
}

/// The first position where the characters of `p` occur in `s`, if any.
pub fn find_str(s: &[char], p: &str) -> (r: Option<usize>)
    ensures
        match r {
            Some(i) => spec_is_first_occurrence(s@, p@, i as int),
            None => !spec_contains_seq(s@, p@),
        },
{
    let pv = chars_of(p);
    if pv.len() > s.len() {
        return None;
    }
    let mut i: usize = 0;
    while pv.len() <= s.len() - i
        invariant
            pv@ == p@,
            i <= s@.len(),
            forall|j: int| 0 <= j < i ==> #[trigger] s@.subrange(j, j + p@.len()) != p@,
        decreases s@.len() - i,
    {
        let mut k: usize = 0;
        while k < pv.len() && s[i + k] == pv[k]
            invariant
                i + pv@.len() <= s@.len(),
                pv@ == p@,
                i + k <= s.len(),
                k <= pv@.len(),
                forall|m: int| 0 <= m < k ==> s@[i + m] == pv@[m],
            decreases pv@.len() - k,
        {
            k = k + 1;
        }
        if k == pv.len() {
            proof {
                assert(s@.subrange(i as int, i + p@.len()) =~= p@);
            }
            return Some(i);
        }
        proof {
            assert(s@.subrange(i as int, i + p@.len())[k as int] != p@[k as int]);
        }
        i = i + 1;
    }
    proof {
        assert forall|j: int| 0 <= j && j + p@.len() <= s@.len() implies #[trigger] s@.subrange(j, j + p@.len()) != p@ by {
            assert(j < i);
        }
    }
    None
}

/// Whether the characters of `p` occur in `s` as a contiguous run.
pub fn contains_str(s: &[char], p: &str) -> (r: bool)
    ensures
        r == spec_contains_seq(s@, p@),
{
    find_str(s, p).is_some()
}

/// `s` split around the first occurrence of `p`, if any.
pub open spec fn spec_split_once(s: Seq<char>, p: Seq<char>) -> Option<(Seq<char>, Seq<char>)> {
    if spec_contains_seq(s, p) {
        let i = choose|i: int| spec_is_first_occurrence(s, p, i);
        Some((s.take(i), s.skip(i + p.len())))
    } else {
        None
    }
}

proof fn lemma_first_occurrence_unique(s: Seq<char>, p: Seq<char>, i: int)
    requires
        spec_is_first_occurrence(s, p, i),
    ensures
        spec_contains_seq(s, p),
        (choose|j: int| spec_is_first_occurrence(s, p, j)) == i,
{
    assert(s.subrange(i, i + p.len()) == p);
    let j = choose|j: int| spec_is_first_occurrence(s, p, j);
    assert(spec_is_first_occurrence(s, p, j));
    if j < i {
        assert(s.subrange(j, j + p.len()) != p);
    } else if j > i {
        assert(s.subrange(i, i + p.len()) != p);
    }
}

/// `s` split around the first occurrence of `p`, if any.
pub fn split_once(s: &[char], p: &str) -> (r: Option<(Vec<char>, Vec<char>)>)
    ensures
        match spec_split_once(s@, p@) {
            Some((a, b)) => r matches Some((x, y)) && x@ == a && y@ == b,
            None => r is None,
        },
{
    match find_str(s, p) {
        Some(i) => {
            proof {
                lemma_first_occurrence_unique(s@, p@, i as int);
            }
            let pv = chars_of(p);
            let plen = pv.len();
            assert(i + plen <= s.len());
            let a = copy_range(s, 0, i);
            let b = copy_range(s, i + plen, s.len());
            proof {
                assert(a@ =~= s@.take(i as int));
                assert(b@ =~= s@.skip(i + p@.len()));
            }
            Some((a, b))
        },
        None => None,
    }
}

/// The first `n` bytes of a text's UTF-8 encoding, read back as text.
pub open spec fn spec_byte_prefix(s: Seq<char>, n: int) -> Seq<char> {
    decode_utf8(encode_utf8(s).subrange(0, n))
}

/// The length of a text's UTF-8 encoding, in bytes.
pub fn byte_len(s: &str) -> (r: usize)
    ensures
        r == encode_utf8(s@).len(),
{
    s.as_bytes().len()
}

/// The first `n` bytes of `s`, which must end on a character boundary.
pub fn byte_prefix(s: &str, n: usize) -> (r: &str)
    requires
        n <= encode_utf8(s@).len(),
        is_char_boundary(encode_utf8(s@), n as int),
    ensures
        r@ == spec_byte_prefix(s@, n as int),
{
    let (head, _) = s.split_at(n);
    proof {
        vstd::utf8::encode_utf8_decode_utf8(head@);
        assert(head.spec_bytes() =~= encode_utf8(s@).subrange(0, n as int));
    }
    head
}

/// The bytes of a text's UTF-8 encoding from `n` on, read back as text.
pub open spec fn spec_byte_suffix(s: Seq<char>, n: int) -> Seq<char> {
    decode_utf8(encode_utf8(s).subrange(n, encode_utf8(s).len() as int))
}

/// `s` split at byte `n`, which must be a character boundary.
pub fn byte_split(s: &str, n: usize) -> (r: (&str, &str))
    requires
        n <= encode_utf8(s@).len(),
        is_char_boundary(encode_utf8(s@), n as int),
    ensures
        r.0@ == spec_byte_prefix(s@, n as int),
        r.1@ == spec_byte_suffix(s@, n as int),
        encode_utf8(r.1@).len() == encode_utf8(s@).len() - n,
{
    let (head, tail) = s.split_at(n);
    proof {
        vstd::utf8::encode_utf8_decode_utf8(head@);
        vstd::utf8::encode_utf8_decode_utf8(tail@);
        assert(head.spec_bytes() =~= encode_utf8(s@).subrange(0, n as int));
        assert(tail.spec_bytes() =~= encode_utf8(s@).subrange(n as int, encode_utf8(s@).len() as int));
    }
    (head, tail)
}


/// The smaller of two numbers.
pub open spec fn spec_min(a: nat, b: nat) -> nat {
    if a <= b { a } else { b }
}

/// The terminal cells a character takes: none for combining marks,
/// variation selectors and zero-width characters, two for East Asian wide and
/// fullwidth characters and the common emoji blocks, one otherwise.
pub open spec fn spec_char_cells(c: char) -> nat {
    let u = c as u32;
    if u == 0 || (0x0300 <= u <= 0x036F) || (0x200B <= u <= 0x200F) || (0xFE00 <= u <= 0xFE0F) {
        0
    } else if (0x1100 <= u <= 0x115F) || (0x2E80 <= u <= 0x303E) || (0x3041 <= u <= 0x33FF)
        || (0x3400 <= u <= 0x4DBF) || (0x4E00 <= u <= 0x9FFF) || (0xA000 <= u <= 0xA4CF)
        || (0xAC00 <= u <= 0xD7A3) || (0xF900 <= u <= 0xFAFF) || (0xFE30 <= u <= 0xFE4F)
        || (0xFF00 <= u <= 0xFF60) || (0xFFE0 <= u <= 0xFFE6) || (0x1F300 <= u <= 0x1F64F)
        || (0x1F900 <= u <= 0x1F9FF) || (0x20000 <= u <= 0x3FFFD) {
        2
    } else {
        1
    }
}

/// The terminal cells a text takes.
pub open spec fn spec_display_width(s: Seq<char>) -> nat
    decreases s.len(),
{
    if s.len() == 0 {
        0
    } else {
        spec_display_width(s.drop_last()) + spec_char_cells(s.last())
    }
}

/// The cells `spec_char_cells` gives a character.
pub fn char_cells(c: char) -> (r: usize)
    ensures
        r == spec_char_cells(c),
{
    let u = c as u32;
    if u == 0 || (0x0300 <= u && u <= 0x036F) || (0x200B <= u && u <= 0x200F) || (0xFE00 <= u && u <= 0xFE0F) {
        0
    } else if (0x1100 <= u && u <= 0x115F) || (0x2E80 <= u && u <= 0x303E) || (0x3041 <= u && u <= 0x33FF)
        || (0x3400 <= u && u <= 0x4DBF) || (0x4E00 <= u && u <= 0x9FFF) || (0xA000 <= u && u <= 0xA4CF)
        || (0xAC00 <= u && u <= 0xD7A3) || (0xF900 <= u && u <= 0xFAFF) || (0xFE30 <= u && u <= 0xFE4F)
        || (0xFF00 <= u && u <= 0xFF60) || (0xFFE0 <= u && u <= 0xFFE6) || (0x1F300 <= u && u <= 0x1F64F)
        || (0x1F900 <= u && u <= 0x1F9FF) || (0x20000 <= u && u <= 0x3FFFD) {
        2
    } else {
        1
    }
}

/// The cells a text takes, exactly.
pub fn display_width(s: &[char]) -> (r: u128)
    ensures
        r == spec_display_width(s@),
        r <= 2 * s@.len(),
{
    let mut total: u128 = 0;
    let mut i: usize = 0;
    while i < s.len()
        invariant
            i <= s@.len(),
            total == spec_display_width(s@.take(i as int)),
            total <= 2 * i,
        decreases s@.len() - i,
    {
        proof {
            assert(s@.take(i + 1).drop_last() =~= s@.take(i as int));
        }
        total = total + char_cells(s[i]) as u128;
        i = i + 1;
    }
    proof {
        assert(s@.take(s@.len() as int) =~= s@);
    }
    total
}

/// `k` characters of `s` fit in `budget` cells, and one more would not.
pub open spec fn spec_is_fit_len(s: Seq<char>, budget: nat, k: nat) -> bool {
    &&& k <= s.len()
    &&& spec_display_width(s.take(k as int)) <= budget
    &&& (k == s.len() || spec_display_width(s.take(k + 1 as int)) > budget)
}

/// The ellipsis that ends a shortened text.
pub open spec fn spec_ellipsis() -> char {
    '…'
}

/// `s` shortened to at most `max_cells` cells: kept whole where it fits, else
/// the longest prefix that fits in one cell less, followed by an ellipsis.
pub open spec fn spec_truncated_to(s: Seq<char>, max_cells: nat, r: Seq<char>) -> bool {
    if spec_display_width(s) <= max_cells {
        r == s
    } else {
        exists|k: nat| spec_is_fit_len(s, if max_cells == 0 { 0 } else { (max_cells - 1) as nat }, k)
            && r == s.take(k as int).push(spec_ellipsis())
    }
}

/// `s` shortened to at most `max_cells` cells, as `spec_truncated_to` states.
pub fn truncate_to_cells(s: &[char], max_cells: usize) -> (r: Vec<char>)
    ensures
        spec_truncated_to(s@, max_cells as nat, r@),
{
    let whole = display_width(s);
    if whole <= max_cells as u128 {
        let all = copy_range(s, 0, s.len());
        proof {
            assert(all@ =~= s@);
        }
        return all;
    }
    let budget = max_cells.saturating_sub(1);
    let mut used: usize = 0;
    let mut i: usize = 0;
    while i < s.len() && char_cells(s[i]) <= budget - used
        invariant
            i <= s@.len(),
            used <= budget,
            used as nat == spec_display_width(s@.take(i as int)),
        decreases s@.len() - i,
    {
        proof {
            assert(s@.take(i + 1).drop_last() =~= s@.take(i as int));
        }
        used = used + char_cells(s[i]);
        i = i + 1;
    }
    proof {
        if i < s@.len() {
            assert(s@.take(i + 1).drop_last() =~= s@.take(i as int));
        }
        assert(spec_is_fit_len(s@, budget as nat, i as nat));
    }
    let mut out = copy_range(s, 0, i);
    out.push('…');
    proof {
        assert(out@ =~= s@.take(i as int).push(spec_ellipsis()));
    }
    out
}

} // verus!
