//! Text helpers over the character view of `str` and `String`.

use vstd::prelude::*;
use vstd::string::StrSliceExecFns;
use vstd::string::StringExecFns;

verus! {

/// `p` occurs in `s` starting at position `i`.
pub open spec fn occurs_at(s: Seq<char>, p: Seq<char>, i: int) -> bool {
    0 <= i && i + p.len() <= s.len() && s.subrange(i, i + p.len()) == p
}

/// `p` occurs somewhere in `s`.
pub open spec fn contains_seq(s: Seq<char>, p: Seq<char>) -> bool {
    exists|i: int| occurs_at(s, p, i)
}

/// `p` is a prefix of `s`.
pub open spec fn has_prefix(s: Seq<char>, p: Seq<char>) -> bool {
    occurs_at(s, p, 0)
}

/// Strict lexicographic order on character sequences, by code point.
pub open spec fn seq_less(a: Seq<char>, b: Seq<char>) -> bool
    decreases a.len(),
{
    if a.len() == 0 {
        b.len() > 0
    } else if b.len() == 0 {
        false
    } else if a[0] != b[0] {
        (a[0] as int) < (b[0] as int)
    } else {
        seq_less(a.drop_first(), b.drop_first())
    }
}

/// No sequence comes before itself.
pub proof fn lemma_seq_less_irreflexive(a: Seq<char>)
    ensures
        !seq_less(a, a),
    decreases a.len(),
{
    if a.len() > 0 {
        lemma_seq_less_irreflexive(a.drop_first());
    }
}

/// Two sequences do not each come before the other.
pub proof fn lemma_seq_less_asymmetric(a: Seq<char>, b: Seq<char>)
    ensures
        !(seq_less(a, b) && seq_less(b, a)),
    decreases a.len(),
{
    if a.len() > 0 && b.len() > 0 && a[0] == b[0] {
        lemma_seq_less_asymmetric(a.drop_first(), b.drop_first());
    }
}

/// The order is transitive.
pub proof fn lemma_seq_less_transitive(a: Seq<char>, b: Seq<char>, c: Seq<char>)
    requires
        seq_less(a, b),
        seq_less(b, c),
    ensures
        seq_less(a, c),
    decreases a.len(),
{
    if a.len() > 0 && b.len() > 0 && c.len() > 0 && a[0] == b[0] && b[0] == c[0] {
        lemma_seq_less_transitive(a.drop_first(), b.drop_first(), c.drop_first());
    }
}

/// Of two different sequences, one comes before the other.
pub proof fn lemma_seq_less_total(a: Seq<char>, b: Seq<char>)
    ensures
        a == b || seq_less(a, b) || seq_less(b, a),
    decreases a.len(),
{
    if a.len() > 0 && b.len() > 0 {
        if a[0] == b[0] {
            lemma_seq_less_total(a.drop_first(), b.drop_first());
            if a.drop_first() == b.drop_first() {
                assert(a =~= seq![a[0]] + a.drop_first());
                assert(b =~= seq![b[0]] + b.drop_first());
            }
        } else {
        }
    } else if a.len() == 0 && b.len() == 0 {
        assert(a =~= b);
    }
}

/// Appends one character to a `String`.
#[verifier::external_body]
pub(crate) fn push_char(s: &mut String, c: char)
    ensures
        final(s)@ == old(s)@.push(c),
{
    s.push(c);
}

/// The characters of `s`, in order.
pub fn chars_of(s: &str) -> (v: Vec<char>)
    ensures
        v@ == s@,
{
    broadcast use vstd::string::group_string_axioms;

    let mut v: Vec<char> = Vec::new();
    for c in it: s.chars()
        invariant
            v@ == it.seq().take(it.index() as int),
    {
        v.push(c);
    }
    v
}

/// Whether two string slices hold the same characters.
pub fn str_eq(a: &str, b: &str) -> (r: bool)
    ensures
        r == (a@ == b@),
{
    let sa: String = a.to_owned();
    let sb: String = b.to_owned();
    sa == sb
}

/// The concatenation of `a` and `b` as a new `String`.
pub fn concat2(a: &str, b: &str) -> (r: String)
    ensures
        r@ == a@ + b@,
{
    let mut s = String::from_str(a);
    s.append(b);
    s
}

/// Whether `p` occurs in `s` at position `i`, where it fits.
fn occurs_at_vec(s: &Vec<char>, p: &Vec<char>, i: usize) -> (r: bool)
    requires
        i + p@.len() <= s@.len(),
    ensures
        r == occurs_at(s@, p@, i as int),
{
    let mut j: usize = 0;
    let sl = s.len();
    while j < p.len()
        invariant
            sl == s@.len(),
            i + p@.len() <= s@.len(),
            j <= p@.len(),
            forall|k: int| 0 <= k < j ==> s@[i + k] == p@[k],
        decreases p@.len() - j,
    {
        assert(i + j < s@.len());
        if s[i + j] != p[j] {
            assert(s@.subrange(i as int, i + p@.len())[j as int] != p@[j as int]);
            return false;
        }
        j = j + 1;
    }
    assert(s@.subrange(i as int, i + p@.len()) =~= p@);
    true
}

/// Whether `pat` occurs somewhere in `s`.
pub fn str_contains(s: &str, pat: &str) -> (r: bool)
    ensures
        r == contains_seq(s@, pat@),
{
    let sv = chars_of(s);
    let pv = chars_of(pat);
    if pv.len() > sv.len() {
        assert forall|i: int| !occurs_at(s@, pat@, i) by {}
        return false;
    }
    if pv.len() == 0 {
        assert(s@.subrange(0, 0) =~= pat@);
        assert(occurs_at(s@, pat@, 0));
        return true;
    }
    let end = sv.len() - pv.len() + 1;
    let mut i: usize = 0;
    while i < end
        invariant
            sv@ == s@,
            pv@ == pat@,
            end + pv@.len() == sv@.len() + 1,
            i <= end,
            forall|k: int| 0 <= k < i ==> !occurs_at(s@, pat@, k),
        decreases end - i,
    {
        if occurs_at_vec(&sv, &pv, i) {
            return true;
        }
        i = i + 1;
    }
    false
}

/// Whether `s` starts with `p`.
pub fn str_starts_with(s: &str, p: &str) -> (r: bool)
    ensures
        r == has_prefix(s@, p@),
{
    let sv = chars_of(s);
    let pv = chars_of(p);
    if pv.len() > sv.len() {
        return false;
    }
    occurs_at_vec(&sv, &pv, 0)
}

/// Whether `a` comes strictly before `b` in lexicographic code-point order.
pub fn chars_less(a: &Vec<char>, b: &Vec<char>) -> (r: bool)
    ensures
        r == seq_less(a@, b@),
{
    let mut i: usize = 0;
    assert(a@.skip(0) =~= a@);
    assert(b@.skip(0) =~= b@);
    while i < a.len() && i < b.len()
        invariant
            i <= a@.len(),
            i <= b@.len(),
            seq_less(a@, b@) == seq_less(a@.skip(i as int), b@.skip(i as int)),
        decreases a@.len() - i,
    {
        let x = a[i];
        let y = b[i];
        if x != y {
            assert(a@.skip(i as int)[0] == x);
            assert(b@.skip(i as int)[0] == y);
            return x < y;
        }
        assert(a@.skip(i as int).drop_first() =~= a@.skip(i + 1));
        assert(b@.skip(i as int).drop_first() =~= b@.skip(i + 1));
        i = i + 1;
    }
    i < b.len()
}

/// The decimal digit character for `d`, which is below ten.
pub open spec fn digit_char(d: int) -> char {
    if d == 0 {
        '0'
    } else if d == 1 {
        '1'
    } else if d == 2 {
        '2'
    } else if d == 3 {
        '3'
    } else if d == 4 {
        '4'
    } else if d == 5 {
        '5'
    } else if d == 6 {
        '6'
    } else if d == 7 {
        '7'
    } else if d == 8 {
        '8'
    } else {
        '9'
    }
}

/// The decimal rendering of a natural number, without leading zeros.
pub open spec fn nat_decimal(n: nat) -> Seq<char>
    decreases n,
{
    if n < 10 {
        seq![digit_char(n as int)]
    } else {
        nat_decimal(n / 10).push(digit_char((n % 10) as int))
    }
}

/// The decimal rendering of an integer, with a leading `-` when negative.
pub open spec fn int_decimal(n: int) -> Seq<char> {
    if n < 0 {
        seq!['-'] + nat_decimal((-n) as nat)
    } else {
        nat_decimal(n as nat)
    }
}

fn digit_to_char(d: u128) -> (c: char)
    requires
        d < 10,
    ensures
        c == digit_char(d as int),
{
    match d {
        0 => '0',
        1 => '1',
        2 => '2',
        3 => '3',
        4 => '4',
        5 => '5',
        6 => '6',
        7 => '7',
        8 => '8',
        _ => '9',
    }
}

/// Appends the decimal rendering of `n` to `s`.
pub fn push_decimal_u128(s: &mut String, n: u128)
    ensures
        final(s)@ == old(s)@ + nat_decimal(n as nat),
    decreases n,
{
    if n >= 10 {
        push_decimal_u128(s, n / 10);
    }
    let c = digit_to_char(n % 10);
    push_char(s, c);
}

/// Appends the decimal rendering of `n` to `s`.
pub fn push_decimal_i64(s: &mut String, n: i64)
    ensures
        final(s)@ == old(s)@ + int_decimal(n as int),
{
    if n < 0 {
        push_char(s, '-');
        let m: i128 = -(n as i128);
        push_decimal_u128(s, m as u128);
        assert(final(s)@ =~= old(s)@ + int_decimal(n as int));
    } else {
        push_decimal_u128(s, n as u128);
    }
}

/// The decimal rendering of `n`.
pub fn decimal_i64(n: i64) -> (r: String)
    ensures
        r@ == int_decimal(n as int),
{
    let mut s = String::new();
    push_decimal_i64(&mut s, n);
    assert(s@ =~= int_decimal(n as int));
    s
}

/// The character view of an optional string.
pub open spec fn opt_view(o: Option<String>) -> Option<Seq<char>> {
    match o {
        Some(s) => Some(s@),
        None => None,
    }
}

/// The character views of a sequence of strings.
pub open spec fn strings_view(v: Seq<String>) -> Seq<Seq<char>> {
    v.map_values(|s: String| s@)
}

/// Viewing a list of strings after a push is viewing it before, then the
/// new string.
pub proof fn lemma_strings_view_push(v: Seq<String>, s: String)
    ensures
        strings_view(v.push(s)) == strings_view(v).push(s@),
{
    assert(strings_view(v.push(s)) =~= strings_view(v).push(s@));
}

/// Each entry comes strictly before the next one; so no entry repeats.
pub open spec fn strictly_sorted(s: Seq<Seq<char>>) -> bool {
    forall|i: int, j: int| 0 <= i < j < s.len() ==> seq_less(s[i], s[j])
}

/// Inserts `s` into a strictly sorted list of strings, unless it is there.
pub(crate) fn insert_sorted_unique(v: &mut Vec<String>, s: String)
    requires
        strictly_sorted(strings_view(old(v)@)),
    ensures
        strictly_sorted(strings_view(final(v)@)),
        strings_view(final(v)@).to_set() == strings_view(old(v)@).to_set().insert(s@),
{
    let ghost sv = s@;
    let ghost old_view = strings_view(v@);
    let key = chars_of(s.as_str());
    let mut j: usize = 0;
    let mut done = false;
    while j < v.len() && !done
        invariant
            strings_view(v@) == old_view,
            strictly_sorted(old_view),
            key@ == sv,
            j <= v@.len(),
            forall|k: int| 0 <= k < j ==> seq_less(#[trigger] old_view[k], sv),
            done ==> j < v@.len() && !seq_less(old_view[j as int], sv),
        decreases v@.len() - j + (if done { 0int } else { 1int }),
    {
        let here = chars_of(v[j].as_str());
        if !chars_less(&here, &key) {
            done = true;
        } else {
            j = j + 1;
        }
    }
    if j < v.len() {
        let here = chars_of(v[j].as_str());
        if !chars_less(&key, &here) {
            proof {
                lemma_seq_less_total(old_view[j as int], sv);
                assert(old_view[j as int] == sv);
                assert(old_view.to_set().insert(sv) =~= old_view.to_set());
            }
            return;
        }
    }
    proof {
        assert forall|k: int| j <= k < old_view.len() implies seq_less(sv, #[trigger] old_view[k]) by {
            if j < k {
                lemma_seq_less_transitive(sv, old_view[j as int], old_view[k]);
            }
        }
    }
    v.insert(j, s);
    proof {
        lemma_sorted_insert(old_view, j as int, sv);
        assert(strings_view(v@) =~= old_view.insert(j as int, sv));
    }
}

/// The number of bytes that `c` takes in UTF-8.
pub open spec fn utf8_width(c: char) -> nat {
    if (c as u32) < 0x80 {
        1
    } else if (c as u32) < 0x800 {
        2
    } else if (c as u32) < 0x10000 {
        3
    } else {
        4
    }
}

/// The number of bytes that `s` takes in UTF-8.
pub open spec fn utf8_len(s: Seq<char>) -> nat
    decreases s.len(),
{
    if s.len() == 0 {
        0
    } else {
        utf8_len(s.drop_last()) + utf8_width(s.last())
    }
}

/// `k` leading characters of `s` fit in `n` bytes of UTF-8, and one more
/// would not (or there is none).
pub open spec fn fits_exactly(s: Seq<char>, n: nat, k: int) -> bool {
    &&& 0 <= k <= s.len()
    &&& utf8_len(s.subrange(0, k)) <= n
    &&& k < s.len() ==> utf8_len(s.subrange(0, k + 1)) > n
}

/// The longest run of leading characters of `s` whose UTF-8 form fits in
/// `n` bytes: `s` cut at the last character boundary at or below byte `n`.
pub open spec fn byte_prefix(s: Seq<char>, n: nat) -> Seq<char> {
    s.subrange(0, choose|k: int| #[trigger] fits_exactly(s, n, k))
}

fn char_utf8_width(c: char) -> (w: usize)
    ensures
        w == utf8_width(c),
{
    let v = c as u32;
    if v < 0x80 {
        1
    } else if v < 0x800 {
        2
    } else if v < 0x10000 {
        3
    } else {
        4
    }
}

proof fn lemma_utf8_len_step(s: Seq<char>, k: int)
    requires
        0 <= k < s.len(),
    ensures
        utf8_len(s.subrange(0, k + 1)) == utf8_len(s.subrange(0, k)) + utf8_width(s[k]),
{
    assert(s.subrange(0, k + 1).drop_last() =~= s.subrange(0, k));
}

proof fn lemma_utf8_len_grows(s: Seq<char>, j: int, k: int)
    requires
        0 <= j < k <= s.len(),
    ensures
        utf8_len(s.subrange(0, j)) < utf8_len(s.subrange(0, k)),
    decreases k - j,
{
    lemma_utf8_len_step(s, k - 1);
    if j < k - 1 {
        lemma_utf8_len_grows(s, j, k - 1);
    }
}

/// `s` cut to at most `max` bytes, where it is longer, at the last
/// character boundary at or below byte `max`, and whether it was cut.
pub fn truncate_bytes(s: &str, max: usize) -> (r: (String, bool))
    ensures
        r.1 == (utf8_len(s@) > max),
        r.0@ == (if utf8_len(s@) <= max {
            s@
        } else {
            byte_prefix(s@, max as nat)
        }),
{
    let chars = chars_of(s);
    let mut out = String::new();
    let mut bytes: usize = 0;
    let mut i: usize = 0;
    while i < chars.len()
        invariant
            chars@ == s@,
            i <= chars@.len(),
            bytes == utf8_len(s@.subrange(0, i as int)),
            bytes <= max,
            out@ == s@.subrange(0, i as int),
        decreases chars@.len() - i,
    {
        let w = char_utf8_width(chars[i]);
        if w > max - bytes {
            proof {
                lemma_utf8_len_step(s@, i as int);
                assert(utf8_len(s@.subrange(0, i + 1)) > max);
                if i + 1 < s@.len() {
                    lemma_utf8_len_grows(s@, i + 1, s@.len() as int);
                }
                assert(s@.subrange(0, s@.len() as int) =~= s@);
                assert(utf8_len(s@) > max);
                assert(fits_exactly(s@, max as nat, i as int));
                let k = choose|k: int| #[trigger] fits_exactly(s@, max as nat, k);
                if k < i {
                    if k + 1 < i {
                        lemma_utf8_len_grows(s@, k + 1, i as int);
                    }
                } else if k > i {
                    if k > i + 1 {
                        lemma_utf8_len_grows(s@, i + 1, k);
                    }
                }
                assert(k == i);
            }
            return (out, true);
        }
        push_char(&mut out, chars[i]);
        proof {
            lemma_utf8_len_step(s@, i as int);
            assert(out@ =~= s@.subrange(0, i + 1));
        }
        bytes = bytes + w;
        i = i + 1;
    }
    assert(s@.subrange(0, s@.len() as int) =~= s@);
    (out, false)
}

/// A strictly sorted list has as many entries as the set of its entries.
pub proof fn lemma_sorted_set_len(s: Seq<Seq<char>>)
    requires
        strictly_sorted(s),
    ensures
        s.to_set().len() == s.len(),
{
    assert forall|i: int, j: int| 0 <= i < s.len() && 0 <= j < s.len() && i != j implies s[i] != s[j] by {
        if i < j {
            lemma_seq_less_irreflexive(s[i]);
        } else {
            lemma_seq_less_irreflexive(s[j]);
        }
    }
    s.unique_seq_to_set();
}

/// A copy of an optional string.
pub fn clone_opt_string(o: &Option<String>) -> (r: Option<String>)
    ensures
        opt_view(r) == opt_view(*o),
{
    match o {
        Some(s) => Some(s.clone()),
        None => None,
    }
}

/// Inserting a key at the position that keeps the order keeps a strictly
/// sorted list strictly sorted, and adds the key to its set.
pub proof fn lemma_sorted_insert(old_view: Seq<Seq<char>>, j: int, sv: Seq<char>)
    requires
        strictly_sorted(old_view),
        0 <= j <= old_view.len(),
        forall|k: int| 0 <= k < j ==> seq_less(#[trigger] old_view[k], sv),
        forall|k: int| j <= k < old_view.len() ==> seq_less(sv, #[trigger] old_view[k]),
    ensures
        strictly_sorted(old_view.insert(j, sv)),
        old_view.insert(j, sv).to_set() == old_view.to_set().insert(sv),
{
    let nv = old_view.insert(j, sv);
    assert forall|a: int, b: int| 0 <= a < b < nv.len() implies seq_less(nv[a], nv[b]) by {
        if b < j {
        } else if a < j && b == j {
        } else if a < j && b > j {
            assert(seq_less(sv, old_view[b - 1]));
            lemma_seq_less_transitive(nv[a], sv, nv[b]);
        } else if a == j {
            assert(seq_less(sv, old_view[b - 1]));
        } else {
        }
    }
    assert forall|x: Seq<char>| nv.to_set().contains(x) <==> old_view.to_set().insert(sv).contains(x) by {
        if nv.to_set().contains(x) {
            let k = choose|k: int| 0 <= k < nv.len() && nv[k] == x;
            if k < j {
                assert(old_view[k] == x);
            } else if k > j {
                assert(old_view[k - 1] == x);
            }
        }
        if old_view.to_set().contains(x) && x != sv {
            let k = choose|k: int| 0 <= k < old_view.len() && old_view[k] == x;
            if k < j {
                assert(nv[k] == x);
            } else {
                assert(nv[k + 1] == x);
            }
        }
        if x == sv {
            assert(nv[j] == x);
        }
    }
    assert(nv.to_set() =~= old_view.to_set().insert(sv));
}

} // verus!
