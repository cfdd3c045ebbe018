//! Text helpers over the character sequences that Verus gives strings as views.

use vstd::prelude::*;

verus! {

/// `needle` occurs in `haystack` as a run of consecutive characters.
/// The empty needle occurs in every haystack.
pub open spec fn seq_contains(haystack: Seq<char>, needle: Seq<char>) -> bool {
    exists|i: int|
        0 <= i <= haystack.len() - needle.len() && #[trigger] haystack.subrange(
            i,
            i + needle.len(),
        ) == needle
}

/// The parts, in order, with `sep` between each two neighbours.
pub open spec fn seq_join(parts: Seq<Seq<char>>, sep: Seq<char>) -> Seq<char>
    decreases parts.len(),
{
    if parts.len() == 0 {
        Seq::empty()
    } else if parts.len() == 1 {
        parts[0]
    } else {
        seq_join(parts.drop_last(), sep) + sep + parts.last()
    }
}

/// The characters of each string.
pub open spec fn texts(strings: Seq<String>) -> Seq<Seq<char>> {
    strings.map_values(|s: String| s@)
}

/// The decimal digit for `d`, which is below ten.
pub open spec fn digit_char(d: nat) -> char {
    if d == 0 {
        '0'
    } else if d == 1 {
        '1'
    } else if d == 2 {
        '2'
    } else if d == 3 {
        '3'
    } else if d == 4 {
        '4'
    } else if d == 5 {
        '5'
    } else if d == 6 {
        '6'
    } else if d == 7 {
        '7'
    } else if d == 8 {
        '8'
    } else {
        '9'
    }
}

/// `n` written in decimal, without leading zeros.
pub open spec fn decimal(n: nat) -> Seq<char>
    decreases n,
{
    if n < 10 {
        seq![digit_char(n)]
    } else {
        decimal(n / 10) + seq![digit_char(n % 10)]
    }
}

/// `w` stands in `s` at `i` between spaces (or the ends of `s`).
pub open spec fn word_at(s: Seq<char>, w: Seq<char>, i: int) -> bool {
    &&& 0 <= i
    &&& i + w.len() <= s.len()
    &&& s.subrange(i, i + w.len()) == w
    &&& (i == 0 || s[i - 1] == ' ')
    &&& (i + w.len() == s.len() || s[i + w.len()] == ' ')
}

/// `w` stands somewhere in `s` between spaces (or the ends of `s`): where `w` has no
/// space, it is one of the space-separated words of `s`.
pub open spec fn has_word(s: Seq<char>, w: Seq<char>) -> bool {
    exists|i: int| #[trigger] word_at(s, w, i)
}

/// A word of `a` stays a word when `b`, empty or starting with a space, follows.
pub proof fn lemma_word_extend_right(a: Seq<char>, b: Seq<char>, w: Seq<char>)
    requires
        has_word(a, w),
        b.len() == 0 || b[0] == ' ',
    ensures
        has_word(a + b, w),
{
    let i = choose|i: int| #[trigger] word_at(a, w, i);
    assert((a + b).subrange(i, i + w.len()) =~= a.subrange(i, i + w.len()));
    if i > 0 {
        assert((a + b)[i - 1] == a[i - 1]);
    }
    if i + w.len() < a.len() {
        assert((a + b)[i + w.len()] == a[i + w.len()]);
    } else if b.len() > 0 {
        assert((a + b)[i + w.len()] == b[0]);
    }
    assert(word_at(a + b, w, i));
}

/// A word of `b` stays a word when `a`, empty or ending with a space, goes before.
pub proof fn lemma_word_extend_left(a: Seq<char>, b: Seq<char>, w: Seq<char>)
    requires
        has_word(b, w),
        a.len() == 0 || a.last() == ' ',
    ensures
        has_word(a + b, w),
{
    let i = choose|i: int| #[trigger] word_at(b, w, i);
    let j = i + a.len();
    assert((a + b).subrange(j, j + w.len()) =~= b.subrange(i, i + w.len()));
    if i > 0 {
        assert((a + b)[j - 1] == b[i - 1]);
    } else if a.len() > 0 {
        assert((a + b)[j - 1] == a.last());
    }
    if i + w.len() < b.len() {
        assert((a + b)[j + w.len()] == b[i + w.len()]);
    }
    assert(word_at(a + b, w, j));
}

/// Every part stands between spaces in the parts joined by a single space.
pub proof fn lemma_join_word(parts: Seq<Seq<char>>, k: int)
    requires
        0 <= k < parts.len(),
    ensures
        has_word(seq_join(parts, " "@), parts[k]),
    decreases parts.len(),
{
    reveal_strlit(" ");
    let x = parts[k];
    let zero: int = 0;
    assert(x.subrange(zero, zero + x.len()) =~= x);
    assert(word_at(x, x, 0));
    if parts.len() > 1 {
        let front = seq_join(parts.drop_last(), " "@);
        assert(seq_join(parts, " "@) == front + " "@ + parts.last());
        if k == parts.len() - 1 {
            lemma_word_extend_left(front + " "@, x, x);
        } else {
            assert(parts.drop_last()[k] == x);
            lemma_join_word(parts.drop_last(), k);
            lemma_word_extend_right(front, " "@ + parts.last(), x);
            assert(front + (" "@ + parts.last()) =~= front + " "@ + parts.last());
        }
    }
}

/// A run stands in any text that has it between two others.
pub proof fn lemma_contains_middle(a: Seq<char>, x: Seq<char>, b: Seq<char>)
    ensures
        seq_contains(a + x + b, x),
{
    let at: int = a.len() as int;
    assert((a + x + b).subrange(at, at + x.len()) =~= x);
}

/// Nothing but the empty run is found in the empty sequence.
pub proof fn lemma_empty_contains_nothing(x: Seq<char>)
    requires
        x.len() > 0,
    ensures
        !seq_contains(Seq::empty(), x),
{
}

/// Appends one character to a string: `String::push` of std.
#[verifier::external_body]
pub(crate) fn push_char(s: &mut String, c: char)
    ensures
        final(s)@ == old(s)@.push(c),
{
    s.push(c);
}

/// The characters of `s`, in order.
pub fn chars_of(s: &str) -> (v: Vec<char>)
    ensures
        v@ == s@,
{
    let mut v: Vec<char> = Vec::new();
    for c in it: s.chars()
        invariant
            v@ == it.seq().take(it.index() as int),
    {
        v.push(c);
    }
    v
}


/// Whether `needle` occurs in `haystack` (std's `str::contains` on a string pattern).
pub fn text_contains(haystack: &str, needle: &str) -> (found: bool)
    ensures
        found == seq_contains(haystack@, needle@),
{
    let h = chars_of(haystack);
    let n = chars_of(needle);
    if n.len() > h.len() {
        return false;
    }
    let last = h.len() - n.len();
    let mut i: usize = 0;
    while i <= last
        invariant
            h@ == haystack@,
            n@ == needle@,
            n.len() <= h.len(),
            last == h.len() - n.len(),
            i <= last + 1,
            forall|k: int| 0 <= k < i ==> #[trigger] h@.subrange(k, k + n.len()) != n@,
        decreases last + 1 - i,
    {
        let mut j: usize = 0;
        while j < n.len() && h[i + j] == n[j]
            invariant
                h@ == haystack@,
                n@ == needle@,
                n.len() <= h.len(),
                i <= last,
                last == h.len() - n.len(),
                j <= n.len(),
                forall|m: int| 0 <= m < j ==> h@[i + m] == n@[m],
            decreases n.len() - j,
        {
            j = j + 1;
        }
        if j == n.len() {
            assert(h@.subrange(i as int, i + n.len()) =~= n@);
            return true;
        }
        assert(h@.subrange(i as int, i + n.len())[j as int] != n@[j as int]);
        i = i + 1;
    }
    proof {
        assert forall|k: int| 0 <= k <= h@.len() - n@.len() implies #[trigger] h@.subrange(
            k,
            k + n@.len(),
        ) != n@ by {
            assert(k < i);
        }
    }
    false
}

/// Whether the two strings hold the same characters.
pub fn same_text(a: &str, b: &str) -> (same: bool)
    ensures
        same == (a@ == b@),
{
    let x = String::from_str(a);
    let y = String::from_str(b);
    x == y
}

/// The strings of `parts` with `sep` between each two neighbours
/// (std's `join` on a slice of strings).
pub fn join(parts: &Vec<String>, sep: &str) -> (joined: String)
    ensures
        joined@ == seq_join(texts(parts@), sep@),
{
    let mut joined = String::new();
    let ghost all = texts(parts@);
    for i in 0..parts.len()
        invariant
            all == texts(parts@),
            joined@ == seq_join(all.take(i as int), sep@),
    {
        assert(all.take(i + 1).drop_last() =~= all.take(i as int));
        if i != 0 {
            joined.append(sep);
        }
        joined.append(parts[i].as_str());
    }
    assert(all.take(parts.len() as int) =~= all);
    joined
}

/// The decimal digit for `d` as a character.
fn digit(d: u32) -> (c: char)
    requires
        d < 10,
    ensures
        c == digit_char(d as nat),
{
    match d {
        0 => '0',
        1 => '1',
        2 => '2',
        3 => '3',
        4 => '4',
        5 => '5',
        6 => '6',
        7 => '7',
        8 => '8',
        _ => '9',
    }
}

/// `n` written in decimal (std's `Display` of an unsigned integer).
pub fn decimal_string(n: u32) -> (s: String)
    ensures
        s@ == decimal(n as nat),
    decreases n,
{
    if n < 10 {
        let mut s = String::new();
        push_char(&mut s, digit(n));
        assert(s@ =~= decimal(n as nat));
        s
    } else {
        let mut s = decimal_string(n / 10);
        push_char(&mut s, digit(n % 10));
        s
    }
}

} // verus!
