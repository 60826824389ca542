use vstd::prelude::*;

verus! {

/// Whether a character has the Unicode White_Space property.
pub open spec fn white(c: char) -> bool {
    let u = c as u32;
    (0x9 <= u <= 0xd) || u == 0x20 || u == 0x85 || u == 0xa0 || u == 0x1680 || (0x2000 <= u
        <= 0x200a) || u == 0x2028 || u == 0x2029 || u == 0x202f || u == 0x205f || u == 0x3000
}

/// Whether a character has the Unicode White_Space property.
pub fn is_white(c: char) -> (r: bool)
    ensures
        r == white(c),
{
    let u = c as u32;
    (0x9 <= u && u <= 0xd) || u == 0x20 || u == 0x85 || u == 0xa0 || u == 0x1680 || (0x2000 <= u
        && u <= 0x200a) || u == 0x2028 || u == 0x2029 || u == 0x202f || u == 0x205f || u == 0x3000
}

/// Relies on `str::chars`: the characters of `s`, in order.
#[verifier::external_body]
pub(crate) fn chars_of(s: &str) -> (r: Vec<char>)
    ensures
        r@ == s@,
{
    s.chars().collect()
}

/// Relies on `str::contains` with a `&str` pattern: whether `needle` occurs as a
/// contiguous part of `hay`.
#[verifier::external_body]
pub(crate) fn contains_text(hay: &str, needle: &str) -> (r: bool)
    ensures
        r == occurs_in(needle@, hay@),
{
    hay.contains(needle)
}

/// `needle` occurs somewhere in `hay` as a contiguous run of characters.
pub open spec fn occurs_in(needle: Seq<char>, hay: Seq<char>) -> bool {
    exists|i: int| 0 <= i && i + needle.len() <= hay.len() && #[trigger] hay.subrange(i, i + needle.len()) == needle
}

/// The views of a sequence of character vectors.
pub open spec fn seqs_of(v: Seq<Vec<char>>) -> Seq<Seq<char>> {
    v.map_values(|w: Vec<char>| w@)
}

/// Index of the first non-whitespace character at or after `i`, or the length.
pub open spec fn skip_white(t: Seq<char>, i: int) -> int
    decreases t.len() - i,
{
    if i >= t.len() {
        t.len() as int
    } else if white(t[i]) {
        skip_white(t, i + 1)
    } else {
        i
    }
}

/// Length of `t.take(j)` once its trailing whitespace is dropped.
pub open spec fn end_of_text(t: Seq<char>, j: int) -> int
    decreases j,
{
    if j <= 0 {
        0
    } else if white(t[j - 1]) {
        end_of_text(t, j - 1)
    } else {
        j
    }
}

/// `t` without leading or trailing whitespace.
pub open spec fn trim(t: Seq<char>) -> Seq<char> {
    let u = trim_start(t);
    u.take(end_of_text(u, u.len() as int))
}

/// Relies on `str::trim`: `s` without leading and trailing characters of the
/// Unicode White_Space property.
#[verifier::external_body]
pub(crate) fn trim_text(s: &str) -> (r: &str)
    ensures
        r@ == trim(s@),
{
    s.trim()
}

/// Whether two strings hold the same characters.
pub fn text_eq(a: &str, b: &str) -> (r: bool)
    ensures
        r == (a@ == b@),
{
    let x = chars_of(a);
    let y = chars_of(b);
    same_chars(&x, &y)
}

/// `t` without its leading whitespace.
pub open spec fn trim_start(t: Seq<char>) -> Seq<char> {
    t.skip(skip_white(t, 0))
}

/// Whitespace-separated words of `t` from position `i` on, where `cur` is the
/// word being read at `i`.
pub open spec fn words_acc(t: Seq<char>, i: int, cur: Seq<char>) -> Seq<Seq<char>>
    decreases t.len() - i,
{
    if i >= t.len() {
        if cur.len() > 0 {
            seq![cur]
        } else {
            seq![]
        }
    } else if white(t[i]) {
        if cur.len() > 0 {
            seq![cur] + words_acc(t, i + 1, seq![])
        } else {
            words_acc(t, i + 1, seq![])
        }
    } else {
        words_acc(t, i + 1, cur.push(t[i]))
    }
}

/// The non-empty whitespace-separated words of `t`, in order.
pub open spec fn words(t: Seq<char>) -> Seq<Seq<char>> {
    words_acc(t, 0, seq![])
}

/// Segments of `s` between newlines from position `i` on, where `cur` is the
/// segment being read at `i`.
pub open spec fn lines_acc(s: Seq<char>, i: int, cur: Seq<char>) -> Seq<Seq<char>>
    decreases s.len() - i,
{
    if i >= s.len() {
        seq![cur]
    } else if s[i] == '\n' {
        seq![cur] + lines_acc(s, i + 1, seq![])
    } else {
        lines_acc(s, i + 1, cur.push(s[i]))
    }
}

/// The segments of `s` between newlines, in order.
pub open spec fn lines(s: Seq<char>) -> Seq<Seq<char>> {
    lines_acc(s, 0, seq![])
}

/// The words that follow `key` on a line that starts with `key` once its leading
/// whitespace is dropped; none on any other line.
pub open spec fn entries_of(line: Seq<char>, key: Seq<char>) -> Seq<Seq<char>> {
    let t = trim_start(line);
    if key.is_prefix_of(t) {
        words(t.skip(key.len() as int))
    } else {
        seq![]
    }
}

pub open spec fn entries_from(ls: Seq<Seq<char>>, k: int, key: Seq<char>) -> Seq<Seq<char>>
    decreases ls.len() - k,
{
    if k >= ls.len() || k < 0 {
        seq![]
    } else {
        entries_of(ls[k], key) + entries_from(ls, k + 1, key)
    }
}

/// All words listed under `key` in a line-oriented listing, in order.
pub open spec fn listing_entries(raw: Seq<char>, key: Seq<char>) -> Seq<Seq<char>> {
    entries_from(lines(raw), 0, key)
}

/// Splits `t` into its whitespace-separated words.
pub fn split_words(t: &Vec<char>) -> (r: Vec<Vec<char>>)
    ensures
        seqs_of(r@) == words(t@),
{
    let mut res: Vec<Vec<char>> = Vec::new();
    let mut cur: Vec<char> = Vec::new();
    let mut i: usize = 0;
    while i < t.len()
        invariant
            i <= t@.len(),
            seqs_of(res@) + words_acc(t@, i as int, cur@) == words(t@),
        decreases t@.len() - i,
    {
        let c = t[i];
        if is_white(c) {
            if cur.len() > 0 {
                let ghost before = seqs_of(res@);
                let ghost w = cur@;
                res.push(cur);
                cur = Vec::new();
                assert(seqs_of(res@) =~= before.push(w));
                assert(before + (seq![w] + words_acc(t@, i + 1, seq![])) =~= before.push(w)
                    + words_acc(t@, i + 1, seq![]));
            }
            assert(cur@ =~= seq![]);
        } else {
            cur.push(c);
        }
        i = i + 1;
    }
    if cur.len() > 0 {
        let ghost before = seqs_of(res@);
        let ghost w = cur@;
        res.push(cur);
        assert(seqs_of(res@) =~= before.push(w));
        assert(before + seq![w] =~= before.push(w));
    } else {
        assert(seqs_of(res@) + seq![] =~= seqs_of(res@));
    }
    res
}

/// Splits `s` into its segments between newlines.
pub fn split_lines(s: &Vec<char>) -> (r: Vec<Vec<char>>)
    ensures
        seqs_of(r@) == lines(s@),
{
    let mut res: Vec<Vec<char>> = Vec::new();
    let mut cur: Vec<char> = Vec::new();
    let mut i: usize = 0;
    while i < s.len()
        invariant
            i <= s@.len(),
            seqs_of(res@) + lines_acc(s@, i as int, cur@) == lines(s@),
        decreases s@.len() - i,
    {
        let c = s[i];
        if c == '\n' {
            let ghost before = seqs_of(res@);
            let ghost w = cur@;
            res.push(cur);
            cur = Vec::new();
            assert(seqs_of(res@) =~= before.push(w));
            assert(before + (seq![w] + lines_acc(s@, i + 1, seq![])) =~= before.push(w)
                + lines_acc(s@, i + 1, seq![]));
            assert(cur@ =~= seq![]);
        } else {
            cur.push(c);
        }
        i = i + 1;
    }
    let ghost before = seqs_of(res@);
    let ghost w = cur@;
    res.push(cur);
    assert(seqs_of(res@) =~= before.push(w));
    assert(before + seq![w] =~= before.push(w));
    res
}

/// The characters of `t` from position `start` on.
fn tail_of(t: &Vec<char>, start: usize) -> (r: Vec<char>)
    requires
        start <= t@.len(),
    ensures
        r@ == t@.skip(start as int),
{
    let mut r: Vec<char> = Vec::new();
    let mut i: usize = start;
    while i < t.len()
        invariant
            start <= i <= t@.len(),
            r@ == t@.subrange(start as int, i as int),
        decreases t@.len() - i,
    {
        r.push(t[i]);
        i = i + 1;
        assert(r@ =~= t@.subrange(start as int, i as int));
    }
    assert(r@ =~= t@.skip(start as int));
    r
}

/// Position of the first non-whitespace character of `t`.
fn first_non_white(t: &Vec<char>) -> (r: usize)
    ensures
        r == skip_white(t@, 0),
{
    let mut i: usize = 0;
    while i < t.len() && is_white(t[i])
        invariant
            i <= t@.len(),
            skip_white(t@, i as int) == skip_white(t@, 0),
        decreases t@.len() - i,
    {
        i = i + 1;
    }
    i
}

/// Whether `key` occurs in `t` at position `at`.
fn matches_at(t: &Vec<char>, at: usize, key: &Vec<char>) -> (r: bool)
    requires
        at <= t@.len(),
    ensures
        r == key@.is_prefix_of(t@.skip(at as int)),
{
    let n = t.len();
    if key.len() > n - at {
        return false;
    }
    let mut j: usize = 0;
    while j < key.len()
        invariant
            j <= key@.len(),
            n == t@.len(),
            at + key@.len() <= t@.len(),
            forall|k: int| 0 <= k < j ==> key@[k] == t@[at + k],
        decreases key@.len() - j,
    {
        if key[j] != t[at + j] {
            return false;
        }
        j = j + 1;
    }
    true
}

/// The words listed under `key` on one line.
pub fn line_entries(line: &Vec<char>, key: &Vec<char>) -> (r: Vec<Vec<char>>)
    ensures
        seqs_of(r@) == entries_of(line@, key@),
{
    let start = first_non_white(line);
    proof {
        lemma_skip_white_bound(line@, 0);
    }
    let trimmed = tail_of(line, start);
    if matches_at(&trimmed, 0, key) {
        assert(trimmed@.skip(0) =~= trimmed@);
        let rest = tail_of(&trimmed, key.len());
        split_words(&rest)
    } else {
        assert(trimmed@.skip(0) =~= trimmed@);
        let r: Vec<Vec<char>> = Vec::new();
        assert(seqs_of(r@) =~= seq![]);
        r
    }
}

proof fn lemma_skip_white_bound(t: Seq<char>, i: int)
    requires
        0 <= i,
    ensures
        i <= skip_white(t, i) <= t.len() || (i > t.len() && skip_white(t, i) == t.len()),
    decreases t.len() - i,
{
    if i < t.len() && white(t[i]) {
        lemma_skip_white_bound(t, i + 1);
    }
}

/// All words listed under `key` in a line-oriented listing.
pub fn listing_words(raw: &Vec<char>, key: &Vec<char>) -> (r: Vec<Vec<char>>)
    ensures
        seqs_of(r@) == listing_entries(raw@, key@),
{
    let ls = split_lines(raw);
    let mut res: Vec<Vec<char>> = Vec::new();
    let mut k: usize = 0;
    while k < ls.len()
        invariant
            k <= ls@.len(),
            seqs_of(ls@) == lines(raw@),
            seqs_of(res@) + entries_from(lines(raw@), k as int, key@) == listing_entries(
                raw@,
                key@,
            ),
        decreases ls@.len() - k,
    {
        let mut found = line_entries(&ls[k], key);
        let ghost before = seqs_of(res@);
        let ghost add = seqs_of(found@);
        assert(lines(raw@)[k as int] == ls@[k as int]@);
        res.append(&mut found);
        assert(seqs_of(res@) =~= before + add);
        assert(before + (add + entries_from(lines(raw@), k + 1, key@)) =~= (before + add)
            + entries_from(lines(raw@), k + 1, key@));
        k = k + 1;
    }
    assert(seqs_of(res@) + seq![] =~= seqs_of(res@));
    res
}

/// Whether `w` is one of the words in `list`.
pub fn has_word(list: &Vec<Vec<char>>, w: &Vec<char>) -> (r: bool)
    ensures
        r == seqs_of(list@).contains(w@),
{
    let mut i: usize = 0;
    while i < list.len()
        invariant
            i <= list@.len(),
            forall|k: int| 0 <= k < i ==> list@[k]@ != w@,
        decreases list@.len() - i,
    {
        if same_chars(&list[i], w) {
            assert(seqs_of(list@)[i as int] == w@);
            return true;
        }
        i = i + 1;
    }
    assert forall|k: int| 0 <= k < seqs_of(list@).len() implies seqs_of(list@)[k] != w@ by {
        assert(seqs_of(list@)[k] == list@[k]@);
    }
    false
}

/// Whether two character vectors hold the same characters.
pub fn same_chars(a: &Vec<char>, b: &Vec<char>) -> (r: bool)
    ensures
        r == (a@ == b@),
{
    if a.len() != b.len() {
        return false;
    }
    let mut i: usize = 0;
    while i < a.len()
        invariant
            i <= a@.len(),
            a@.len() == b@.len(),
            forall|k: int| 0 <= k < i ==> a@[k] == b@[k],
        decreases a@.len() - i,
    {
        if a[i] != b[i] {
            return false;
        }
        i = i + 1;
    }
    assert(a@ =~= b@);
    true
}

} // verus!
