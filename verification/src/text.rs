//! Text: trimming, splitting, joining and number formatting.
//!
//! A string is modelled by the sequence of its characters.

use vstd::prelude::*;

verus! {

/// The characters with the Unicode property `White_Space`.
pub open spec fn is_white_space(c: char) -> bool {
    ||| '\u{9}' <= c <= '\u{d}'
    ||| c == ' '
    ||| c == '\u{85}'
    ||| c == '\u{a0}'
    ||| c == '\u{1680}'
    ||| '\u{2000}' <= c <= '\u{200a}'
    ||| '\u{2028}' <= c <= '\u{2029}'
    ||| c == '\u{202f}'
    ||| c == '\u{205f}'
    ||| c == '\u{3000}'
}

/// `s` without the white space at its front.
pub open spec fn trim_front(s: Seq<char>) -> Seq<char>
    decreases s.len(),
{
    if s.len() > 0 && is_white_space(s[0]) {
        trim_front(s.skip(1))
    } else {
        s
    }
}

/// `s` without the white space at its back.
pub open spec fn trim_back(s: Seq<char>) -> Seq<char>
    decreases s.len(),
{
    if s.len() > 0 && is_white_space(s.last()) {
        trim_back(s.drop_last())
    } else {
        s
    }
}

/// `s` without the white space at either end.
pub open spec fn trimmed(s: Seq<char>) -> Seq<char> {
    trim_back(trim_front(s))
}

/// Whether nothing but white space is in `s`.
pub open spec fn is_blank(s: Seq<char>) -> bool {
    trimmed(s).len() == 0
}

/// Whether `c` has the Unicode property `White_Space`.
pub fn white_space(c: char) -> (r: bool)
    ensures
        r == is_white_space(c),
{
    ('\u{9}' <= c && c <= '\u{d}') || c == ' ' || c == '\u{85}' || c == '\u{a0}' || c == '\u{1680}'
        || ('\u{2000}' <= c && c <= '\u{200a}') || ('\u{2028}' <= c && c <= '\u{2029}') || c
        == '\u{202f}' || c == '\u{205f}' || c == '\u{3000}'
}

/// The characters of `s`, in order.
pub fn chars_of(s: &str) -> (r: Vec<char>)
    ensures
        r@ == s@,
{
    let mut r: Vec<char> = Vec::new();
    for c in it: s.chars()
        invariant
            it.seq() == s@,
            r@ == s@.take(it.index()),
    {
        proof {
            assert(s@.take(it.index() + 1) =~= s@.take(it.index()).push(c));
        }
        r.push(c);
    }
    assert(s@.take(s@.len() as int) =~= s@);
    r
}

/// Whether `a` and `b` are the same text.
pub fn same_text(a: &str, b: &str) -> (r: bool)
    ensures
        r == (a@ == b@),
{
    a.to_owned() == b.to_owned()
}

/// `s` without the white space at either end.
pub fn trim(s: &str) -> (r: &str)
    ensures
        r@ == trimmed(s@),
{
    let cs = chars_of(s);
    let mut start: usize = 0;
    assert(cs@.skip(0) =~= cs@);
    while start < cs.len() && white_space(cs[start])
        invariant
            start <= cs.len(),
            trim_front(cs@) == trim_front(cs@.skip(start as int)),
        decreases cs.len() - start,
    {
        assert(cs@.skip(start as int).skip(1) =~= cs@.skip(start + 1));
        start += 1;
    }
    let ghost front = cs@.skip(start as int);
    assert(trim_front(cs@) == front);
    let mut end: usize = cs.len();
    assert(cs@.subrange(start as int, end as int) =~= front);
    while end > start && white_space(cs[end - 1])
        invariant
            start <= end <= cs.len(),
            trim_back(front) == trim_back(cs@.subrange(start as int, end as int)),
        decreases end,
    {
        assert(cs@.subrange(start as int, end as int).drop_last() =~= cs@.subrange(
            start as int,
            end - 1,
        ));
        end -= 1;
    }
    s.substring_char(start, end)
}

/// Whether nothing but white space is in `s`.
pub fn blank(s: &str) -> (r: bool)
    ensures
        r == is_blank(s@),
{
    trim(s).is_empty()
}

/// `c`, or the small letter for it if it is a capital letter of ASCII.
pub open spec fn ascii_lower(c: char) -> char {
    if 'A' <= c <= 'Z' {
        ((c as u32) + 32) as char
    } else {
        c
    }
}

/// `s` with small letters for the capital letters of ASCII.
pub open spec fn lowered(s: Seq<char>) -> Seq<char> {
    s.map_values(|c: char| ascii_lower(c))
}

/// Whether two characters are the same, but for the case of ASCII letters.
fn same_letter(a: char, b: char) -> (r: bool)
    ensures
        r == (ascii_lower(a) == ascii_lower(b)),
{
    let x: u32 = if 'A' <= a && a <= 'Z' {
        a as u32 + 32
    } else {
        a as u32
    };
    let y: u32 = if 'A' <= b && b <= 'Z' {
        b as u32 + 32
    } else {
        b as u32
    };
    x == y
}

/// Whether two texts are the same, but for the case of ASCII letters.
pub fn eq_ignore_ascii_case(a: &str, b: &str) -> (r: bool)
    ensures
        r == (lowered(a@) == lowered(b@)),
{
    let xs = chars_of(a);
    let ys = chars_of(b);
    if xs.len() != ys.len() {
        assert(lowered(a@).len() != lowered(b@).len());
        return false;
    }
    let mut i: usize = 0;
    while i < xs.len()
        invariant
            i <= xs.len(),
            xs.len() == ys.len(),
            xs@ == a@,
            ys@ == b@,
            forall|k: int| 0 <= k < i ==> lowered(a@)[k] == lowered(b@)[k],
        decreases xs.len() - i,
    {
        if !same_letter(xs[i], ys[i]) {
            assert(lowered(a@)[i as int] != lowered(b@)[i as int]);
            return false;
        }
        i += 1;
    }
    assert(lowered(a@) =~= lowered(b@));
    true
}

/// `s` without the run of `c` at its front.
pub open spec fn without_front(s: Seq<char>, c: char) -> Seq<char>
    decreases s.len(),
{
    if s.len() > 0 && s[0] == c {
        without_front(s.skip(1), c)
    } else {
        s
    }
}

/// `s` without the run of `c` at its back.
pub open spec fn without_back(s: Seq<char>, c: char) -> Seq<char>
    decreases s.len(),
{
    if s.len() > 0 && s.last() == c {
        without_back(s.drop_last(), c)
    } else {
        s
    }
}

/// `s` without the run of `c` at its front.
pub fn trim_start_matches(s: &str, c: char) -> (r: &str)
    ensures
        r@ == without_front(s@, c),
{
    let cs = chars_of(s);
    let mut start: usize = 0;
    assert(cs@.skip(0) =~= cs@);
    while start < cs.len() && cs[start] == c
        invariant
            start <= cs.len(),
            without_front(cs@, c) == without_front(cs@.skip(start as int), c),
        decreases cs.len() - start,
    {
        assert(cs@.skip(start as int).skip(1) =~= cs@.skip(start + 1));
        start += 1;
    }
    s.substring_char(start, cs.len())
}

/// `s` without the run of `c` at its back.
pub fn trim_end_matches(s: &str, c: char) -> (r: &str)
    ensures
        r@ == without_back(s@, c),
{
    let cs = chars_of(s);
    let mut end: usize = cs.len();
    assert(cs@.take(end as int) =~= cs@);
    while end > 0 && cs[end - 1] == c
        invariant
            end <= cs.len(),
            without_back(cs@, c) == without_back(cs@.take(end as int), c),
        decreases end,
    {
        assert(cs@.take(end as int).drop_last() =~= cs@.take(end - 1));
        end -= 1;
    }
    assert(cs@.take(end as int) =~= cs@.subrange(0, end as int));
    s.substring_char(0, end)
}

/// Whether `part` stands in `s` from position `at` on.
pub open spec fn stands_at(s: Seq<char>, part: Seq<char>, at: int) -> bool {
    0 <= at && at + part.len() <= s.len() && s.subrange(at, at + part.len()) == part
}

/// Whether `part` stands somewhere in `s`.
pub open spec fn holds_text(s: Seq<char>, part: Seq<char>) -> bool {
    exists|at: int| stands_at(s, part, at)
}

/// Whether `part` stands in `cs` from position `at` on.
fn matches_at(cs: &Vec<char>, part: &Vec<char>, at: usize) -> (r: bool)
    requires
        at + part.len() <= cs.len(),
    ensures
        r == stands_at(cs@, part@, at as int),
{
    let mut k: usize = 0;
    while k < part.len()
        invariant
            at + part.len() <= cs.len(),
            k <= part.len(),
            forall|j: int| 0 <= j < k ==> cs@[at + j] == part@[j],
        decreases part.len() - k,
    {
        if cs[at + k] != part[k] {
            assert(cs@.subrange(at as int, at + part.len())[k as int] != part@[k as int]);
            return false;
        }
        k += 1;
    }
    assert(cs@.subrange(at as int, at + part.len()) =~= part@);
    true
}

/// Whether `s` begins with `prefix`.
pub fn starts_with(s: &str, prefix: &str) -> (r: bool)
    ensures
        r == prefix@.is_prefix_of(s@),
{
    let cs = chars_of(s);
    let part = chars_of(prefix);
    if part.len() > cs.len() {
        return false;
    }
    matches_at(&cs, &part, 0)
}

/// Whether `s` ends with `suffix`.
pub fn ends_with(s: &str, suffix: &str) -> (r: bool)
    ensures
        r == suffix@.is_suffix_of(s@),
{
    let cs = chars_of(s);
    let part = chars_of(suffix);
    if part.len() > cs.len() {
        return false;
    }
    assert(cs@.subrange(cs.len() - part.len(), cs.len() as int) =~= cs@.skip(
        cs.len() - part.len(),
    ));
    matches_at(&cs, &part, cs.len() - part.len())
}

/// Whether `part` stands somewhere in `s`.
pub fn contains(s: &str, part: &str) -> (r: bool)
    ensures
        r == holds_text(s@, part@),
{
    let cs = chars_of(s);
    let ps = chars_of(part);
    if ps.len() > cs.len() {
        return false;
    }
    let mut at: usize = 0;
    while at <= cs.len() - ps.len()
        invariant
            ps.len() <= cs.len(),
            at <= cs.len() - ps.len() + 1,
            cs@ == s@,
            ps@ == part@,
            forall|j: int| 0 <= j < at ==> !stands_at(s@, part@, j),
        decreases cs.len() - ps.len() + 1 - at,
    {
        if matches_at(&cs, &ps, at) {
            return true;
        }
        if at == cs.len() - ps.len() {
            return false;
        }
        at += 1;
    }
    false
}

/// The pieces of `s` between the occurrences of `sep`.
pub open spec fn split_on(s: Seq<char>, sep: char) -> Seq<Seq<char>>
    decreases s.len(),
{
    if s.len() == 0 {
        seq![Seq::<char>::empty()]
    } else {
        let before = split_on(s.drop_last(), sep);
        if s.last() == sep {
            before.push(Seq::empty())
        } else {
            before.update(before.len() - 1, before.last().push(s.last()))
        }
    }
}

/// There is always at least one piece.
pub proof fn lemma_split_on_some(s: Seq<char>, sep: char)
    ensures
        split_on(s, sep).len() >= 1,
    decreases s.len(),
{
    if s.len() > 0 {
        lemma_split_on_some(s.drop_last(), sep);
    }
}

/// The pieces of `s` between the occurrences of `sep`.
pub fn split(s: &str, sep: char) -> (r: Vec<String>)
    ensures
        r.deep_view() == split_on(s@, sep),
{
    let cs = chars_of(s);
    let mut r: Vec<String> = Vec::new();
    let mut from: usize = 0;
    let mut i: usize = 0;
    assert(cs@.take(0) =~= Seq::empty());
    assert(r.deep_view().push(cs@.subrange(0, 0)) =~= split_on(cs@.take(0), sep));
    while i < cs.len()
        invariant
            cs@ == s@,
            from <= i <= cs.len(),
            r.deep_view().push(s@.subrange(from as int, i as int)) == split_on(
                s@.take(i as int),
                sep,
            ),
        decreases cs.len() - i,
    {
        let ghost before = split_on(s@.take(i as int), sep);
        let ghost done = r.deep_view();
        assert(s@.take(i + 1).drop_last() =~= s@.take(i as int));
        assert(before.last() == s@.subrange(from as int, i as int));
        if cs[i] == sep {
            r.push(s.substring_char(from, i).to_owned());
            from = i + 1;
            assert(r.deep_view() =~= before);
            assert(s@.subrange(from as int, i + 1) =~= Seq::empty());
        } else {
            assert(s@.subrange(from as int, i + 1) =~= before.last().push(cs@[i as int]));
            assert(before.update(before.len() - 1, before.last().push(cs@[i as int]))
                =~= done.push(s@.subrange(from as int, i + 1)));
        }
        i += 1;
    }
    assert(s@.take(s@.len() as int) =~= s@);
    r.push(s.substring_char(from, cs.len()).to_owned());
    assert(r.deep_view() =~= split_on(s@, sep));
    r
}

/// `parts` one after the other, with `sep` between them.
pub open spec fn joined(parts: Seq<Seq<char>>, sep: Seq<char>) -> Seq<char>
    decreases parts.len(),
{
    if parts.len() == 0 {
        Seq::empty()
    } else if parts.len() == 1 {
        parts[0]
    } else {
        joined(parts.drop_last(), sep) + sep + parts.last()
    }
}

/// `parts` one after the other, with `sep` between them.
pub fn join(parts: &Vec<String>, sep: &str) -> (r: String)
    ensures
        r@ == joined(parts.deep_view(), sep@),
{
    let mut r = String::new();
    let mut i: usize = 0;
    assert(parts.deep_view().take(0) =~= Seq::empty());
    while i < parts.len()
        invariant
            i <= parts.len(),
            r@ == joined(parts.deep_view().take(i as int), sep@),
        decreases parts.len() - i,
    {
        assert(parts.deep_view().take(i + 1).drop_last() =~= parts.deep_view().take(i as int));
        if i > 0 {
            r.append(sep);
        }
        r.append(parts[i].as_str());
        assert(i == 0 ==> r@ =~= parts@[0]@);
        i += 1;
    }
    assert(parts.deep_view().take(parts.len() as int) =~= parts.deep_view());
    r
}

/// The runs of characters of `s` that are not white space.
pub open spec fn words_of(s: Seq<char>) -> Seq<Seq<char>>
    decreases s.len(),
{
    if s.len() == 0 {
        Seq::empty()
    } else {
        let front = s.drop_last();
        let before = words_of(front);
        if is_white_space(s.last()) {
            before
        } else if front.len() == 0 || is_white_space(front.last()) {
            before.push(seq![s.last()])
        } else {
            before.update(before.len() - 1, before.last().push(s.last()))
        }
    }
}

/// The runs of characters of `s` that are not white space.
pub fn split_whitespace(s: &str) -> (r: Vec<String>)
    ensures
        r.deep_view() == words_of(s@),
{
    let cs = chars_of(s);
    let mut r: Vec<String> = Vec::new();
    let mut from: usize = 0;
    let mut inside: bool = false;
    let mut i: usize = 0;
    assert(cs@.take(0) =~= Seq::empty());
    assert(r.deep_view() =~= words_of(cs@.take(0)));
    while i < cs.len()
        invariant
            cs@ == s@,
            from <= i <= cs.len(),
            inside == (i > 0 && !is_white_space(s@[i - 1])),
            inside ==> r.deep_view().push(s@.subrange(from as int, i as int)) == words_of(
                s@.take(i as int),
            ),
            !inside ==> r.deep_view() == words_of(s@.take(i as int)),
        decreases cs.len() - i,
    {
        let ghost before = words_of(s@.take(i as int));
        let ghost done = r.deep_view();
        assert(s@.take(i + 1).drop_last() =~= s@.take(i as int));
        if white_space(cs[i]) {
            if inside {
                r.push(s.substring_char(from, i).to_owned());
                inside = false;
                assert(r.deep_view() =~= before);
            }
        } else if inside {
            assert(before.last() == s@.subrange(from as int, i as int));
            assert(s@.subrange(from as int, i + 1) =~= before.last().push(cs@[i as int]));
            assert(before.update(before.len() - 1, before.last().push(cs@[i as int]))
                =~= done.push(s@.subrange(from as int, i + 1)));
        } else {
            from = i;
            inside = true;
            assert(s@.subrange(from as int, i + 1) =~= seq![cs@[i as int]]);
        }
        i += 1;
    }
    assert(s@.take(s@.len() as int) =~= s@);
    if inside {
        r.push(s.substring_char(from, cs.len()).to_owned());
        assert(r.deep_view() =~= words_of(s@));
    }
    r
}

/// `s` parted at the first occurrence of `sep`, which belongs to neither part.
pub open spec fn split_once_on(s: Seq<char>, sep: char) -> Option<(Seq<char>, Seq<char>)> {
    if s.contains(sep) {
        Some((s.take(s.index_of_first(sep)->0), s.skip(s.index_of_first(sep)->0 + 1)))
    } else {
        None
    }
}

/// `s` parted at the first occurrence of `sep`, which belongs to neither part.
pub fn split_once(s: &str, sep: char) -> (r: Option<(&str, &str)>)
    ensures
        match r {
            Some(parts) => split_once_on(s@, sep) == Some((parts.0@, parts.1@)),
            None => split_once_on(s@, sep) is None,
        },
{
    let cs = chars_of(s);
    let mut i: usize = 0;
    while i < cs.len()
        invariant
            cs@ == s@,
            i <= cs.len(),
            forall|j: int| 0 <= j < i ==> s@[j] != sep,
        decreases cs.len() - i,
    {
        if cs[i] == sep {
            proof {
                s@.index_of_first_ensures(sep);
                assert(s@[i as int] == sep);
            }
            assert(s@.take(i as int) =~= s@.subrange(0, i as int));
            assert(s@.skip(i + 1) =~= s@.subrange(i + 1, s@.len() as int));
            return Some((s.substring_char(0, i), s.substring_char(i + 1, cs.len())));
        }
        i += 1;
    }
    None
}

/// The decimal digit for `n`.
pub open spec fn digit_char(n: nat) -> char
    recommends
        n < 10,
{
    "0123456789"@[n as int]
}

/// `n` in decimal digits.
pub open spec fn decimal(n: nat) -> Seq<char>
    decreases n,
{
    if n < 10 {
        seq![digit_char(n)]
    } else {
        decimal(n / 10).push(digit_char(n % 10))
    }
}

/// `n` in decimal digits.
pub fn decimal_text(n: u128) -> (r: String)
    ensures
        r@ == decimal(n as nat),
    decreases n,
{
    proof {
        reveal_strlit("0123456789");
    }
    let k: usize = (n % 10) as usize;
    let last = "0123456789".substring_char(k, k + 1);
    if n < 10 {
        assert(last@ =~= decimal(n as nat));
        last.to_owned()
    } else {
        let r = decimal_text(n / 10).concat(last);
        assert(r@ =~= decimal(n as nat));
        r
    }
}

} // verus!
