//! Text as sequences of characters: searching, trimming and line handling.
//!
//! Every contract in this crate that speaks of text speaks of `Seq<char>`, the
//! view of `str` and `String`. The executable functions work on `Vec<char>`.

use vstd::prelude::*;

verus! {

/// `needle` stands in `hay` at index `i`.
pub open spec fn occurs_at(hay: Seq<char>, needle: Seq<char>, i: int) -> bool {
    &&& 0 <= i
    &&& i + needle.len() <= hay.len()
    &&& hay.subrange(i, i + needle.len()) == needle
}

/// `needle` stands somewhere in `hay`.
pub open spec fn contains(hay: Seq<char>, needle: Seq<char>) -> bool {
    exists|i: int| occurs_at(hay, needle, i)
}

/// `i` is the first index at or after `from` at which `needle` stands in `hay`.
pub open spec fn is_first_occurrence(hay: Seq<char>, needle: Seq<char>, from: int, i: int) -> bool {
    &&& from <= i
    &&& occurs_at(hay, needle, i)
    &&& forall|j: int| from <= j < i ==> !occurs_at(hay, needle, j)
}

/// The first index at or after `from` at which `needle` stands in `hay`, if any.
pub open spec fn find(hay: Seq<char>, needle: Seq<char>, from: int) -> Option<int> {
    if exists|i: int| is_first_occurrence(hay, needle, from, i) {
        Some(choose|i: int| is_first_occurrence(hay, needle, from, i))
    } else {
        None
    }
}

/// `find` gives the first occurrence when it gives one, and gives none only
/// when there is no occurrence at or after `from`.
pub proof fn lemma_find(hay: Seq<char>, needle: Seq<char>, from: int)
    requires
        0 <= from,
    ensures
        match find(hay, needle, from) {
            Some(i) => is_first_occurrence(hay, needle, from, i),
            None => forall|j: int| from <= j ==> !occurs_at(hay, needle, j),
        },
{
    if find(hay, needle, from) is None {
        assert forall|j: int| from <= j implies !occurs_at(hay, needle, j) by {
            if occurs_at(hay, needle, j) {
                lemma_first_exists(hay, needle, from, j);
            }
        }
    }
}

/// An occurrence at or after `from` implies a first one.
proof fn lemma_first_exists(hay: Seq<char>, needle: Seq<char>, from: int, j: int)
    requires
        0 <= from <= j,
        occurs_at(hay, needle, j),
    ensures
        exists|i: int| is_first_occurrence(hay, needle, from, i),
    decreases j - from,
{
    if exists|k: int| from <= k < j && occurs_at(hay, needle, k) {
        let k = choose|k: int| from <= k < j && occurs_at(hay, needle, k);
        lemma_first_exists(hay, needle, from, k);
    } else {
        assert(is_first_occurrence(hay, needle, from, j));
    }
}

/// Two first occurrences are the same index.
pub proof fn lemma_first_unique(hay: Seq<char>, needle: Seq<char>, from: int, i: int, k: int)
    requires
        is_first_occurrence(hay, needle, from, i),
        is_first_occurrence(hay, needle, from, k),
    ensures
        i == k,
{
}

/// A first occurrence is what `find` gives.
pub proof fn lemma_found(hay: Seq<char>, needle: Seq<char>, from: int, i: int)
    requires
        is_first_occurrence(hay, needle, from, i),
    ensures
        find(hay, needle, from) == Some(i),
{
    let k = choose|k: int| is_first_occurrence(hay, needle, from, k);
    lemma_first_unique(hay, needle, from, i, k);
}

/// The characters of `s`, in order.
pub fn to_chars(s: &str) -> (r: Vec<char>)
    ensures
        r@ == s@,
{
    let mut r: Vec<char> = Vec::new();
    for c in it: s.chars()
        invariant
            r@ == it.seq().take(it.index() as int),
            it.seq() == s@,
    {
        r.push(c);
    }
    r
}

/// Builds a `String` with `String::from_iter` over the characters of `v`: the
/// string holds exactly these characters, in order.
#[verifier::external_body]
pub(crate) fn from_chars(v: &Vec<char>) -> (r: String)
    ensures
        r@ == v@,
{
    String::from_iter(v.iter())
}

/// Whether `needle` stands in `hay` at index `i`.
pub fn matches_at(hay: &Vec<char>, needle: &Vec<char>, i: usize) -> (r: bool)
    ensures
        r == occurs_at(hay@, needle@, i as int),
{
    if needle.len() > hay.len() || i > hay.len() - needle.len() {
        return false;
    }
    let mut k: usize = 0;
    while k < needle.len()
        invariant
            k <= needle.len(),
            i + needle.len() <= hay.len(),
            forall|t: int| 0 <= t < k ==> hay@[i + t] == needle@[t],
        decreases needle.len() - k,
    {
        if hay[i + k] != needle[k] {
            assert(hay@.subrange(i as int, i + needle.len())[k as int] == hay@[i + k]);
            return false;
        }
        k += 1;
    }
    assert(hay@.subrange(i as int, i + needle.len()) =~= needle@);
    true
}

/// The first index at or after `from` at which `needle` stands in `hay`.
pub fn find_from(hay: &Vec<char>, needle: &Vec<char>, from: usize) -> (r: Option<usize>)
    ensures
        match r {
            Some(i) => find(hay@, needle@, from as int) == Some(i as int),
            None => find(hay@, needle@, from as int) is None,
        },
        r matches Some(i) ==> from <= i && i + needle.len() <= hay.len(),
{
    let mut i: usize = from;
    while i < hay.len()
        invariant
            from <= i,
            forall|j: int| from <= j < i ==> !occurs_at(hay@, needle@, j),
        decreases hay.len() - i,
    {
        if matches_at(hay, needle, i) {
            proof {
                lemma_found(hay@, needle@, from as int, i as int);
            }
            return Some(i);
        }
        i += 1;
    }
    if matches_at(hay, needle, i) {
        proof {
            lemma_found(hay@, needle@, from as int, i as int);
        }
        return Some(i);
    }
    proof {
        lemma_find(hay@, needle@, from as int);
        if find(hay@, needle@, from as int) is Some {
            let k = find(hay@, needle@, from as int)->0;
            assert(occurs_at(hay@, needle@, k));
        }
    }
    None
}

/// Whether `needle` stands somewhere in `hay`.
pub fn has(hay: &Vec<char>, needle: &Vec<char>) -> (r: bool)
    ensures
        r == contains(hay@, needle@),
{
    let found = find_from(hay, needle, 0);
    proof {
        lemma_find(hay@, needle@, 0);
        if found is Some {
            assert(occurs_at(hay@, needle@, found->0 as int));
        }
    }
    found.is_some()
}

/// Whether the text `needle` stands somewhere in the text `hay`.
pub fn str_contains(hay: &str, needle: &str) -> (r: bool)
    ensures
        r == contains(hay@, needle@),
{
    let h = to_chars(hay);
    let n = to_chars(needle);
    has(&h, &n)
}

/// The characters of `v` from index `lo` up to, not including, index `hi`.
pub fn slice(v: &Vec<char>, lo: usize, hi: usize) -> (r: Vec<char>)
    requires
        lo <= hi <= v.len(),
    ensures
        r@ == v@.subrange(lo as int, hi as int),
{
    let mut r: Vec<char> = Vec::new();
    let mut i: usize = lo;
    while i < hi
        invariant
            lo <= i <= hi <= v.len(),
            r@ == v@.subrange(lo as int, i as int),
        decreases hi - i,
    {
        r.push(v[i]);
        assert(r@ =~= v@.subrange(lo as int, i + 1));
        i += 1;
    }
    r
}

/// White space: the characters with the Unicode property `White_Space`.
pub open spec fn is_whitespace(c: char) -> bool {
    let u = c as u32;
    ||| 0x09 <= u <= 0x0D
    ||| u == 0x20
    ||| u == 0x85
    ||| u == 0xA0
    ||| u == 0x1680
    ||| 0x2000 <= u <= 0x200A
    ||| u == 0x2028
    ||| u == 0x2029
    ||| u == 0x202F
    ||| u == 0x205F
    ||| u == 0x3000
}

/// Whether `c` is white space.
pub fn whitespace(c: char) -> (r: bool)
    ensures
        r == is_whitespace(c),
{
    let u: u32 = c as u32;
    (0x09 <= u && u <= 0x0D) || u == 0x20 || u == 0x85 || u == 0xA0 || u == 0x1680 || (0x2000 <= u
        && u <= 0x200A) || u == 0x2028 || u == 0x2029 || u == 0x202F || u == 0x205F || u == 0x3000
}

/// `s` without its leading white space.
pub open spec fn trim_start(s: Seq<char>) -> Seq<char>
    decreases s.len(),
{
    if s.len() > 0 && is_whitespace(s[0]) {
        trim_start(s.subrange(1, s.len() as int))
    } else {
        s
    }
}

/// `s` without its trailing white space.
pub open spec fn trim_end(s: Seq<char>) -> Seq<char>
    decreases s.len(),
{
    if s.len() > 0 && is_whitespace(s[s.len() - 1]) {
        trim_end(s.subrange(0, s.len() - 1))
    } else {
        s
    }
}

/// `s` without its leading and trailing white space.
pub open spec fn trim(s: Seq<char>) -> Seq<char> {
    trim_end(trim_start(s))
}

/// `v` without its leading and trailing white space.
pub fn trimmed(v: &Vec<char>) -> (r: Vec<char>)
    ensures
        r@ == trim(v@),
{
    let n = v.len();
    let mut lo: usize = 0;
    assert(v@ =~= v@.subrange(0, n as int));
    while lo < n && whitespace(v[lo])
        invariant
            lo <= n == v.len(),
            trim_start(v@) == trim_start(v@.subrange(lo as int, n as int)),
        decreases n - lo,
    {
        proof {
            let cur = v@.subrange(lo as int, n as int);
            assert(cur.subrange(1, cur.len() as int) =~= v@.subrange(lo + 1, n as int));
        }
        lo += 1;
    }
    let mut hi: usize = n;
    while hi > lo && whitespace(v[hi - 1])
        invariant
            lo <= hi <= n == v.len(),
            trim_start(v@) == v@.subrange(lo as int, n as int),
            trim(v@) == trim_end(v@.subrange(lo as int, hi as int)),
        decreases hi - lo,
    {
        proof {
            let cur = v@.subrange(lo as int, hi as int);
            assert(cur.subrange(0, cur.len() - 1) =~= v@.subrange(lo as int, hi - 1));
        }
        hi -= 1;
    }
    slice(v, lo, hi)
}

/// `s` without one leading `c`, where it has one.
pub open spec fn strip_leading(s: Seq<char>, c: char) -> Seq<char> {
    if s.len() > 0 && s[0] == c {
        s.subrange(1, s.len() as int)
    } else {
        s
    }
}

/// `v` without one leading `c`, where it has one.
pub fn without_leading(v: &Vec<char>, c: char) -> (r: Vec<char>)
    ensures
        r@ == strip_leading(v@, c),
{
    if v.len() > 0 && v[0] == c {
        slice(v, 1, v.len())
    } else {
        assert(v@ =~= v@.subrange(0, v.len() as int));
        slice(v, 0, v.len())
    }
}

/// Whether `s` begins with `prefix`.
pub open spec fn starts_with(s: Seq<char>, prefix: Seq<char>) -> bool {
    occurs_at(s, prefix, 0)
}

/// Whether the two texts are the same.
pub fn same_text(a: &str, b: &str) -> (r: bool)
    ensures
        r == (a@ == b@),
{
    let x = to_chars(a);
    let y = to_chars(b);
    assert(x@ =~= x@.subrange(0, x@.len() as int));
    x.len() == y.len() && matches_at(&x, &y, 0)
}

/// Whether the text `s` begins with the text `prefix`.
pub fn str_starts_with(s: &str, prefix: &str) -> (r: bool)
    ensures
        r == starts_with(s@, prefix@),
{
    let x = to_chars(s);
    let y = to_chars(prefix);
    matches_at(&x, &y, 0)
}

/// The texts of a sequence of strings.
pub open spec fn texts(v: Seq<String>) -> Seq<Seq<char>> {
    Seq::new(v.len(), |i: int| v[i]@)
}

/// `text` without surrounding white space and without one leading `c`.
pub fn cleaned(text: &str, c: char) -> (r: String)
    ensures
        r@ == strip_leading(trim(text@), c),
{
    let chars = to_chars(text);
    from_chars(&without_leading(&trimmed(&chars), c))
}

/// Adds the text `word` at the end of `list`.
pub fn push_text(list: &mut Vec<String>, word: &str)
    ensures
        texts(final(list)@) == texts(old(list)@).push(word@),
{
    assert(texts(list@).len() == list@.len());
    list.push(word.to_owned());
    assert(texts(list@) =~= texts(old(list)@).push(word@));
}

/// `s` without every `prefix` that it begins with, one after the other. An
/// empty `prefix` takes nothing away.
pub open spec fn strip_all_leading(s: Seq<char>, prefix: Seq<char>) -> Seq<char>
    decreases s.len(),
{
    if prefix.len() > 0 && starts_with(s, prefix) {
        strip_all_leading(s.subrange(prefix.len() as int, s.len() as int), prefix)
    } else {
        s
    }
}

/// `s` without every `prefix` that it begins with, one after the other.
pub fn without_all_leading(s: &str, prefix: &str) -> (r: String)
    ensures
        r@ == strip_all_leading(s@, prefix@),
{
    let chars = to_chars(s);
    let p = to_chars(prefix);
    let mut at: usize = 0;
    assert(chars@.subrange(0, chars@.len() as int) =~= chars@);
    while p.len() > 0 && matches_at(&chars, &p, at)
        invariant
            at <= chars.len(),
            strip_all_leading(chars@, p@) == strip_all_leading(
                chars@.subrange(at as int, chars@.len() as int),
                p@,
            ),
        decreases chars.len() - at,
    {
        proof {
            let rest = chars@.subrange(at as int, chars@.len() as int);
            assert(rest.subrange(0, p@.len() as int) =~= chars@.subrange(at as int, at + p@.len()));
            assert(rest.subrange(p@.len() as int, rest.len() as int) =~= chars@.subrange(
                at + p@.len(),
                chars@.len() as int,
            ));
        }
        at = at + p.len();
    }
    proof {
        let rest = chars@.subrange(at as int, chars@.len() as int);
        if p@.len() > 0 && starts_with(rest, p@) {
            assert(rest.subrange(0, p@.len() as int) =~= chars@.subrange(at as int, at + p@.len()));
            assert(occurs_at(chars@, p@, at as int));
        }
    }
    from_chars(&slice(&chars, at, chars.len()))
}

/// `s` with every `from` replaced by `to`, from the left, each occurrence
/// beginning where the one before it ended. An empty `from` stands before
/// every character and at the end.
pub open spec fn replaced(s: Seq<char>, from: Seq<char>, to: Seq<char>) -> Seq<char>
    decreases s.len(),
{
    if from.len() == 0 {
        if s.len() == 0 {
            to
        } else {
            to + seq![s[0]] + replaced(s.subrange(1, s.len() as int), from, to)
        }
    } else {
        match find(s, from, 0) {
            Some(i) => if 0 <= i && i + from.len() <= s.len() {
                s.subrange(0, i) + to + replaced(
                    s.subrange(i + from.len(), s.len() as int),
                    from,
                    to,
                )
            } else {
                s
            },
            None => s,
        }
    }
}

/// `s` with every `from` replaced by `to`.
pub fn replace_all(s: &str, from: &str, to: &str) -> (r: String)
    ensures
        r@ == replaced(s@, from@, to@),
{
    let chars = to_chars(s);
    let old = to_chars(from);
    let new = to_chars(to);
    let n = chars.len();
    let mut out: Vec<char> = Vec::new();
    let mut at: usize = 0;
    assert(chars@.subrange(0, n as int) =~= chars@);
    assert(out@ + replaced(chars@, old@, new@) =~= replaced(chars@, old@, new@));
    if old.len() == 0 {
        while at < n
            invariant
                at <= n == chars.len(),
                old@.len() == 0,
                replaced(chars@, old@, new@) == out@ + replaced(
                    chars@.subrange(at as int, n as int),
                    old@,
                    new@,
                ),
            decreases n - at,
        {
            let ghost rest = chars@.subrange(at as int, n as int);
            let ghost before = out@;
            let mut piece = slice(&new, 0, new.len());
            assert(piece@ =~= new@);
            out.append(&mut piece);
            out.push(chars[at]);
            proof {
                assert(rest.subrange(1, rest.len() as int) =~= chars@.subrange(at + 1, n as int));
                assert(out@ =~= before + new@ + seq![rest[0]]);
                assert(before + (new@ + seq![rest[0]] + replaced(
                    rest.subrange(1, rest.len() as int),
                    old@,
                    new@,
                )) =~= before + new@ + seq![rest[0]] + replaced(
                    rest.subrange(1, rest.len() as int),
                    old@,
                    new@,
                ));
            }
            at += 1;
        }
        let ghost before = out@;
        let mut piece = slice(&new, 0, new.len());
        assert(piece@ =~= new@);
        out.append(&mut piece);
        assert(out@ =~= before + new@);
        return from_chars(&out);
    }
    loop
        invariant
            at <= n == chars.len(),
            old@.len() > 0,
            chars@ == s@,
            old@ == from@,
            new@ == to@,
            replaced(chars@, old@, new@) == out@ + replaced(
                chars@.subrange(at as int, n as int),
                old@,
                new@,
            ),
        decreases n - at,
    {
        let rest = slice(&chars, at, n);
        let ghost before = out@;
        match find_from(&rest, &old, 0) {
            Some(i) => {
                let mut kept = slice(&rest, 0, i);
                out.append(&mut kept);
                let mut piece = slice(&new, 0, new.len());
                assert(piece@ =~= new@);
                out.append(&mut piece);
                proof {
                    let tail = rest@.subrange(i + old@.len(), rest@.len() as int);
                    assert(tail =~= chars@.subrange(at + i + old@.len(), n as int));
                    assert(out@ =~= before + rest@.subrange(0, i as int) + new@);
                    assert(before + (rest@.subrange(0, i as int) + new@ + replaced(tail, old@, new@))
                        =~= before + rest@.subrange(0, i as int) + new@ + replaced(
                        tail,
                        old@,
                        new@,
                    ));
                }
                at = at + i + old.len();
            },
            None => {
                assert(replaced(rest@, old@, new@) == rest@);
                let mut kept = rest;
                out.append(&mut kept);
                assert(out@ =~= before + chars@.subrange(at as int, n as int));
                return from_chars(&out);
            },
        }
    }
}

} // verus!
