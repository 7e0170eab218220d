//! Character-level text operations with their mathematical models.
//!
//! Text is modelled as `Seq<char>`, the view that vstd gives to `str` and
//! `String`.  The searching functions (`find`, `rfind`, `split`, `replace`)
//! follow the documented behaviour of the corresponding methods on `str`,
//! counted in characters instead of bytes.
use vstd::prelude::*;

verus! {

/// `p` occurs in `s` starting at character position `i`.
pub open spec fn occurs_at(s: Seq<char>, p: Seq<char>, i: int) -> bool {
    &&& 0 <= i
    &&& i + p.len() <= s.len()
    &&& s.subrange(i, i + p.len()) == p
}

/// The first position at or after `i` where `p` occurs in `s`.
pub open spec fn find_from(s: Seq<char>, p: Seq<char>, i: int) -> Option<int>
    decreases s.len() + 1 - i,
{
    if i < 0 || i + p.len() > s.len() {
        None
    } else if occurs_at(s, p, i) {
        Some(i)
    } else {
        find_from(s, p, i + 1)
    }
}

/// The first position where `p` occurs in `s` (`str::find`).
pub open spec fn find(s: Seq<char>, p: Seq<char>) -> Option<int> {
    find_from(s, p, 0)
}

/// The last position at or before `i` where `p` occurs in `s`.
pub open spec fn rfind_below(s: Seq<char>, p: Seq<char>, i: int) -> Option<int>
    decreases i + 1,
{
    if i < 0 {
        None
    } else if occurs_at(s, p, i) {
        Some(i)
    } else {
        rfind_below(s, p, i - 1)
    }
}

/// The last position where `p` occurs in `s` (`str::rfind`).
pub open spec fn rfind(s: Seq<char>, p: Seq<char>) -> Option<int> {
    rfind_below(s, p, s.len() - p.len())
}

/// `s` contains `p` (`str::contains`).
pub open spec fn contains(s: Seq<char>, p: Seq<char>) -> bool {
    find(s, p) is Some
}

/// `s` contains the character `c`.
pub open spec fn has_char(s: Seq<char>, c: char) -> bool {
    exists|i: int| 0 <= i < s.len() && s[i] == c
}

/// `s` starts with `p` (`str::starts_with`).
pub open spec fn starts_with(s: Seq<char>, p: Seq<char>) -> bool {
    p.len() <= s.len() && s.take(p.len() as int) == p
}

/// `s` ends with `p` (`str::ends_with`).
pub open spec fn ends_with(s: Seq<char>, p: Seq<char>) -> bool {
    p.len() <= s.len() && s.skip(s.len() - p.len()) == p
}

/// The pieces of `s` between the occurrences of `p`, left to right
/// (`str::split` with a non-empty pattern).
pub open spec fn split(s: Seq<char>, p: Seq<char>) -> Seq<Seq<char>>
    decreases s.len(),
{
    if p.len() == 0 {
        seq![s]
    } else {
        match find(s, p) {
            None => seq![s],
            Some(i) => {
                proof {
                    lemma_find(s, p);
                }
                seq![s.take(i)] + split(s.skip(i + p.len()), p)
            },
        }
    }
}

/// Every occurrence of `from` replaced by `to`, left to right
/// (`str::replace` with a non-empty pattern).
pub open spec fn replace(s: Seq<char>, from: Seq<char>, to: Seq<char>) -> Seq<char>
    decreases s.len(),
{
    if from.len() == 0 {
        s
    } else {
        match find(s, from) {
            None => s,
            Some(i) => {
                proof {
                    lemma_find(s, from);
                }
                s.take(i) + to + replace(s.skip(i + from.len()), from, to)
            },
        }
    }
}

/// The first occurrence of `from` replaced by `to` (`str::replacen(from, to, 1)`).
pub open spec fn replace_first(s: Seq<char>, from: Seq<char>, to: Seq<char>) -> Seq<char> {
    match find(s, from) {
        None => s,
        Some(i) => s.take(i) + to + s.skip(i + from.len()),
    }
}

/// `find_from` reports the first occurrence at or after `i`, and only that.
pub proof fn lemma_find_from(s: Seq<char>, p: Seq<char>, i: int)
    requires
        0 <= i,
    ensures
        match find_from(s, p, i) {
            Some(k) => i <= k && occurs_at(s, p, k) && forall|j: int|
                i <= j < k ==> !occurs_at(s, p, j),
            None => forall|j: int| i <= j ==> !occurs_at(s, p, j),
        },
    decreases s.len() + 1 - i,
{
    if i + p.len() > s.len() {
    } else if occurs_at(s, p, i) {
    } else {
        lemma_find_from(s, p, i + 1);
    }
}

/// `find` reports the first occurrence of the pattern, and only that.
pub proof fn lemma_find(s: Seq<char>, p: Seq<char>)
    ensures
        match find(s, p) {
            Some(k) => occurs_at(s, p, k) && forall|j: int| 0 <= j < k ==> !occurs_at(s, p, j),
            None => forall|j: int| !occurs_at(s, p, j),
        },
{
    lemma_find_from(s, p, 0);
}

/// A string that contains `m` contains every prefix of `m`.
pub proof fn lemma_contains_prefix(s: Seq<char>, m: Seq<char>, p: Seq<char>)
    requires
        contains(s, m),
        starts_with(m, p),
    ensures
        contains(s, p),
{
    lemma_find(s, m);
    let k = find(s, m)->Some_0;
    assert(s.subrange(k, k + p.len()) =~= s.subrange(k, k + m.len()).take(p.len() as int));
    assert(occurs_at(s, p, k));
    lemma_find(s, p);
}

/// `rfind_below` reports the last occurrence at or before `i`, and only that.
pub proof fn lemma_rfind_below(s: Seq<char>, p: Seq<char>, i: int)
    ensures
        match rfind_below(s, p, i) {
            Some(k) => 0 <= k <= i && occurs_at(s, p, k) && forall|j: int|
                k < j <= i ==> !occurs_at(s, p, j),
            None => forall|j: int| j <= i ==> !occurs_at(s, p, j),
        },
    decreases i + 1,
{
    if i < 0 {
    } else if occurs_at(s, p, i) {
    } else {
        lemma_rfind_below(s, p, i - 1);
    }
}

/// Searching from a position is searching in the remaining suffix.
pub proof fn lemma_find_from_skip(s: Seq<char>, p: Seq<char>, k: int, i: int)
    requires
        0 <= k <= s.len(),
        k <= i,
    ensures
        find_from(s, p, i) == match find_from(s.skip(k), p, i - k) {
            Some(j) => Some(j + k),
            None => None::<int>,
        },
    decreases s.len() + 1 - i,
{
    if i + p.len() > s.len() {
    } else {
        assert(s.skip(k).subrange(i - k, i - k + p.len()) =~= s.subrange(i, i + p.len()));
        if occurs_at(s, p, i) {
        } else {
            lemma_find_from_skip(s, p, k, i + 1);
        }
    }
}

/// The characters of a string slice.
pub fn chars_of(s: &str) -> (v: Vec<char>)
    ensures
        v@ == s@,
{
    let mut v: Vec<char> = Vec::new();
    for c in it: s.chars()
        invariant
            v@ == it.seq().take(it.index() as int),
    {
        v.push(c);
    }
    v
}

/// Whether `p` occurs in `h` at position `i`.
pub fn matches_at(h: &Vec<char>, p: &Vec<char>, i: usize) -> (b: bool)
    requires
        i <= h.len(),
    ensures
        b == occurs_at(h@, p@, i as int),
{
    if p.len() > h.len() - i {
        return false;
    }
    let mut j: usize = 0;
    while j < p.len()
        invariant
            i + p.len() <= h.len(),
            j <= p.len(),
            forall|k: int| 0 <= k < j ==> h@[i + k] == p@[k],
        decreases p.len() - j,
    {
        if h[i + j] != p[j] {
            assert(h@.subrange(i as int, i + p.len())[j as int] != p@[j as int]);
            return false;
        }
        j = j + 1;
    }
    assert(h@.subrange(i as int, i + p.len()) =~= p@);
    true
}

/// Whether `h` contains `p`.
pub fn contains_exec(h: &Vec<char>, p: &Vec<char>) -> (b: bool)
    ensures
        b == contains(h@, p@),
{
    find_exec(h, p).is_some()
}

/// Whether `h` starts with `p`.
pub fn starts_with_exec(h: &Vec<char>, p: &Vec<char>) -> (b: bool)
    ensures
        b == starts_with(h@, p@),
{
    if p.len() > h.len() {
        return false;
    }
    let b = matches_at(h, p, 0);
    assert(h@.subrange(0, p@.len() as int) =~= h@.take(p@.len() as int));
    b
}

/// Whether `h` ends with `p`.
pub fn ends_with_exec(h: &Vec<char>, p: &Vec<char>) -> (b: bool)
    ensures
        b == ends_with(h@, p@),
{
    if p.len() > h.len() {
        return false;
    }
    let b = matches_at(h, p, h.len() - p.len());
    assert(h@.subrange(h@.len() - p@.len(), h@.len() as int) =~= h@.skip(h@.len() - p@.len()));
    b
}

/// Whether `a` and `b` hold the same characters.
pub fn same_chars(a: &Vec<char>, b: &Vec<char>) -> (r: bool)
    ensures
        r == (a@ == b@),
{
    if a.len() != b.len() {
        return false;
    }
    let r = matches_at(a, b, 0);
    assert(a@.subrange(0, b@.len() as int) =~= a@);
    r
}

/// Whether two strings hold the same characters.
pub fn str_eq(a: &str, b: &str) -> (r: bool)
    ensures
        r == (a@ == b@),
{
    same_chars(&chars_of(a), &chars_of(b))
}

/// Whether `s` starts with `p`.
pub fn str_starts_with(s: &str, p: &str) -> (r: bool)
    ensures
        r == starts_with(s@, p@),
{
    starts_with_exec(&chars_of(s), &chars_of(p))
}

/// `s` with every occurrence of the non-empty pattern `from` replaced by
/// `to` (`str::replace`).
pub fn replace_str(s: &str, from: &str, to: &str) -> (r: String)
    requires
        from@.len() > 0,
    ensures
        r@ == replace(s@, from@, to@),
{
    let replaced = replace_exec(&chars_of(s), &chars_of(from), &chars_of(to));
    string_from_chars(&replaced, 0, replaced.len())
}

/// The characters `v[from..to]`.
pub fn sub_chars(v: &Vec<char>, from: usize, to: usize) -> (r: Vec<char>)
    requires
        from <= to <= v.len(),
    ensures
        r@ == v@.subrange(from as int, to as int),
{
    let mut r: Vec<char> = Vec::new();
    let mut i: usize = from;
    while i < to
        invariant
            from <= i <= to <= v.len(),
            r@ == v@.subrange(from as int, i as int),
        decreases to - i,
    {
        r.push(v[i]);
        assert(r@ =~= v@.subrange(from as int, i + 1));
        i = i + 1;
    }
    r
}

/// The models of a list of character vectors.
pub open spec fn char_seqs(v: Seq<Vec<char>>) -> Seq<Seq<char>> {
    v.map_values(|c: Vec<char>| c@)
}

/// The pieces of `h` between the occurrences of the non-empty pattern `p`.
pub fn split_exec(h: &Vec<char>, p: &Vec<char>) -> (r: Vec<Vec<char>>)
    requires
        p@.len() > 0,
    ensures
        char_seqs(r@) == split(h@, p@),
{
    let mut r: Vec<Vec<char>> = Vec::new();
    let mut cur: usize = 0;
    assert(h@.skip(0) =~= h@);
    assert(char_seqs(r@) + split(h@.skip(0), p@) =~= split(h@, p@));
    loop
        invariant
            cur <= h.len(),
            p@.len() > 0,
            char_seqs(r@) + split(h@.skip(cur as int), p@) == split(h@, p@),
        decreases h.len() - cur,
    {
        let ghost rest = h@.skip(cur as int);
        let found = find_from_exec(h, p, cur);
        proof {
            lemma_find_from_skip(h@, p@, cur as int, cur as int);
            lemma_find(rest, p@);
        }
        let ghost before = r@;
        match found {
            None => {
                r.push(sub_chars(h, cur, h.len()));
                proof {
                    assert(h@.subrange(cur as int, h@.len() as int) =~= rest);
                    assert(char_seqs(r@) =~= char_seqs(before) + seq![rest]);
                }
                return r;
            },
            Some(i) => {
                proof {
                    assert(occurs_at(rest, p@, i - cur));
                }
                r.push(sub_chars(h, cur, i));
                proof {
                    assert(h@.subrange(cur as int, i as int) =~= rest.take(i - cur));
                    assert(h@.skip(i + p@.len()) =~= rest.skip((i - cur) + p@.len()));
                    assert(char_seqs(r@) =~= char_seqs(before) + seq![rest.take(i - cur)]);
                    assert(char_seqs(r@) + split(h@.skip(i + p@.len()), p@) =~= char_seqs(before)
                        + split(rest, p@));
                }
                cur = i + p.len();
            },
        }
    }
}

/// `h` with every occurrence of the non-empty pattern `from` replaced by `to`.
pub fn replace_exec(h: &Vec<char>, from: &Vec<char>, to: &Vec<char>) -> (r: Vec<char>)
    requires
        from@.len() > 0,
    ensures
        r@ == replace(h@, from@, to@),
{
    let mut r: Vec<char> = Vec::new();
    let mut cur: usize = 0;
    assert(h@.skip(0) =~= h@);
    assert(r@ + replace(h@.skip(0), from@, to@) =~= replace(h@, from@, to@));
    loop
        invariant
            cur <= h.len(),
            from@.len() > 0,
            r@ + replace(h@.skip(cur as int), from@, to@) == replace(h@, from@, to@),
        decreases h.len() - cur,
    {
        let ghost rest = h@.skip(cur as int);
        let found = find_from_exec(h, from, cur);
        proof {
            lemma_find_from_skip(h@, from@, cur as int, cur as int);
            lemma_find(rest, from@);
        }
        let ghost before = r@;
        match found {
            None => {
                let mut tail = sub_chars(h, cur, h.len());
                r.append(&mut tail);
                assert(h@.subrange(cur as int, h@.len() as int) =~= rest);
                return r;
            },
            Some(i) => {
                proof {
                    assert(occurs_at(rest, from@, i - cur));
                }
                let mut piece = sub_chars(h, cur, i);
                r.append(&mut piece);
                let mut k: usize = 0;
                while k < to.len()
                    invariant
                        k <= to.len(),
                        r@ == before + h@.subrange(cur as int, i as int) + to@.take(k as int),
                    decreases to.len() - k,
                {
                    r.push(to[k]);
                    assert(to@.take(k + 1) =~= to@.take(k as int).push(to@[k as int]));
                    k = k + 1;
                }
                proof {
                    assert(to@.take(k as int) =~= to@);
                    assert(h@.subrange(cur as int, i as int) =~= rest.take(i - cur));
                    assert(h@.skip(i + from@.len()) =~= rest.skip((i - cur) + from@.len()));
                    assert(r@ + replace(h@.skip(i + from@.len()), from@, to@) =~= before + replace(
                        rest,
                        from@,
                        to@,
                    ));
                }
                cur = i + from.len();
            },
        }
    }
}

/// The model of an optional position.
pub open spec fn opt_pos(o: Option<usize>) -> Option<int> {
    match o {
        Some(i) => Some(i as int),
        None => None,
    }
}

/// The first position at or after `start` where `p` occurs in `h`.
pub fn find_from_exec(h: &Vec<char>, p: &Vec<char>, start: usize) -> (r: Option<usize>)
    requires
        start <= h.len(),
    ensures
        opt_pos(r) == find_from(h@, p@, start as int),
{
    let mut i: usize = start;
    while i <= h.len()
        invariant
            start <= i <= h.len() + 1,
            find_from(h@, p@, start as int) == find_from(h@, p@, i as int),
        decreases h.len() + 1 - i,
    {
        if p.len() > h.len() - i {
            return None;
        }
        if matches_at(h, p, i) {
            return Some(i);
        }
        assert(i < h.len()) by {
            if i == h.len() {
                assert(h@.subrange(i as int, i as int) =~= p@);
            }
        }
        i = i + 1;
    }
    None
}

/// The first position where `p` occurs in `h`.
pub fn find_exec(h: &Vec<char>, p: &Vec<char>) -> (r: Option<usize>)
    ensures
        opt_pos(r) == find(h@, p@),
{
    find_from_exec(h, p, 0)
}

/// `s` with the first occurrence of `from` replaced by `to`
/// (`str::replacen(from, to, 1)`).
pub fn replace_first_str(s: &str, from: &str, to: &str) -> (r: String)
    ensures
        r@ == replace_first(s@, from@, to@),
{
    let h = chars_of(s);
    let p = chars_of(from);
    match find_exec(&h, &p) {
        None => s.to_owned(),
        Some(i) => {
            proof {
                lemma_find(h@, p@);
            }
            let mut r = string_from_chars(&h, 0, i);
            r.append(to);
            let rest = string_from_chars(&h, i + p.len(), h.len());
            r.append(rest.as_str());
            assert(h@.take(i as int) =~= h@.subrange(0, i as int));
            assert(h@.skip(i + p.len()) =~= h@.subrange(i + p.len(), h.len() as int));
            r
        },
    }
}

/// The last position where `p` occurs in `h`.
pub fn rfind_exec(h: &Vec<char>, p: &Vec<char>) -> (r: Option<usize>)
    ensures
        opt_pos(r) == rfind(h@, p@),
{
    if p.len() > h.len() {
        return None;
    }
    let mut i: usize = h.len() - p.len();
    loop
        invariant
            i + p.len() <= h.len(),
            rfind(h@, p@) == rfind_below(h@, p@, i as int),
        decreases i,
    {
        if matches_at(h, p, i) {
            return Some(i);
        }
        if i == 0 {
            assert(rfind_below(h@, p@, -1) is None);
            return None;
        }
        i = i - 1;
    }
}

} // verus!

verus! {

/// `char::to_ascii_lowercase`: ASCII upper-case letters become lower case,
/// every other character stays.
pub open spec fn ascii_lower(c: char) -> char {
    if 'A' <= c && c <= 'Z' {
        ((c as u32) + 32) as char
    } else {
        c
    }
}

/// `char::to_ascii_uppercase`: ASCII lower-case letters become upper case,
/// every other character stays.
pub open spec fn ascii_upper(c: char) -> char {
    if 'a' <= c && c <= 'z' {
        ((c as u32) - 32) as char
    } else {
        c
    }
}

/// The ASCII lower-case form of a character.
pub fn to_ascii_lowercase(c: char) -> (r: char)
    ensures
        r == ascii_lower(c),
{
    if 'A' <= c && c <= 'Z' {
        ((c as u8) + 32) as char
    } else {
        c
    }
}

/// The ASCII upper-case form of a character.
pub fn to_ascii_uppercase(c: char) -> (r: char)
    ensures
        r == ascii_upper(c),
{
    if 'a' <= c && c <= 'z' {
        ((c as u8) - 32) as char
    } else {
        c
    }
}

/// Whether a character has the Unicode `Uppercase` property
/// (what `char::is_uppercase` answers).
pub uninterp spec fn unicode_is_uppercase(c: char) -> bool;

/// The full Unicode upper-case mapping of a character, which may be
/// several characters long (what `char::to_uppercase` yields).
pub uninterp spec fn unicode_char_to_uppercase(c: char) -> Seq<char>;

/// The Unicode upper-case form of a string (what `str::to_uppercase` returns).
pub uninterp spec fn unicode_str_to_uppercase(s: Seq<char>) -> Seq<char>;

/// The Unicode lower-case form of a string (what `str::to_lowercase` returns).
pub uninterp spec fn unicode_str_to_lowercase(s: Seq<char>) -> Seq<char>;

/// Calls `str::to_lowercase`; the contract names its result
/// `unicode_str_to_lowercase`, a function of the string alone.
#[verifier::external_body]
pub(crate) fn str_to_lowercase(s: &str) -> (r: String)
    ensures
        r@ == unicode_str_to_lowercase(s@),
{
    s.to_lowercase()
}

/// Calls `String::push`; the contract claims that the character is appended.
#[verifier::external_body]
pub(crate) fn push_char(s: &mut String, c: char)
    ensures
        final(s)@ == old(s)@.push(c),
{
    s.push(c);
}

/// Calls `char::is_uppercase`; the contract names its answer
/// `unicode_is_uppercase`, a property of the character alone, and states
/// that among the ASCII characters exactly `A` to `Z` are upper case (the
/// Unicode `Uppercase` property that std documents).
#[verifier::external_body]
pub(crate) fn is_uppercase(c: char) -> (b: bool)
    ensures
        b == unicode_is_uppercase(c),
        c <= '\u{7f}' ==> (b <==> ('A' <= c && c <= 'Z')),
{
    c.is_uppercase()
}

/// Calls `char::to_uppercase` and collects the characters it yields; the
/// contract names them `unicode_char_to_uppercase`, a function of the
/// character alone, and states that an ASCII character maps to its single
/// ASCII upper-case form (`a` to `z` become `A` to `Z`, the others stay).
#[verifier::external_body]
pub(crate) fn char_to_uppercase(c: char) -> (r: String)
    ensures
        r@ == unicode_char_to_uppercase(c),
        c <= '\u{7f}' ==> r@ == seq![ascii_upper(c)],
{
    c.to_uppercase().collect()
}

/// Calls `str::to_uppercase`; the contract names its result
/// `unicode_str_to_uppercase`, a function of the string alone.
#[verifier::external_body]
pub(crate) fn str_to_uppercase(s: &str) -> (r: String)
    ensures
        r@ == unicode_str_to_uppercase(s@),
{
    s.to_uppercase()
}

/// A string holding the characters `v[from..to]`.
pub fn string_from_chars(v: &Vec<char>, from: usize, to: usize) -> (r: String)
    requires
        from <= to <= v.len(),
    ensures
        r@ == v@.subrange(from as int, to as int),
{
    let mut r = String::new();
    let mut i: usize = from;
    while i < to
        invariant
            from <= i <= to <= v.len(),
            r@ == v@.subrange(from as int, i as int),
        decreases to - i,
    {
        push_char(&mut r, v[i]);
        assert(v@.subrange(from as int, i + 1) =~= v@.subrange(from as int, i as int).push(v@[i as int]));
        i = i + 1;
    }
    r
}

} // verus!
