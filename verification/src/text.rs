//! Character-level helpers over strings: character classes, slicing,
//! trimming and splitting.

use vstd::prelude::*;
use vstd::string::StrSliceExecFns;

verus! {

broadcast use vstd::string::group_string_axioms;

/// Calls `String::push`. Trusted: the character is appended.
#[verifier::external_body]
pub(crate) fn push_char(s: &mut String, c: char)
    ensures
        final(s)@ == old(s)@.push(c),
{
    s.push(c);
}

/// The characters of a string, in order.
pub fn chars_of(s: &str) -> (res: Vec<char>)
    ensures
        res@ == s@,
{
    let mut res: Vec<char> = Vec::new();
    for c in iter: s.chars()
        invariant
            iter.seq() == s@,
            res@ == iter.seq().take(iter.index() as int),
    {
        res.push(c);
    }
    assert(res@ == s@.take(s@.len() as int));
    res
}

/// The string made of `chars[start..end]`.
pub fn string_from_range(chars: &Vec<char>, start: usize, end: usize) -> (res: String)
    requires
        start <= end <= chars.len(),
    ensures
        res@ == chars@.subrange(start as int, end as int),
{
    let mut res = String::new();
    let mut i = start;
    while i < end
        invariant
            start <= i <= end <= chars.len(),
            res@ == chars@.subrange(start as int, i as int),
        decreases end - i,
    {
        push_char(&mut res, chars[i]);
        assert(chars@.subrange(start as int, i + 1) == chars@.subrange(start as int, i as int).push(chars@[i as int]));
        i = i + 1;
    }
    res
}

/// Unicode `White_Space`: what `char::is_whitespace` accepts.
pub open spec fn is_white_space(c: char) -> bool {
    let v = c as u32;
    ||| 0x9 <= v <= 0xd
    ||| v == 0x20
    ||| v == 0x85
    ||| v == 0xa0
    ||| v == 0x1680
    ||| 0x2000 <= v <= 0x200a
    ||| v == 0x2028
    ||| v == 0x2029
    ||| v == 0x202f
    ||| v == 0x205f
    ||| v == 0x3000
}

/// Whether `c` is Unicode white space.
pub fn white_space(c: char) -> (res: bool)
    ensures
        res == is_white_space(c),
{
    let v = c as u32;
    (0x9 <= v && v <= 0xd) || v == 0x20 || v == 0x85 || v == 0xa0 || v == 0x1680
        || (0x2000 <= v && v <= 0x200a) || v == 0x2028 || v == 0x2029 || v == 0x202f
        || v == 0x205f || v == 0x3000
}

/// The first index `j >= i` of `src` that holds `c`, or the length.
pub open spec fn find_char(src: Seq<char>, i: int, c: char) -> int
    decreases src.len() - i,
{
    if i < 0 || i >= src.len() {
        src.len() as int
    } else if src[i] == c {
        i
    } else {
        find_char(src, i + 1, c)
    }
}

/// `find_char` stays within `[i, len]`, and what it skips differs from `c`.
pub proof fn lemma_find_char_bounds(src: Seq<char>, i: int, c: char)
    requires
        0 <= i,
    ensures
        i <= find_char(src, i, c) <= src.len() || (i > src.len() && find_char(src, i, c) == src.len()),
        find_char(src, i, c) < src.len() ==> src[find_char(src, i, c)] == c,
        forall|k: int| i <= k < find_char(src, i, c) ==> src[k] != c,
    decreases src.len() - i,
{
    if i < src.len() && src[i] != c {
        lemma_find_char_bounds(src, i + 1, c);
    }
}

/// Index of the first `c` at or after `i` in `src`, or its length.
pub fn find_char_from(src: &Vec<char>, i: usize, c: char) -> (res: usize)
    requires
        i <= src.len(),
    ensures
        res == find_char(src@, i as int, c),
        i <= res <= src.len(),
{
    let mut j = i;
    while j < src.len()
        invariant
            i <= j <= src.len(),
            find_char(src@, j as int, c) == find_char(src@, i as int, c),
        decreases src.len() - j,
    {
        if src[j] == c {
            return j;
        }
        j = j + 1;
    }
    j
}

/// The texts of a sequence of strings.
pub open spec fn strings_view(v: Seq<String>) -> Seq<Seq<char>> {
    v.map_values(|x: String| x@)
}

/// `p` without its leading white space.
pub open spec fn trim_start(p: Seq<char>) -> Seq<char>
    decreases p.len(),
{
    if p.len() > 0 && is_white_space(p[0]) {
        trim_start(p.drop_first())
    } else {
        p
    }
}

/// `p` without its trailing white space.
pub open spec fn trim_end(p: Seq<char>) -> Seq<char>
    decreases p.len(),
{
    if p.len() > 0 && is_white_space(p.last()) {
        trim_end(p.drop_last())
    } else {
        p
    }
}

/// `p` without leading and trailing white space (what `str::trim` gives).
pub open spec fn trim(p: Seq<char>) -> Seq<char> {
    trim_end(trim_start(p))
}

/// The pieces of `s[start..]` between commas, in order.
pub open spec fn split_from(s: Seq<char>, start: int) -> Seq<Seq<char>>
    decreases s.len() - start,
{
    if start < 0 || start > s.len() {
        seq![]
    } else {
        let k = find_char(s, start, ',');
        proof {
            lemma_find_char_bounds(s, start, ',');
        }
        if k >= s.len() {
            seq![s.subrange(start, s.len() as int)]
        } else {
            seq![s.subrange(start, k)].add(split_from(s, k + 1))
        }
    }
}

/// The comma-separated names of a list, each trimmed of white space.
pub open spec fn identifier_names(s: Seq<char>) -> Seq<Seq<char>> {
    split_from(s, 0).map_values(|p: Seq<char>| trim(p))
}

/// `chars[start..end]` trimmed of white space, as a string.
pub fn trimmed_range(chars: &Vec<char>, start: usize, end: usize) -> (res: String)
    requires
        start <= end <= chars.len(),
    ensures
        res@ == trim(chars@.subrange(start as int, end as int)),
{
    let mut a = start;
    while a < end && white_space(chars[a])
        invariant
            start <= a <= end <= chars.len(),
            trim_start(chars@.subrange(start as int, end as int)) == trim_start(chars@.subrange(a as int, end as int)),
        decreases end - a,
    {
        assert(chars@.subrange(a as int, end as int).drop_first() =~= chars@.subrange(a + 1, end as int));
        a = a + 1;
    }
    assert(trim_start(chars@.subrange(a as int, end as int)) == chars@.subrange(a as int, end as int));
    let mut b = end;
    while b > a && white_space(chars[b - 1])
        invariant
            start <= a <= b <= end <= chars.len(),
            trim_end(chars@.subrange(a as int, end as int)) == trim_end(chars@.subrange(a as int, b as int)),
        decreases b - a,
    {
        assert(chars@.subrange(a as int, b as int).drop_last() =~= chars@.subrange(a as int, b - 1));
        b = b - 1;
    }
    string_from_range(chars, a, b)
}

/// Splits a list of names at its commas and trims each name of white
/// space.
pub fn split_names(s: &str) -> (res: Vec<String>)
    ensures
        strings_view(res@) == identifier_names(s@),
{
    let chars = chars_of(s);
    let mut res: Vec<String> = Vec::new();
    let mut start: usize = 0;
    loop
        invariant
            chars@ == s@,
            start <= chars.len(),
            strings_view(res@) + split_from(chars@, start as int).map_values(|p: Seq<char>| trim(p))
                == identifier_names(s@),
        decreases chars.len() - start,
    {
        let k = find_char_from(&chars, start, ',');
        let piece = trimmed_range(&chars, start, k);
        let ghost before = strings_view(res@);
        res.push(piece);
        assert(strings_view(res@) =~= before.push(piece@));
        if k >= chars.len() {
            assert(split_from(chars@, start as int) == seq![chars@.subrange(start as int, chars@.len() as int)]);
            assert(split_from(chars@, start as int).map_values(|p: Seq<char>| trim(p)) =~= seq![piece@]);
            assert(strings_view(res@) =~= identifier_names(s@));
            return res;
        }
        let ghost rest = split_from(chars@, k + 1);
        assert(split_from(chars@, start as int) == seq![chars@.subrange(start as int, k as int)].add(rest));
        assert(split_from(chars@, start as int).map_values(|p: Seq<char>| trim(p))
            =~= seq![piece@].add(rest.map_values(|p: Seq<char>| trim(p))));
        start = k + 1;
    }
}

/// `trim_start(p)` is a suffix of `p` that starts with no white space.
proof fn lemma_trim_start(p: Seq<char>) -> (a: int)
    ensures
        0 <= a <= p.len(),
        trim_start(p) == p.subrange(a, p.len() as int),
        a < p.len() ==> !is_white_space(p[a]),
    decreases p.len(),
{
    if p.len() > 0 && is_white_space(p[0]) {
        let a1 = lemma_trim_start(p.drop_first());
        assert(p.drop_first().subrange(a1, p.len() - 1) =~= p.subrange(a1 + 1, p.len() as int));
        a1 + 1
    } else {
        assert(p.subrange(0, p.len() as int) =~= p);
        0
    }
}

/// `trim_end(p)` is a prefix of `p` that ends with no white space.
proof fn lemma_trim_end(p: Seq<char>) -> (b: int)
    ensures
        0 <= b <= p.len(),
        trim_end(p) == p.subrange(0, b),
        b > 0 ==> !is_white_space(p[b - 1]),
    decreases p.len(),
{
    if p.len() > 0 && is_white_space(p.last()) {
        let b1 = lemma_trim_end(p.drop_last());
        assert(p.drop_last().subrange(0, b1) =~= p.subrange(0, b1));
        b1
    } else {
        assert(p.subrange(0, p.len() as int) =~= p);
        p.len() as int
    }
}

/// `trim(p)` is a piece of `p`, and trimming it again changes nothing.
proof fn lemma_trim(p: Seq<char>) -> (range: (int, int))
    ensures
        0 <= range.0 <= range.1 <= p.len(),
        trim(p) == p.subrange(range.0, range.1),
        trim(trim(p)) == trim(p),
{
    let a = lemma_trim_start(p);
    let ts = trim_start(p);
    let b = lemma_trim_end(ts);
    let t = trim(p);
    assert(t =~= p.subrange(a, a + b));
    if t.len() > 0 {
        assert(t[0] == ts[0]);
        assert(trim_start(t) == t);
        assert(t.last() == ts[b - 1]);
        assert(trim_end(t) == t);
    } else {
        assert(trim_start(t) == t);
        assert(trim_end(t) == t);
    }
    (a, a + b)
}

/// The pieces joined back, with a comma between each two.
pub open spec fn join_with_commas(pieces: Seq<Seq<char>>) -> Seq<char>
    decreases pieces.len(),
{
    if pieces.len() == 0 {
        Seq::empty()
    } else if pieces.len() == 1 {
        pieces[0]
    } else {
        pieces[0] + seq![','] + join_with_commas(pieces.drop_first())
    }
}

/// Whether `p` holds no comma.
pub open spec fn comma_free(p: Seq<char>) -> bool {
    forall|j: int| 0 <= j < p.len() ==> p[j] != ','
}

/// Splitting `s[start..]` at its commas gives at least one piece, no piece
/// holds a comma, and the pieces joined with commas give `s[start..]` back.
proof fn lemma_split_from(s: Seq<char>, start: int)
    requires
        0 <= start <= s.len(),
    ensures
        split_from(s, start).len() >= 1,
        forall|i: int| 0 <= i < split_from(s, start).len() ==> comma_free(#[trigger] split_from(s, start)[i]),
        join_with_commas(split_from(s, start)) == s.subrange(start, s.len() as int),
    decreases s.len() - start,
{
    lemma_find_char_bounds(s, start, ',');
    let k = find_char(s, start, ',');
    let pieces = split_from(s, start);
    if k >= s.len() {
        assert(pieces == seq![s.subrange(start, s.len() as int)]);
        assert(comma_free(pieces[0]));
    } else {
        lemma_split_from(s, k + 1);
        let rest = split_from(s, k + 1);
        assert(pieces == seq![s.subrange(start, k)].add(rest));
        assert(pieces.drop_first() =~= rest);
        assert(comma_free(pieces[0]));
        assert forall|i: int| 0 <= i < pieces.len() implies comma_free(#[trigger] pieces[i]) by {
            if i > 0 {
                assert(pieces[i] == rest[i - 1]);
            }
        }
        assert(s.subrange(start, k) + seq![','] + s.subrange(k + 1, s.len() as int) =~= s.subrange(start, s.len() as int));
    }
}

/// The names of a comma-separated list, before trimming.
pub open spec fn name_pieces(s: Seq<char>) -> Seq<Seq<char>> {
    split_from(s, 0)
}

/// Reading the names of a comma-separated list loses nothing but white
/// space: the list has at least one name; each name is its piece of the
/// list trimmed, and the pieces joined with commas give the list back; no
/// name holds a comma, and trimming a name again leaves it as it is.
pub proof fn lemma_identifier_names(s: Seq<char>)
    ensures
        identifier_names(s).len() == name_pieces(s).len(),
        identifier_names(s).len() >= 1,
        join_with_commas(name_pieces(s)) == s,
        forall|i: int| 0 <= i < identifier_names(s).len() ==> {
            &&& #[trigger] identifier_names(s)[i] == trim(name_pieces(s)[i])
            &&& comma_free(identifier_names(s)[i])
            &&& trim(identifier_names(s)[i]) == identifier_names(s)[i]
        },
{
    lemma_split_from(s, 0);
    assert(s.subrange(0, s.len() as int) =~= s);
    let pieces = name_pieces(s);
    assert forall|i: int| 0 <= i < identifier_names(s).len() implies {
        &&& #[trigger] identifier_names(s)[i] == trim(name_pieces(s)[i])
        &&& comma_free(identifier_names(s)[i])
        &&& trim(identifier_names(s)[i]) == identifier_names(s)[i]
    } by {
        let p = pieces[i];
        assert(comma_free(p));
        let (a, b) = lemma_trim(p);
        let t = trim(p);
        assert forall|j: int| 0 <= j < t.len() implies t[j] != ',' by {
            assert(t[j] == p[a + j]);
        }
    }
}

/// Whether two character vectors are equal.
pub fn chars_equal(a: &Vec<char>, b: &Vec<char>) -> (res: bool)
    ensures
        res == (a@ == b@),
{
    if a.len() != b.len() {
        return false;
    }
    let mut k: usize = 0;
    while k < a.len()
        invariant
            a.len() == b.len(),
            k <= a.len(),
            forall|m: int| 0 <= m < k ==> a@[m] == b@[m],
        decreases a.len() - k,
    {
        if a[k] != b[k] {
            return false;
        }
        k = k + 1;
    }
    assert(a@ =~= b@);
    true
}

/// Whether the text of `s` is `word`.
pub fn string_is(s: &String, word: &Vec<char>) -> (res: bool)
    ensures
        res == (s@ == word@),
{
    chars_equal(&chars_of(s.as_str()), word)
}

/// The non-empty strings of `ss`, in order.
pub open spec fn non_empty(ss: Seq<Seq<char>>) -> Seq<Seq<char>>
    decreases ss.len(),
{
    if ss.len() == 0 {
        seq![]
    } else if ss.last().len() > 0 {
        non_empty(ss.drop_last()).push(ss.last())
    } else {
        non_empty(ss.drop_last())
    }
}

/// The non-empty strings of `v`, in order.
pub fn keep_non_empty(v: Vec<String>) -> (res: Vec<String>)
    ensures
        strings_view(res@) == non_empty(strings_view(v@)),
{
    let mut res: Vec<String> = Vec::new();
    let mut i: usize = 0;
    while i < v.len()
        invariant
            i <= v.len(),
            strings_view(res@) == non_empty(strings_view(v@).take(i as int)),
        decreases v.len() - i,
    {
        assert(strings_view(v@).take(i + 1).drop_last() =~= strings_view(v@).take(i as int));
        assert(strings_view(v@).take(i + 1).last() == v@[i as int]@);
        let ghost before = strings_view(res@);
        if v[i].as_str().unicode_len() > 0 {
            res.push(v[i].clone());
            assert(strings_view(res@) =~= before.push(v@[i as int]@));
        }
        i = i + 1;
    }
    assert(strings_view(v@).take(v.len() as int) =~= strings_view(v@));
    res
}

/// Whether `s` starts with `prefix`.
pub open spec fn starts_with(s: Seq<char>, prefix: Seq<char>) -> bool {
    prefix.len() <= s.len() && s.take(prefix.len() as int) == prefix
}

/// Whether the text of `s` starts with `prefix`.
pub fn has_prefix(s: &String, prefix: &Vec<char>) -> (res: bool)
    ensures
        res == starts_with(s@, prefix@),
{
    let chars = chars_of(s.as_str());
    if prefix.len() > chars.len() {
        return false;
    }
    let mut k: usize = 0;
    while k < prefix.len()
        invariant
            prefix.len() <= chars.len(),
            chars@ == s@,
            k <= prefix.len(),
            forall|m: int| 0 <= m < k ==> chars@[m] == prefix@[m],
        decreases prefix.len() - k,
    {
        if chars[k] != prefix[k] {
            assert(s@.take(prefix.len() as int)[k as int] != prefix@[k as int]);
            return false;
        }
        k = k + 1;
    }
    assert(s@.take(prefix.len() as int) =~= prefix@);
    true
}

/// The text of `s` from its `from`-th character on.
pub fn suffix_from(s: &String, from: usize) -> (res: String)
    requires
        from <= s@.len(),
    ensures
        res@ == s@.skip(from as int),
{
    let chars = chars_of(s.as_str());
    let res = string_from_range(&chars, from, chars.len());
    assert(res@ =~= s@.skip(from as int));
    res
}

/// A character in ASCII upper case.
pub open spec fn upper_char(c: char) -> char {
    if 97 <= c as u32 <= 122 {
        ((c as u32) - 32) as char
    } else {
        c
    }
}

/// A text in ASCII upper case.
pub open spec fn ascii_upper(s: Seq<char>) -> Seq<char> {
    s.map_values(|c: char| upper_char(c))
}

/// The characters of `s` in ASCII upper case.
pub fn upper_chars(s: &String) -> (res: Vec<char>)
    ensures
        res@ == ascii_upper(s@),
{
    let chars = chars_of(s.as_str());
    let mut res: Vec<char> = Vec::new();
    let mut i: usize = 0;
    while i < chars.len()
        invariant
            chars@ == s@,
            i <= chars.len(),
            res@ == ascii_upper(chars@.take(i as int)),
        decreases chars.len() - i,
    {
        let c = chars[i];
        let v = c as u32;
        let u = if 97 <= v && v <= 122 {
            ((v - 32) as u8) as char
        } else {
            c
        };
        assert(u == upper_char(c));
        res.push(u);
        assert(ascii_upper(chars@.take(i + 1)) =~= ascii_upper(chars@.take(i as int)).push(upper_char(c)));
        i = i + 1;
    }
    assert(chars@.take(chars.len() as int) =~= chars@);
    res
}

} // verus!
