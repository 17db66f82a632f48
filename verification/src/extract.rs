use crate::text::{
    chars_of, dec_val, digit_run_end, is_dec_digit, is_word_char, occurs_at, occurs_at_check,
    parse_u32, word_run_end,
};
use vstd::prelude::*;

verus! {

// ---------------------------------------------------------------------------
// The identifier link pattern
// ---------------------------------------------------------------------------
// Every listing row links to `/{collection}/{id}/detail`; the object
// identifier is the digit segment of the first such fragment of the link.

/// The literal tail that closes an identifier link.
pub open spec fn detail_suffix() -> Seq<char> {
    seq!['/', 'd', 'e', 't', 'a', 'i', 'l']
}

/// The identifier pattern matches at `i`, with the word segment ending at
/// `j` and the digit segment ending at `k`.  Both runs are maximal because
/// the characters at `j` and `k` are slashes.
pub open spec fn id_shape(s: Seq<char>, i: int, j: int, k: int) -> bool {
    &&& 0 <= i
    &&& i + 1 < j
    &&& j + 1 < k
    &&& k + 7 <= s.len()
    &&& s[i] == '/'
    &&& (forall|t: int| i + 1 <= t < j ==> is_word_char(#[trigger] s[t]))
    &&& s[j] == '/'
    &&& (forall|t: int| j + 1 <= t < k ==> is_dec_digit(#[trigger] s[t]))
    &&& s.subrange(k, k + 7) == detail_suffix()
}

/// The identifier pattern matches at position `i`.
pub open spec fn id_match_at(s: Seq<char>, i: int) -> bool {
    exists|j: int, k: int| id_shape(s, i, j, k)
}

/// The pattern matches at `i` and nowhere to the left of it.
pub open spec fn first_id_match(s: Seq<char>, i: int) -> bool {
    id_match_at(s, i) && (forall|i2: int| 0 <= i2 < i ==> !id_match_at(s, i2))
}

/// The digit segment of the match at `i`.
pub open spec fn id_digits_at(s: Seq<char>, i: int) -> Seq<char> {
    let (j, k) = choose|j: int, k: int| id_shape(s, i, j, k);
    s.subrange(j + 1, k)
}

/// Both segment ends of a match are forced, so the digit segment is well
/// defined.
proof fn lemma_id_shape_unique(s: Seq<char>, i: int, j1: int, k1: int, j2: int, k2: int)
    requires
        id_shape(s, i, j1, k1),
        id_shape(s, i, j2, k2),
    ensures
        j1 == j2,
        k1 == k2,
{
    assert(!is_word_char('/'));
    assert(!is_dec_digit('/'));
    if j1 < j2 {
        assert(is_word_char(s[j1]));
        assert(false);
    }
    if j2 < j1 {
        assert(is_word_char(s[j2]));
        assert(false);
    }
    if k1 < k2 {
        assert(s.subrange(k1, k1 + 7)[0] == s[k1]);
        assert(s[k1] == '/');
        assert(is_dec_digit(s[k1]));
        assert(false);
    }
    if k2 < k1 {
        assert(s.subrange(k2, k2 + 7)[0] == s[k2]);
        assert(s[k2] == '/');
        assert(is_dec_digit(s[k2]));
        assert(false);
    }
}

fn detail_pattern() -> (v: Vec<char>)
    ensures
        v@ == detail_suffix(),
{
    let v = chars_of("/detail");
    proof {
        reveal_strlit("/detail");
        assert(v@ =~= detail_suffix());
    }
    v
}

/// Tries the identifier pattern at one slash position.
fn id_try_at(s: &Vec<char>, i: usize) -> (r: Option<(usize, usize)>)
    requires
        i < s@.len(),
        s@[i as int] == '/',
    ensures
        match r {
            Some((j, k)) => id_shape(s@, i as int, j as int, k as int),
            None => !id_match_at(s@, i as int),
        },
{
    let n = s.len();
    proof {
        assert(!is_word_char('/'));
        assert(!is_dec_digit('/'));
    }
    let j = word_run_end(s, i + 1);
    if j == i + 1 || j == n || s[j] != '/' {
        proof {
            assert forall|j2: int, k2: int| !id_shape(s@, i as int, j2, k2) by {
                if id_shape(s@, i as int, j2, k2) {
                    if j2 < j {
                        assert(is_word_char(s@[j2]));
                    } else if j < j2 {
                        assert(is_word_char(s@[j as int]));
                    }
                }
            }
        }
        return None;
    }
    let k = digit_run_end(s, j + 1);
    if k == j + 1 || n - k < 7 {
        proof {
            assert forall|j2: int, k2: int| !id_shape(s@, i as int, j2, k2) by {
                if id_shape(s@, i as int, j2, k2) {
                    if j2 < j {
                        assert(is_word_char(s@[j2]));
                    } else if j < j2 {
                        assert(is_word_char(s@[j as int]));
                    }
                    if k2 < k {
                        assert(s@.subrange(k2, k2 + 7)[0] == s@[k2]);
                        assert(is_dec_digit(s@[k2]));
                    } else if k < k2 {
                        assert(is_dec_digit(s@[k as int]));
                    }
                }
            }
        }
        return None;
    }
    let pat = detail_pattern();
    if occurs_at_check(s, &pat, k) {
        proof {
            assert(s@.subrange(k as int, k + 7) =~= detail_suffix());
        }
        Some((j, k))
    } else {
        proof {
            assert forall|j2: int, k2: int| !id_shape(s@, i as int, j2, k2) by {
                if id_shape(s@, i as int, j2, k2) {
                    if j2 < j {
                        assert(is_word_char(s@[j2]));
                    } else if j < j2 {
                        assert(is_word_char(s@[j as int]));
                    }
                    if k2 < k {
                        assert(s@.subrange(k2, k2 + 7)[0] == s@[k2]);
                        assert(is_dec_digit(s@[k2]));
                    } else if k < k2 {
                        assert(is_dec_digit(s@[k as int]));
                    }
                    if j2 == j && k2 == k {
                        assert(s@.subrange(k as int, k + 7) == detail_suffix());
                        assert(occurs_at(s@, pat@, k as int));
                    }
                }
            }
        }
        None
    }
}

/// Extracts the object identifier from a listing row's link.
///
/// The first fragment of the form `/{collection}/{id}/detail` wins; the
/// digit segment is read in decimal, and a value that does not fit in 32
/// bits counts as no identifier.
pub fn extract_id(href: &str) -> (r: Option<u32>)
    ensures
        match r {
            Some(v) => exists|i: int|
                #[trigger] first_id_match(href@, i) && v as nat == dec_val(id_digits_at(href@, i)),
            None => forall|i: int|
                #[trigger] id_match_at(href@, i) ==> !first_id_match(href@, i) || dec_val(
                    id_digits_at(href@, i),
                ) > u32::MAX,
        },
{
    let s = chars_of(href);
    let n = s.len();
    let mut i: usize = 0;
    while i < n
        invariant
            s@ == href@,
            n == s@.len(),
            forall|i2: int| 0 <= i2 < i ==> !id_match_at(s@, i2),
        decreases n - i,
    {
        if s[i] == '/' {
            match id_try_at(&s, i) {
                Some((j, k)) => {
                    proof {
                        let (j2, k2) = choose|j2: int, k2: int| id_shape(s@, i as int, j2, k2);
                        lemma_id_shape_unique(s@, i as int, j2, k2, j as int, k as int);
                        assert(id_digits_at(s@, i as int) == s@.subrange(j + 1, k as int));
                        assert(first_id_match(s@, i as int));
                    }
                    match parse_u32(&s, j + 1, k) {
                        Some(v) => {
                            return Some(v);
                        },
                        None => {
                            proof {
                                assert forall|i2: int| #[trigger]
                                    id_match_at(href@, i2) implies !first_id_match(href@, i2)
                                    || dec_val(id_digits_at(href@, i2)) > u32::MAX by {
                                    if i2 < i {
                                        assert(!id_match_at(s@, i2));
                                    } else if i2 > i {
                                        assert(id_match_at(s@, i as int));
                                    }
                                }
                            }
                            return None;
                        },
                    }
                },
                None => {
                },
            }
        } else {
            proof {
                assert forall|j2: int, k2: int| !id_shape(s@, i as int, j2, k2) by {}
                assert(!id_match_at(s@, i as int));
            }
        }
        i += 1;
    }
    proof {
        assert forall|i2: int| #[trigger] id_match_at(href@, i2) implies false by {
            if id_match_at(s@, i2) {
                let (j2, k2) = choose|j2: int, k2: int| id_shape(s@, i2, j2, k2);
                if i2 < n {
                    assert(!id_match_at(s@, i2));
                }
            }
        }
    }
    None
}

// ---------------------------------------------------------------------------
// The pagination widget pattern
// ---------------------------------------------------------------------------
// The rows-per-page dropdown of a paginated table is named
// `orgUnitDetailsTabViewId:{widget}_rppDD`; the widget identifier is the
// longest word-character segment between the first matching prefix and a
// closing `_rppDD`.

/// The fixed view identifier prefix, colon included.
pub open spec fn tab_prefix() -> Seq<char> {
    seq![
        'o',
        'r',
        'g',
        'U',
        'n',
        'i',
        't',
        'D',
        'e',
        't',
        'a',
        'i',
        'l',
        's',
        'T',
        'a',
        'b',
        'V',
        'i',
        'e',
        'w',
        'I',
        'd',
        ':',
    ]
}

/// The literal tail that closes the dropdown name.
pub open spec fn rpp_suffix() -> Seq<char> {
    seq!['_', 'r', 'p', 'p', 'D', 'D']
}

/// The widget pattern matches at `i` with a capture of length `c`.
pub open spec fn tab_shape(s: Seq<char>, i: int, c: int) -> bool {
    &&& 0 <= i
    &&& 0 <= c
    &&& i + 24 + c + 6 <= s.len()
    &&& s.subrange(i, i + 24) == tab_prefix()
    &&& (forall|t: int| i + 24 <= t < i + 24 + c ==> is_word_char(#[trigger] s[t]))
    &&& s.subrange(i + 24 + c, i + 24 + c + 6) == rpp_suffix()
}

/// The widget pattern matches at position `i`.
pub open spec fn tab_match_at(s: Seq<char>, i: int) -> bool {
    exists|c: int| tab_shape(s, i, c)
}

/// The pattern matches at `i` and nowhere to the left of it.
pub open spec fn first_tab_match(s: Seq<char>, i: int) -> bool {
    tab_match_at(s, i) && (forall|i2: int| 0 <= i2 < i ==> !tab_match_at(s, i2))
}

/// The longest capture wins, as a greedy segment match does.
pub open spec fn tab_best(s: Seq<char>, i: int, c: int) -> bool {
    tab_shape(s, i, c) && (forall|c2: int| c2 > c ==> !tab_shape(s, i, c2))
}

/// The widget identifier captured by the match at `i`.
pub open spec fn tab_capture(s: Seq<char>, i: int) -> Seq<char> {
    let c = choose|c: int| tab_best(s, i, c);
    s.subrange(i + 24, i + 24 + c)
}

proof fn lemma_tab_best_unique(s: Seq<char>, i: int, c1: int, c2: int)
    requires
        tab_best(s, i, c1),
        tab_best(s, i, c2),
    ensures
        c1 == c2,
{
    if c1 < c2 {
        assert(!tab_shape(s, i, c2));
    }
    if c2 < c1 {
        assert(!tab_shape(s, i, c1));
    }
}

fn tab_prefix_pattern() -> (v: Vec<char>)
    ensures
        v@ == tab_prefix(),
{
    let v = chars_of("orgUnitDetailsTabViewId:");
    proof {
        reveal_strlit("orgUnitDetailsTabViewId:");
        assert(v@ =~= tab_prefix());
    }
    v
}

fn rpp_pattern() -> (v: Vec<char>)
    ensures
        v@ == rpp_suffix(),
{
    let v = chars_of("_rppDD");
    proof {
        reveal_strlit("_rppDD");
        assert(v@ =~= rpp_suffix());
    }
    v
}

/// Finds the greedy capture length at one prefix occurrence.
fn tab_try_at(s: &Vec<char>, suf: &Vec<char>, i: usize) -> (r: Option<usize>)
    requires
        suf@ == rpp_suffix(),
        i + 30 <= s@.len(),
        s@.subrange(i as int, i + 24) == tab_prefix(),
    ensures
        match r {
            Some(c) => tab_best(s@, i as int, c as int),
            None => !tab_match_at(s@, i as int),
        },
{
    let n = s.len();
    let p = i + 24;
    let m = word_run_end(s, p);
    let c_hi = if m - p <= n - p - 6 {
        m - p
    } else {
        n - p - 6
    };
    proof {
        assert forall|c2: int| c2 > c_hi implies !tab_shape(s@, i as int, c2) by {
            if tab_shape(s@, i as int, c2) {
                if m < n && m - p < c2 {
                    assert(is_word_char(s@[m as int]));
                }
            }
        }
    }
    let mut cc = c_hi + 1;
    while cc > 0
        invariant
            cc <= c_hi + 1,
            suf@ == rpp_suffix(),
            n == s@.len(),
            p == i + 24,
            i + 30 <= n,
            c_hi <= n - p - 6,
            s@.subrange(i as int, i + 24) == tab_prefix(),
            forall|t: int| p <= t < p + c_hi ==> is_word_char(#[trigger] s@[t]),
            forall|c2: int| c2 > cc - 1 ==> !tab_shape(s@, i as int, c2),
        decreases cc,
    {
        let c = cc - 1;
        if occurs_at_check(s, suf, p + c) {
            proof {
                assert(s@.subrange(p + c, p + c + 6) =~= rpp_suffix());
                assert(tab_shape(s@, i as int, c as int));
            }
            return Some(c);
        }
        proof {
            assert forall|c2: int| c2 > cc - 2 implies !tab_shape(s@, i as int, c2) by {
                if tab_shape(s@, i as int, c2) && c2 == c {
                    assert(s@.subrange(p + c, p + c + 6) == rpp_suffix());
                    assert(occurs_at(s@, suf@, (p + c) as int));
                }
            }
        }
        cc -= 1;
    }
    None
}

/// Extracts the pagination widget identifier from the dropdown's `name`
/// attribute: the greedy capture at the first occurrence of the pattern
/// `orgUnitDetailsTabViewId:{widget}_rppDD`.
pub fn extract_tab_view_id(attr: &str) -> (r: Option<String>)
    ensures
        match r {
            Some(w) => exists|i: int|
                #[trigger] first_tab_match(attr@, i) && w@ == tab_capture(attr@, i),
            None => forall|i: int| !tab_match_at(attr@, i),
        },
{
    let s = chars_of(attr);
    let n = s.len();
    if n < 30 {
        proof {
            assert forall|i: int| !tab_match_at(s@, i) by {
                if tab_match_at(s@, i) {
                    let c = choose|c: int| tab_shape(s@, i, c);
                }
            }
        }
        return None;
    }
    let pre = tab_prefix_pattern();
    let suf = rpp_pattern();
    let last = n - 30;
    let mut i: usize = 0;
    while i <= last
        invariant
            s@ == attr@,
            n == s@.len(),
            30 <= n,
            last == n - 30,
            pre@ == tab_prefix(),
            suf@ == rpp_suffix(),
            i <= last + 1,
            forall|i2: int| 0 <= i2 < i ==> !tab_match_at(s@, i2),
        decreases last + 1 - i,
    {
        if occurs_at_check(&s, &pre, i) {
            match tab_try_at(&s, &suf, i) {
                Some(c) => {
                    proof {
                        let c2 = choose|c2: int| tab_best(s@, i as int, c2);
                        lemma_tab_best_unique(s@, i as int, c2, c as int);
                        assert(tab_capture(s@, i as int) == s@.subrange(
                            i + 24,
                            i + 24 + c as int,
                        ));
                        assert(first_tab_match(s@, i as int));
                    }
                    let w = attr.substring_char(i + 24, i + 24 + c).to_owned();
                    return Some(w);
                },
                None => {
                },
            }
        } else {
            proof {
                assert forall|c2: int| !tab_shape(s@, i as int, c2) by {
                    if tab_shape(s@, i as int, c2) {
                        assert(occurs_at(s@, pre@, i as int));
                    }
                }
                assert(!tab_match_at(s@, i as int));
            }
        }
        i += 1;
    }
    proof {
        assert forall|i2: int| !tab_match_at(s@, i2) by {
            if tab_match_at(s@, i2) {
                let c = choose|c: int| tab_shape(s@, i2, c);
                if 0 <= i2 < i {
                    assert(!tab_match_at(s@, i2));
                }
            }
        }
    }
    None
}

} // verus!
