use vstd::prelude::*;

verus! {

/// ASCII lower-casing of one character; anything outside `A`..`Z` is
/// unchanged. This is the folding the store's search and the bearer-prefix
/// check go by.
pub open spec fn lower_char(c: char) -> char {
    if 'A' <= c && c <= 'Z' {
        (((c as u8) + 32) as char)
    } else {
        c
    }
}

/// Lower-case one character, ASCII only.
pub fn lower_char_exec(c: char) -> (r: char)
    ensures
        r == lower_char(c),
{
    if 'A' <= c && c <= 'Z' {
        (((c as u8) + 32) as char)
    } else {
        c
    }
}

/// The pattern occurs in the haystack starting at position `i`, compared
/// character by character under ASCII case folding.
pub open spec fn match_at(hay: Seq<char>, pat: Seq<char>, i: int) -> bool {
    forall|k: int| 0 <= k < pat.len() ==> lower_char(hay[i + k]) == lower_char(#[trigger] pat[k])
}

/// The pattern occurs somewhere in the haystack, under ASCII case folding.
/// An empty pattern occurs in everything.
pub open spec fn contains_ci(hay: Seq<char>, pat: Seq<char>) -> bool {
    exists|i: int| 0 <= i <= hay.len() - pat.len() && match_at(hay, pat, i)
}

/// Case-insensitive substring search, the library's reading of a `LIKE
/// %pattern%` filter.
pub fn contains_ignore_case(hay: &str, pat: &str) -> (r: bool)
    ensures
        r == contains_ci(hay@, pat@),
{
    let hay_len = hay.unicode_len();
    let pat_len = pat.unicode_len();
    if pat_len > hay_len {
        assert(!contains_ci(hay@, pat@));
        return false;
    }
    let mut i: usize = 0;
    while i <= hay_len - pat_len
        invariant
            hay_len == hay@.len(),
            pat_len == pat@.len(),
            pat_len <= hay_len,
            i <= hay_len - pat_len + 1,
            forall|j: int| 0 <= j < i ==> !match_at(hay@, pat@, j),
        decreases hay_len - pat_len - i + 1,
    {
        let mut k: usize = 0;
        let mut hit = true;
        while k < pat_len
            invariant
                hay_len == hay@.len(),
                pat_len == pat@.len(),
                pat_len <= hay_len,
                i <= hay_len - pat_len,
                k <= pat_len,
                hit ==> forall|m: int|
                    0 <= m < k ==> lower_char(hay@[i + m]) == lower_char(#[trigger] pat@[m]),
                !hit ==> !match_at(hay@, pat@, i as int),
            decreases pat_len - k,
        {
            let hc = lower_char_exec(hay.get_char(i + k));
            let pc = lower_char_exec(pat.get_char(k));
            if hc != pc {
                assert(!match_at(hay@, pat@, i as int));
                hit = false;
                k = pat_len;
            } else {
                k = k + 1;
            }
        }
        if hit {
            assert(match_at(hay@, pat@, i as int));
            return true;
        }
        i = i + 1;
    }
    assert(forall|j: int| 0 <= j <= hay@.len() - pat@.len() ==> !match_at(hay@, pat@, j));
    false
}

/// The shape of a usable `authorization` header: at least one character of
/// token after a seven-character prefix that spells `bearer ` in any case
/// mix. The characters past the prefix are the presented token.
pub open spec fn is_bearer(h: Seq<char>) -> bool {
    &&& h.len() > 7
    &&& lower_char(h[0]) == 'b'
    &&& lower_char(h[1]) == 'e'
    &&& lower_char(h[2]) == 'a'
    &&& lower_char(h[3]) == 'r'
    &&& lower_char(h[4]) == 'e'
    &&& lower_char(h[5]) == 'r'
    &&& h[6] == ' '
}

/// Strip the case-insensitive `bearer ` prefix from an `authorization`
/// header, handing back the token it carries, or nothing where the header
/// is not a bearer header.
pub fn strip_bearer(header: &str) -> (r: Option<String>)
    ensures
        r is Some <==> is_bearer(header@),
        r matches Some(t) ==> t@ == header@.subrange(7, header@.len() as int),
{
    let len = header.unicode_len();
    if len <= 7 {
        return None;
    }
    if lower_char_exec(header.get_char(0)) != 'b' || lower_char_exec(header.get_char(1)) != 'e'
        || lower_char_exec(header.get_char(2)) != 'a' || lower_char_exec(header.get_char(3))
        != 'r' || lower_char_exec(header.get_char(4)) != 'e' || lower_char_exec(
        header.get_char(5),
    ) != 'r' || header.get_char(6) != ' ' {
        return None;
    }
    let token = header.substring_char(7, len);
    Some(token.to_owned())
}

} // verus!
