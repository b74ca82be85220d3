//! Character-level text utilities: substring search, ASCII case
//! normalisation, and decimal rendering of issue numbers. All contracts
//! are stated over `Seq<char>` views of the exec strings.

use vstd::prelude::*;

verus! {

/// `pat` occurs in `s` starting at position `i`.
pub open spec fn occurs_at(s: Seq<char>, pat: Seq<char>, i: int) -> bool {
    0 <= i && i + pat.len() <= s.len() && s.subrange(i, i + pat.len()) == pat
}

/// `pat` occurs somewhere in `s`.
pub open spec fn contains_seq(s: Seq<char>, pat: Seq<char>) -> bool {
    exists|i: int| occurs_at(s, pat, i)
}

/// Whether the characters of `s` starting at `i` match `pat`.
fn matches_at(s: &str, pat: &str, i: usize) -> (r: bool)
    requires
        i + pat@.len() <= s@.len(),
    ensures
        r == occurs_at(s@, pat@, i as int),
{
    let s_len = s.unicode_len();
    let pat_len = pat.unicode_len();
    let mut j: usize = 0;
    while j < pat_len
        invariant
            j <= pat_len,
            s_len == s@.len(),
            pat_len == pat@.len(),
            i + pat@.len() <= s@.len(),
            forall|k: int| 0 <= k < j ==> s@[i + k] == pat@[k],
        decreases pat_len - j,
    {
        if s.get_char(i + j) != pat.get_char(j) {
            assert(s@.subrange(i as int, i + pat@.len()) != pat@) by {
                assert(s@.subrange(i as int, i + pat@.len())[j as int] != pat@[j as int]);
            }
            return false;
        }
        j += 1;
    }
    assert(s@.subrange(i as int, i + pat@.len()) =~= pat@);
    true
}

/// Substring search: does `pat` occur anywhere in `s`?
pub fn contains_str(s: &str, pat: &str) -> (r: bool)
    ensures
        r == contains_seq(s@, pat@),
{
    let s_len = s.unicode_len();
    let pat_len = pat.unicode_len();
    if pat_len > s_len {
        assert(forall|i: int| !occurs_at(s@, pat@, i));
        return false;
    }
    if pat_len == 0 {
        assert(s@.subrange(0, 0) =~= pat@);
        assert(occurs_at(s@, pat@, 0));
        return true;
    }
    let mut i: usize = 0;
    while i <= s_len - pat_len
        invariant
            1 <= pat_len <= s_len,
            s_len == s@.len(),
            pat_len == pat@.len(),
            i <= s_len - pat_len + 1,
            forall|k: int| 0 <= k < i ==> !occurs_at(s@, pat@, k),
        decreases s_len - pat_len - i + 1,
    {
        if matches_at(s, pat, i) {
            return true;
        }
        i += 1;
    }
    assert(forall|k: int| !occurs_at(s@, pat@, k));
    false
}

/// The decimal digit character for a value below ten.
pub open spec fn digit_char(d: nat) -> char
    recommends
        d < 10,
{
    if d == 0 {
        '0'
    } else if d == 1 {
        '1'
    } else if d == 2 {
        '2'
    } else if d == 3 {
        '3'
    } else if d == 4 {
        '4'
    } else if d == 5 {
        '5'
    } else if d == 6 {
        '6'
    } else if d == 7 {
        '7'
    } else if d == 8 {
        '8'
    } else {
        '9'
    }
}

/// The decimal rendering of a natural number, most significant digit first.
pub open spec fn decimal_of(n: nat) -> Seq<char>
    decreases n,
{
    if n < 10 {
        seq![digit_char(n)]
    } else {
        decimal_of(n / 10).push(digit_char(n % 10))
    }
}

/// The one-character string for a decimal digit.
fn digit_str(d: u32) -> (r: &'static str)
    requires
        d < 10,
    ensures
        r@ == seq![digit_char(d as nat)],
{
    proof {
        reveal_strlit("0");
        reveal_strlit("1");
        reveal_strlit("2");
        reveal_strlit("3");
        reveal_strlit("4");
        reveal_strlit("5");
        reveal_strlit("6");
        reveal_strlit("7");
        reveal_strlit("8");
        reveal_strlit("9");
    }
    let r = match d {
        0 => "0",
        1 => "1",
        2 => "2",
        3 => "3",
        4 => "4",
        5 => "5",
        6 => "6",
        7 => "7",
        8 => "8",
        _ => "9",
    };
    proof {
        assert(r@ =~= seq![digit_char(d as nat)]);
    }
    r
}

/// Renders an issue number in decimal.
pub fn u32_to_string(n: u32) -> (r: String)
    ensures
        r@ == decimal_of(n as nat),
    decreases n,
{
    if n < 10 {
        String::from_str(digit_str(n))
    } else {
        let mut s = u32_to_string(n / 10);
        s.append(digit_str(n % 10));
        s
    }
}

/// Lower-case ASCII letters and digits: the characters a slug keeps.
pub open spec fn is_slug_char(c: char) -> bool {
    ('a' <= c && c <= 'z') || ('0' <= c && c <= '9')
}

/// ASCII lower-casing; every other character is left unchanged.
pub open spec fn lower_char(c: char) -> char {
    if 'A' <= c && c <= 'Z' {
        (((c as u32) + 32) as u8) as char
    } else {
        c
    }
}

/// ASCII lower-casing of one character.
pub fn to_lower_char(c: char) -> (r: char)
    ensures
        r == lower_char(c),
{
    let v = c as u32;
    if 65 <= v && v <= 90 {
        ((v + 32) as u8) as char
    } else {
        c
    }
}

/// The body of a slug built from `s`: characters are ASCII-lower-cased,
/// every maximal run of other characters becomes a single hyphen, and no
/// hyphen is emitted at the start or the end. `started` records whether a
/// kept character has been emitted yet; `pending` records whether a
/// separator run is waiting to be turned into a hyphen.
pub open spec fn slug_body(s: Seq<char>, started: bool, pending: bool) -> Seq<char>
    decreases s.len(),
{
    if s.len() == 0 {
        Seq::empty()
    } else {
        let c = lower_char(s[0]);
        if is_slug_char(c) {
            (if pending {
                seq!['-', c]
            } else {
                seq![c]
            }) + slug_body(s.skip(1), true, false)
        } else {
            slug_body(s.skip(1), started, started)
        }
    }
}

/// The slug derived from a title alone, before the issue-number prefix.
pub open spec fn slug_of(s: Seq<char>) -> Seq<char> {
    slug_body(s, false, false)
}

/// Relies on `String::push`: appends exactly the one given character.
#[verifier::external_body]
fn push_char(s: &mut String, c: char)
    ensures
        final(s)@ == old(s)@.push(c),
{
    s.push(c);
}

/// Lower-cases `title`, collapses every maximal run of non-alphanumeric
/// characters into one hyphen, and strips leading and trailing hyphens.
pub fn slugify(title: &str) -> (r: String)
    ensures
        r@ == slug_of(title@),
{
    let len = title.unicode_len();
    let mut out = String::new();
    let mut started = false;
    let mut pending = false;
    let mut i: usize = 0;
    proof {
        assert(title@.skip(0) =~= title@);
        assert(out@ + slug_of(title@) =~= slug_of(title@));
    }
    while i < len
        invariant
            i <= len,
            len == title@.len(),
            out@ + slug_body(title@.skip(i as int), started, pending) == slug_of(title@),
            !pending || started,
        decreases len - i,
    {
        let ghost prev = title@.skip(i as int);
        let c = to_lower_char(title.get_char(i));
        proof {
            assert(prev[0] == title@[i as int]);
            assert(prev.skip(1) =~= title@.skip(i as int + 1));
        }
        if (c >= 'a' && c <= 'z') || (c >= '0' && c <= '9') {
            if pending {
                out.append("-");
                proof {
                    reveal_strlit("-");
                }
            }
            push_char(&mut out, c);
            started = true;
            pending = false;
        } else {
            if started {
                pending = true;
            }
        }
        i += 1;
    }
    proof {
        assert(title@.skip(len as int) =~= Seq::<char>::empty());
    }
    out
}

/// The given texts joined with a comma and a space.
pub open spec fn comma_joined(items: Seq<Seq<char>>) -> Seq<char>
    decreases items.len(),
{
    if items.len() == 0 {
        Seq::empty()
    } else if items.len() == 1 {
        items[0]
    } else {
        items[0] + ", "@ + comma_joined(items.skip(1))
    }
}

/// Joins the given strings with a comma and a space.
pub fn join_comma(items: &Vec<String>) -> (r: String)
    ensures
        r@ == comma_joined(items@.map_values(|s: String| s@)),
{
    let ghost texts = items@.map_values(|s: String| s@);
    let mut out = String::new();
    if items.len() == 0 {
        return out;
    }
    let len = items.len();
    let mut i: usize = 0;
    while i < len
        invariant
            i <= len,
            1 <= len == items@.len(),
            texts == items@.map_values(|s: String| s@),
            texts.len() == len,
            i == 0 ==> out@.len() == 0,
            0 < i < len ==> comma_joined(texts) == out@ + ", "@ + comma_joined(texts.skip(i as int)),
            i == len ==> out@ == comma_joined(texts),
        decreases len - i,
    {
        let ghost k = i as int;
        let ghost before = out@;
        proof {
            assert(texts[k] == items@[k]@);
            assert(texts.skip(k)[0] == texts[k]);
            assert(texts.skip(k).skip(1) =~= texts.skip(k + 1));
        }
        if i > 0 {
            out.append(", ");
            proof {
                reveal_strlit(", ");
            }
        }
        out.append(items[i].as_str());
        proof {
            if i == 0 {
                assert(out@ =~= texts[0]);
                assert(texts.skip(0) =~= texts);
                if i + 1 < len {
                    assert(comma_joined(texts) == texts[0] + ", "@ + comma_joined(texts.skip(1)));
                    assert(comma_joined(texts) =~= out@ + ", "@ + comma_joined(texts.skip(1)));
                } else {
                    assert(texts.len() == 1);
                }
            } else {
                assert(out@ =~= before + ", "@ + texts[k]);
                if i + 1 < len {
                    assert(texts.skip(k).len() > 1);
                    assert(comma_joined(texts.skip(k)) == texts[k] + ", "@ + comma_joined(
                        texts.skip(k + 1),
                    ));
                    assert(before + ", "@ + (texts[k] + ", "@ + comma_joined(texts.skip(k + 1)))
                        =~= out@ + ", "@ + comma_joined(texts.skip(k + 1)));
                } else {
                    assert(texts.skip(k).len() == 1);
                    assert(comma_joined(texts.skip(k)) == texts.skip(k)[0]);
                    assert(before + ", "@ + texts[k] =~= out@);
                }
            }
        }
        i += 1;
    }
    out
}

} // verus!
