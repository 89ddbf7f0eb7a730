//! Verified string building: decimal rendering, zero-padding, duration
//! formatting, and the conversions between strings and character vectors that
//! the rest of the library formats with.

use vstd::prelude::*;
use vstd::std_specs::iter::IteratorSpec;

verus! {

/// The decimal digit character for `d`.
pub open spec fn spec_digit(d: int) -> char {
    if d == 0 {
        '0'
    } else if d == 1 {
        '1'
    } else if d == 2 {
        '2'
    } else if d == 3 {
        '3'
    } else if d == 4 {
        '4'
    } else if d == 5 {
        '5'
    } else if d == 6 {
        '6'
    } else if d == 7 {
        '7'
    } else if d == 8 {
        '8'
    } else {
        '9'
    }
}

/// The decimal rendering of `n`, most significant digit first.
pub open spec fn spec_dec(n: int) -> Seq<char>
    decreases n,
{
    if n < 10 {
        seq![spec_digit(n)]
    } else {
        spec_dec(n / 10).push(spec_digit(n % 10))
    }
}

/// The decimal rendering of `n`, zero-padded to at least two characters: how
/// a minute or second count appears in a duration display.
pub open spec fn spec_pad2(n: int) -> Seq<char> {
    if n < 10 {
        seq!['0'] + spec_dec(n)
    } else {
        spec_dec(n)
    }
}

/// A duration of `secs` seconds as minutes and seconds, both zero-padded to
/// two digits and joined by a colon.
pub open spec fn spec_format_duration(secs: int) -> Seq<char> {
    spec_pad2(secs / 60) + seq![':'] + spec_pad2(secs % 60)
}

/// `n` spaces.
pub open spec fn spec_spaces(n: int) -> Seq<char>
    decreases n,
{
    if n <= 0 {
        Seq::empty()
    } else {
        spec_spaces(n - 1).push(' ')
    }
}

/// The decimal digit character for `d`.
pub fn digit_char(d: u8) -> (c: char)
    requires
        d < 10,
    ensures
        c == spec_digit(d as int),
{
    if d == 0 {
        '0'
    } else if d == 1 {
        '1'
    } else if d == 2 {
        '2'
    } else if d == 3 {
        '3'
    } else if d == 4 {
        '4'
    } else if d == 5 {
        '5'
    } else if d == 6 {
        '6'
    } else if d == 7 {
        '7'
    } else if d == 8 {
        '8'
    } else {
        '9'
    }
}

/// Appends the decimal rendering of `n`.
pub fn push_dec_digits(n: u64, out: &mut Vec<char>)
    ensures
        final(out)@ == old(out)@ + spec_dec(n as int),
    decreases n,
{
    if n >= 10 {
        push_dec_digits(n / 10, out);
    }
    let ghost mid = out@;
    out.push(digit_char((n % 10) as u8));
    proof {
        if n >= 10 {
            assert(spec_dec(n as int) == spec_dec(n as int / 10).push(spec_digit(n as int % 10)));
            assert(old(out)@ + spec_dec(n as int) =~= mid.push(spec_digit(n as int % 10)));
        } else {
            assert(old(out)@ + spec_dec(n as int) =~= old(out)@.push(spec_digit(n as int)));
        }
    }
}

/// Appends the decimal rendering of `n`, zero-padded to two characters.
pub fn push_pad2(n: u64, out: &mut Vec<char>)
    ensures
        final(out)@ == old(out)@ + spec_pad2(n as int),
{
    if n < 10 {
        out.push('0');
    }
    push_dec_digits(n, out);
    proof {
        if n < 10 {
            assert(old(out)@ + spec_pad2(n as int) =~= (old(out)@.push('0')) + spec_dec(n as int));
        }
    }
}

/// Appends `n` spaces.
pub fn push_spaces(n: usize, out: &mut Vec<char>)
    ensures
        final(out)@ == old(out)@ + spec_spaces(n as int),
{
    let mut i: usize = 0;
    while i < n
        invariant
            i <= n,
            out@ == old(out)@ + spec_spaces(i as int),
        decreases n - i,
    {
        out.push(' ');
        i = i + 1;
        proof {
            assert(out@ =~= old(out)@ + spec_spaces(i as int));
        }
    }
}

/// The decimal rendering of `n` as characters.
pub fn dec_chars(n: u64) -> (r: Vec<char>)
    ensures
        r@ == spec_dec(n as int),
{
    let mut r: Vec<char> = Vec::new();
    push_dec_digits(n, &mut r);
    proof {
        assert(r@ =~= spec_dec(n as int));
    }
    r
}

/// A duration of `secs` seconds as the characters of `mm:ss` (minutes
/// unpadded past two digits).
pub fn format_duration_chars(secs: u64) -> (r: Vec<char>)
    ensures
        r@ == spec_format_duration(secs as int),
{
    let mut v: Vec<char> = Vec::new();
    push_pad2(secs / 60, &mut v);
    v.push(':');
    push_pad2(secs % 60, &mut v);
    proof {
        assert(v@ =~= spec_format_duration(secs as int));
    }
    v
}

/// A duration of `secs` seconds as `mm:ss` (minutes unpadded past two
/// digits), the display format of every duration in the player.
pub fn format_duration(secs: u64) -> (r: String)
    ensures
        r@ == spec_format_duration(secs as int),
{
    let v = format_duration_chars(secs);
    chars_to_string(&v)
}

/// Appends the characters of `src`.
pub fn push_chars(src: &Vec<char>, out: &mut Vec<char>)
    ensures
        final(out)@ == old(out)@ + src@,
{
    let mut i: usize = 0;
    while i < src.len()
        invariant
            i <= src@.len(),
            out@ == old(out)@ + src@.take(i as int),
        decreases src@.len() - i,
    {
        out.push(src[i]);
        i = i + 1;
        proof {
            assert(out@ =~= old(out)@ + src@.take(i as int));
        }
    }
    proof {
        assert(out@ =~= old(out)@ + src@);
    }
}

/// The characters of `s`, in order.
pub fn str_chars(s: &str) -> (r: Vec<char>)
    ensures
        r@ == s@,
{
    proof {
        vstd::string::axiom_spec_iter(s);
    }
    let mut it = s.chars();
    let mut r: Vec<char> = Vec::new();
    loop
        invariant
            it.obeys_prophetic_iter_laws(),
            it.decrease() is Some,
            r@ + vstd::std_specs::iter::IteratorSpec::remaining(&it) == s@,
        ensures
            r@ == s@,
        decreases it.decrease()->0,
    {
        let ghost prev = it;
        let next_char = it.next();
        proof {
            vstd::string::next_postcondition(&prev, &it, next_char);
        }
        match next_char {
            Some(c) => {
                r.push(c);
                proof {
                    assert(r@ + vstd::std_specs::iter::IteratorSpec::remaining(&it) =~= s@);
                }
            },
            None => {
                proof {
                    assert(r@ =~= s@);
                }
                break ;
            },
        }
    }
    r
}

/// Appends the characters of `s`.
pub fn push_str_chars(s: &str, out: &mut Vec<char>)
    ensures
        final(out)@ == old(out)@ + s@,
{
    let cs = str_chars(s);
    let mut i: usize = 0;
    while i < cs.len()
        invariant
            i <= cs@.len(),
            cs@ == s@,
            out@ == old(out)@ + s@.take(i as int),
        decreases cs@.len() - i,
    {
        out.push(cs[i]);
        i = i + 1;
        proof {
            assert(out@ =~= old(out)@ + s@.take(i as int));
        }
    }
    proof {
        assert(out@ =~= old(out)@ + s@);
    }
}

/// Relies on String's FromIterator: collecting characters yields the string
/// with exactly those characters in order.
#[verifier::external_body]
pub fn chars_to_string(v: &Vec<char>) -> (r: String)
    ensures
        r@ == v@,
{
    v.iter().collect()
}

/// One info-panel line: a space, the label right-aligned in fourteen
/// columns, a space, then the value.
#[verifier::opaque]
pub open spec fn spec_info_line(label: Seq<char>, value: Seq<char>) -> Seq<char> {
    seq![' '] + spec_spaces(14 - label.len()) + label + seq![' '] + value
}

/// Builds one info-panel line.
pub fn info_line(label: &str, value: &str) -> (r: String)
    ensures
        r@ == spec_info_line(label@, value@),
{
    let mut v: Vec<char> = Vec::new();
    v.push(' ');
    let lc = str_chars(label);
    if lc.len() < 14 {
        push_spaces(14 - lc.len(), &mut v);
    }
    push_str_chars(label, &mut v);
    v.push(' ');
    push_str_chars(value, &mut v);
    proof {
        reveal(spec_info_line);
        assert(v@ =~= spec_info_line(label@, value@));
    }
    chars_to_string(&v)
}

/// The string behind an optional value, or the empty string.
pub open spec fn opt_or_empty(o: Option<Seq<char>>) -> Seq<char> {
    match o {
        Some(s) => s,
        None => Seq::empty(),
    }
}

/// Reads an optional string for display, defaulting to empty.
pub fn opt_str<'a>(o: &'a Option<String>) -> (r: &'a str)
    ensures
        r@ == opt_or_empty(
            match o {
                Some(s) => Some(s@),
                None => None,
            },
        ),
{
    match o {
        Some(s) => s.as_str(),
        None => {
            let r = "";
            proof {
                reveal_strlit("");
                assert(r@ =~= Seq::<char>::empty());
            }
            r
        },
    }
}

/// Whether `s` begins with `prefix`.
pub fn starts_with_str(s: &str, prefix: &str) -> (r: bool)
    ensures
        r == (s@.len() >= prefix@.len() && s@.subrange(0, prefix@.len() as int) == prefix@),
{
    let sv = str_chars(s);
    let pv = str_chars(prefix);
    if sv.len() < pv.len() {
        return false;
    }
    let mut i: usize = 0;
    while i < pv.len()
        invariant
            i <= pv@.len(),
            pv@.len() <= sv@.len(),
            sv@ == s@,
            pv@ == prefix@,
            forall|j: int| 0 <= j < i as int ==> s@[j] == prefix@[j],
        decreases pv@.len() - i,
    {
        if sv[i] != pv[i] {
            proof {
                assert(s@.subrange(0, prefix@.len() as int)[i as int] == s@[i as int]);
            }
            return false;
        }
        i = i + 1;
    }
    proof {
        assert(s@.subrange(0, prefix@.len() as int) =~= prefix@);
    }
    true
}

} // verus!
