use vstd::prelude::*;
use vstd::string::StrSliceExecFns;

verus! {

// ------------------------------------------------------------------
// character classes
// ------------------------------------------------------------------

/// Control characters: the Unicode `Cc` category, exactly the code
/// points `char::is_control` recognises.
pub open spec fn is_control_char(c: char) -> bool {
    (c as u32) <= 0x1F || (0x7F <= (c as u32) && (c as u32) <= 0x9F)
}

/// Invisible formatting characters that are stripped from command
/// input: the directional isolates, the zero-width (non-)joiners and
/// the byte-order mark.
pub open spec fn is_invisible_format_char(c: char) -> bool {
    ||| (0x2066 <= (c as u32) && (c as u32) <= 0x2069)
    ||| (c as u32) == 0x200B
    ||| (c as u32) == 0x200C
    ||| (c as u32) == 0x200D
    ||| (c as u32) == 0xFEFF
}

/// A character survives cleaning when it is neither an invisible
/// formatting character nor a control character.
pub open spec fn is_kept_char(c: char) -> bool {
    !is_invisible_format_char(c) && !is_control_char(c)
}

/// The Unicode `White_Space` code points, exactly the ones
/// `char::is_whitespace` recognises.
pub open spec fn is_space_char(c: char) -> bool {
    ||| (0x09 <= (c as u32) && (c as u32) <= 0x0D)
    ||| (c as u32) == 0x20
    ||| (c as u32) == 0x85
    ||| (c as u32) == 0xA0
    ||| (c as u32) == 0x1680
    ||| (0x2000 <= (c as u32) && (c as u32) <= 0x200A)
    ||| (c as u32) == 0x2028
    ||| (c as u32) == 0x2029
    ||| (c as u32) == 0x202F
    ||| (c as u32) == 0x205F
    ||| (c as u32) == 0x3000
}

fn keep_char(c: char) -> (r: bool)
    ensures
        r == is_kept_char(c),
{
    let u = c as u32;
    let invisible = (0x2066 <= u && u <= 0x2069) || u == 0x200B || u == 0x200C || u == 0x200D || u
        == 0xFEFF;
    let control = u <= 0x1F || (0x7F <= u && u <= 0x9F);
    !invisible && !control
}

fn space_char(c: char) -> (r: bool)
    ensures
        r == is_space_char(c),
{
    let u = c as u32;
    (0x09 <= u && u <= 0x0D) || u == 0x20 || u == 0x85 || u == 0xA0 || u == 0x1680 || (0x2000 <= u
        && u <= 0x200A) || u == 0x2028 || u == 0x2029 || u == 0x202F || u == 0x205F || u == 0x3000
}

// ------------------------------------------------------------------
// input cleaning
// ------------------------------------------------------------------

/// The kept characters of `s`, in order.
pub open spec fn stripped(s: Seq<char>) -> Seq<char>
    decreases s.len(),
{
    if s.len() == 0 {
        Seq::empty()
    } else if is_kept_char(s.last()) {
        stripped(s.drop_last()).push(s.last())
    } else {
        stripped(s.drop_last())
    }
}

/// `s` without its leading whitespace.
pub open spec fn trimmed_front(s: Seq<char>) -> Seq<char>
    decreases s.len(),
{
    if s.len() > 0 && is_space_char(s.first()) {
        trimmed_front(s.drop_first())
    } else {
        s
    }
}

/// `s` without its trailing whitespace.
pub open spec fn trimmed_back(s: Seq<char>) -> Seq<char>
    decreases s.len(),
{
    if s.len() > 0 && is_space_char(s.last()) {
        trimmed_back(s.drop_last())
    } else {
        s
    }
}

/// What cleaning leaves of an input string: invisible formatting and
/// control characters removed, then whitespace trimmed at both ends.
pub open spec fn cleaned(s: Seq<char>) -> Seq<char> {
    trimmed_back(trimmed_front(stripped(s)))
}

proof fn lemma_trimmed_front_at(s: Seq<char>, k: int)
    requires
        0 <= k <= s.len(),
        forall|j: int| 0 <= j < k ==> is_space_char(#[trigger] s[j]),
        k == s.len() || !is_space_char(s[k]),
    ensures
        trimmed_front(s) == s.subrange(k, s.len() as int),
    decreases k,
{
    if k == 0 {
        assert(s.subrange(0, s.len() as int) =~= s);
    } else {
        let t = s.drop_first();
        assert(forall|j: int| 0 <= j < k - 1 ==> is_space_char(#[trigger] t[j]));
        lemma_trimmed_front_at(t, k - 1);
        assert(t.subrange(k - 1, t.len() as int) =~= s.subrange(k, s.len() as int));
    }
}

proof fn lemma_trimmed_back_at(s: Seq<char>, h: int)
    requires
        0 <= h <= s.len(),
        forall|j: int| h <= j < s.len() ==> is_space_char(#[trigger] s[j]),
        h == 0 || !is_space_char(s[h - 1]),
    ensures
        trimmed_back(s) == s.subrange(0, h),
    decreases s.len(),
{
    if h == s.len() {
        assert(s.subrange(0, h) =~= s);
    } else {
        let t = s.drop_last();
        assert(forall|j: int| h <= j < t.len() ==> is_space_char(#[trigger] t[j]));
        lemma_trimmed_back_at(t, h);
        assert(t.subrange(0, h) =~= s.subrange(0, h));
    }
}

/// Normalise a piece of command input: drop invisible formatting
/// characters and control characters, then trim whitespace from both
/// ends.
pub fn clean_input(input: &str) -> (r: String)
    ensures
        r@ == cleaned(input@),
{
    let n = input.unicode_len();
    let mut kept: Vec<char> = Vec::new();
    let mut i: usize = 0;
    while i < n
        invariant
            n == input@.len(),
            i <= n,
            kept@ == stripped(input@.take(i as int)),
        decreases n - i,
    {
        let c = input.get_char(i);
        proof {
            assert(input@.take(i as int + 1).drop_last() =~= input@.take(i as int));
            assert(input@.take(i as int + 1).last() == input@[i as int]);
        }
        if keep_char(c) {
            kept.push(c);
        }
        i = i + 1;
    }
    proof {
        assert(input@.take(n as int) =~= input@);
    }
    let ghost ks = kept@;
    let mut lo: usize = 0;
    while lo < kept.len() && space_char(kept[lo])
        invariant
            kept@ == ks,
            lo <= kept.len(),
            forall|j: int| 0 <= j < lo ==> is_space_char(#[trigger] ks[j]),
        decreases kept.len() - lo,
    {
        lo = lo + 1;
    }
    let mut hi: usize = kept.len();
    while hi > lo && space_char(kept[hi - 1])
        invariant
            kept@ == ks,
            lo <= hi <= kept.len(),
            forall|j: int| hi <= j < ks.len() ==> is_space_char(#[trigger] ks[j]),
        decreases hi,
    {
        hi = hi - 1;
    }
    proof {
        lemma_trimmed_front_at(ks, lo as int);
        let t = ks.subrange(lo as int, ks.len() as int);
        assert(forall|j: int| hi - lo <= j < t.len() ==> is_space_char(#[trigger] t[j]));
        lemma_trimmed_back_at(t, hi - lo);
        assert(t.subrange(0, hi - lo) =~= ks.subrange(lo as int, hi as int));
    }
    let mut out: Vec<char> = Vec::new();
    let mut p: usize = lo;
    while p < hi
        invariant
            kept@ == ks,
            lo <= p <= hi <= kept.len(),
            out@ == ks.subrange(lo as int, p as int),
        decreases hi - p,
    {
        out.push(kept[p]);
        proof {
            assert(ks.subrange(lo as int, p + 1 as int) =~= ks.subrange(lo as int, p as int).push(
                ks[p as int],
            ));
        }
        p = p + 1;
    }
    chars_to_string(&out)
}

// ------------------------------------------------------------------
// string helpers
// ------------------------------------------------------------------

/// Relies on `String: FromIterator<char>`: collecting characters
/// yields exactly those characters, in order.
#[verifier::external_body]
pub(crate) fn chars_to_string(chars: &Vec<char>) -> (s: String)
    ensures
        s@ == chars@,
{
    chars.iter().collect()
}

/// Character-wise string comparison.
pub fn str_eq(a: &str, b: &str) -> (r: bool)
    ensures
        r == (a@ == b@),
{
    let la = a.unicode_len();
    let lb = b.unicode_len();
    if la != lb {
        return false;
    }
    let mut i: usize = 0;
    while i < la
        invariant
            la == a@.len(),
            lb == b@.len(),
            la == lb,
            i <= la,
            forall|j: int| 0 <= j < i ==> a@[j] == b@[j],
        decreases la - i,
    {
        if a.get_char(i) != b.get_char(i) {
            return false;
        }
        i = i + 1;
    }
    proof {
        assert(a@ =~= b@);
    }
    true
}

// ------------------------------------------------------------------
// decimal rendering
// ------------------------------------------------------------------

/// The character of one decimal digit.
pub open spec fn digit_char(d: nat) -> char {
    if d == 0 {
        '0'
    } else if d == 1 {
        '1'
    } else if d == 2 {
        '2'
    } else if d == 3 {
        '3'
    } else if d == 4 {
        '4'
    } else if d == 5 {
        '5'
    } else if d == 6 {
        '6'
    } else if d == 7 {
        '7'
    } else if d == 8 {
        '8'
    } else {
        '9'
    }
}

/// The decimal digits of `n`, most significant first, without leading
/// zeroes (`0` itself is the single digit `0`).
pub open spec fn dec_digits(n: nat) -> Seq<char>
    decreases n,
{
    if n < 10 {
        seq![digit_char(n)]
    } else {
        dec_digits(n / 10).push(digit_char(n % 10))
    }
}

fn digit_to_char(d: u64) -> (c: char)
    requires
        d < 10,
    ensures
        c == digit_char(d as nat),
{
    if d == 0 {
        '0'
    } else if d == 1 {
        '1'
    } else if d == 2 {
        '2'
    } else if d == 3 {
        '3'
    } else if d == 4 {
        '4'
    } else if d == 5 {
        '5'
    } else if d == 6 {
        '6'
    } else if d == 7 {
        '7'
    } else if d == 8 {
        '8'
    } else {
        '9'
    }
}

/// Render a number in decimal.
pub fn u64_to_string(n: u64) -> (s: String)
    ensures
        s@ == dec_digits(n as nat),
{
    let mut rev: Vec<char> = Vec::new();
    let mut m: u64 = n;
    proof {
        assert(dec_digits(n as nat) =~= dec_digits(m as nat) + rev@.reverse());
    }
    loop
        invariant_except_break
            dec_digits(n as nat) == dec_digits(m as nat) + rev@.reverse(),
        ensures
            dec_digits(n as nat) == rev@.reverse(),
        decreases m,
    {
        let ghost m0 = m;
        let ghost rev0 = rev@;
        let d = m % 10;
        rev.push(digit_to_char(d));
        m = m / 10;
        proof {
            assert(rev@.reverse() =~= seq![digit_char(d as nat)] + rev0.reverse());
            if m0 >= 10 {
                assert(dec_digits(m0 as nat) == dec_digits((m0 as nat) / 10).push(
                    digit_char((m0 as nat) % 10),
                ));
                assert(dec_digits(m0 as nat) =~= dec_digits(m as nat) + seq![
                    digit_char(d as nat),
                ]);
                assert(dec_digits(m as nat) + rev@.reverse() =~= dec_digits(m0 as nat)
                    + rev0.reverse());
            } else {
                assert(dec_digits(m0 as nat) =~= seq![digit_char(d as nat)]);
            }
            assert(m0 >= 1 ==> m0 / 10 < m0) by (nonlinear_arith);
        }
        if m == 0 {
            proof {
                assert(dec_digits(n as nat) =~= rev@.reverse());
            }
            break;
        }
    }
    let mut out: Vec<char> = Vec::new();
    let mut p: usize = rev.len();
    while p > 0
        invariant
            p <= rev.len(),
            out@ == rev@.subrange(p as int, rev@.len() as int).reverse(),
        decreases p,
    {
        p = p - 1;
        out.push(rev[p]);
        proof {
            assert(out@ =~= rev@.subrange(p as int, rev@.len() as int).reverse());
        }
    }
    proof {
        assert(rev@.subrange(0, rev@.len() as int) =~= rev@);
    }
    chars_to_string(&out)
}

} // verus!
