use vstd::prelude::*;

verus! {

/// `String::push` appends the character at the end of the string.
pub assume_specification[ String::push ](s: &mut String, ch: char)
    ensures
        final(s)@ == old(s)@.push(ch),
;

/// What `str::to_lowercase` returns for a text (std's Unicode lowercase mapping).
pub uninterp spec fn lowercase(s: Seq<char>) -> Seq<char>;

/// `str::to_lowercase` is taken as the function `lowercase` of its argument.
pub assume_specification[ str::to_lowercase ](s: &str) -> (r: String)
    ensures
        r@ == lowercase(s@),
;

/// The characters of a text, in order.
pub fn chars_of(s: &str) -> (v: Vec<char>)
    ensures
        v@ == s@,
{
    let mut v: Vec<char> = Vec::new();
    for c in it: s.chars()
        invariant
            v@ == it.seq().take(it.index() as int),
    {
        v.push(c);
    }
    v
}

/// The text made of the given characters.
pub fn string_of(v: &Vec<char>) -> (s: String)
    ensures
        s@ == v@,
{
    let mut s = String::new();
    let n = v.len();
    for i in 0..n
        invariant
            n == v@.len(),
            s@ == v@.take(i as int),
    {
        s.push(v[i]);
        assert(v@.take(i + 1) =~= v@.take(i as int).push(v@[i as int]));
    }
    assert(v@.take(n as int) =~= v@);
    s
}


/// `p` stands in `s` from position `i` on.
pub open spec fn occurs_at(s: Seq<char>, p: Seq<char>, i: int) -> bool {
    &&& 0 <= i
    &&& i + p.len() <= s.len()
    &&& s.subrange(i, i + p.len()) == p
}

/// `p` stands somewhere in `s`.
pub open spec fn has_infix(s: Seq<char>, p: Seq<char>) -> bool {
    exists|i: int| occurs_at(s, p, i)
}

/// `s` with every occurrence of the non-empty `pat` replaced by `rep`, the
/// occurrences taken from the left and not overlapping.
pub open spec fn replaced(s: Seq<char>, pat: Seq<char>, rep: Seq<char>) -> Seq<char>
    decreases s.len(),
{
    if pat.len() == 0 || s.len() < pat.len() {
        s
    } else if s.take(pat.len() as int) == pat {
        rep + replaced(s.skip(pat.len() as int), pat, rep)
    } else {
        seq![s[0]] + replaced(s.skip(1), pat, rep)
    }
}

/// Replacing one character by another keeps the length and changes exactly
/// the positions that held the first character.
pub proof fn lemma_replace_char(s: Seq<char>, a: char, b: char)
    ensures
        replaced(s, seq![a], seq![b]).len() == s.len(),
        forall|i: int|
            0 <= i < s.len() ==> #[trigger] replaced(s, seq![a], seq![b])[i] == if s[i] == a {
                b
            } else {
                s[i]
            },
    decreases s.len(),
{
    if s.len() > 0 {
        lemma_replace_char(s.skip(1), a, b);
        let r = replaced(s, seq![a], seq![b]);
        let rest = replaced(s.skip(1), seq![a], seq![b]);
        if s[0] == a {
            assert(s.take(1) =~= seq![a]);
            assert(r == seq![b] + rest);
        } else {
            assert(s.take(1) != seq![a]) by {
                assert(s.take(1)[0] == s[0]);
            }
            assert(r == seq![s[0]] + rest);
        }
        assert forall|i: int| 0 <= i < s.len() implies #[trigger] r[i] == if s[i] == a {
            b
        } else {
            s[i]
        } by {
            if i > 0 {
                assert(r[i] == rest[i - 1]);
                assert(s.skip(1)[i - 1] == s[i]);
            }
        }
    }
}

/// A text in which the pattern does not occur is left as it is.
pub proof fn lemma_replace_absent(s: Seq<char>, pat: Seq<char>, rep: Seq<char>)
    requires
        pat.len() > 0,
        !has_infix(s, pat),
    ensures
        replaced(s, pat, rep) == s,
    decreases s.len(),
{
    if s.len() >= pat.len() {
        assert(s.take(pat.len() as int) != pat) by {
            if s.take(pat.len() as int) == pat {
                assert(s.subrange(0, pat.len() as int) == s.take(pat.len() as int));
                assert(occurs_at(s, pat, 0));
            }
        }
        assert(!has_infix(s.skip(1), pat)) by {
            if has_infix(s.skip(1), pat) {
                let j = choose|j: int| occurs_at(s.skip(1), pat, j);
                assert(s.subrange(j + 1, j + 1 + pat.len()) =~= s.skip(1).subrange(j, j + pat.len()));
                assert(occurs_at(s, pat, j + 1));
            }
        }
        lemma_replace_absent(s.skip(1), pat, rep);
        assert(seq![s[0]] + s.skip(1) =~= s);
    }
}

/// A text that starts with the pattern has it replaced there, the rest being
/// replaced on its own.
pub proof fn lemma_replace_leading(s: Seq<char>, pat: Seq<char>, rep: Seq<char>)
    requires
        pat.len() > 0,
    ensures
        replaced(pat + s, pat, rep) == rep + replaced(s, pat, rep),
{
    assert((pat + s).take(pat.len() as int) =~= pat);
    assert((pat + s).skip(pat.len() as int) =~= s);
}

/// Whether `p` stands in `s` from position `i` on.
fn matches_at(s: &Vec<char>, p: &Vec<char>, i: usize) -> (b: bool)
    requires
        i + p.len() <= s.len(),
    ensures
        b == (s@.subrange(i as int, i + p@.len()) == p@),
{
    let n = p.len();
    for k in 0..n
        invariant
            n == p@.len(),
            i + n <= s.len(),
            forall|j: int| 0 <= j < k ==> s@[i + j] == p@[j],
    {
        if s[i + k] != p[k] {
            assert(s@.subrange(i as int, i + n)[k as int] != p@[k as int]);
            return false;
        }
    }
    assert(s@.subrange(i as int, i + n) =~= p@);
    true
}

/// Whether `p` stands somewhere in `s`.
pub fn contains_infix(s: &Vec<char>, p: &Vec<char>) -> (b: bool)
    ensures
        b == has_infix(s@, p@),
{
    if p.len() == 0 {
        assert(s@.subrange(0, 0) =~= p@);
        assert(occurs_at(s@, p@, 0));
        return true;
    }
    if p.len() > s.len() {
        assert(!has_infix(s@, p@));
        return false;
    }
    let n = s.len();
    for i in 0..n
        invariant
            n == s@.len(),
            0 < p@.len() <= s@.len(),
            forall|j: int| 0 <= j < i ==> !occurs_at(s@, p@, j),
    {
        if p.len() <= n - i && matches_at(s, p, i) {
            assert(occurs_at(s@, p@, i as int));
            return true;
        }
    }
    proof {
        lemma_no_occurrence(s@, p@);
    }
    false
}

proof fn lemma_no_occurrence(s: Seq<char>, p: Seq<char>)
    requires
        0 < p.len() <= s.len(),
        forall|j: int| 0 <= j < s.len() ==> !occurs_at(s, p, j),
    ensures
        !has_infix(s, p),
{
}

/// `s` with every occurrence of the non-empty `pat` replaced by `rep`.
pub fn replace_all(s: &Vec<char>, pat: &Vec<char>, rep: &Vec<char>) -> (r: Vec<char>)
    requires
        pat@.len() > 0,
    ensures
        r@ == replaced(s@, pat@, rep@),
{
    let n = s.len();
    let m = pat.len();
    let mut out: Vec<char> = Vec::new();
    let mut i: usize = 0;
    assert(s@.skip(0) =~= s@);
    while i < n
        invariant
            n == s@.len(),
            m == pat@.len(),
            m > 0,
            i <= n,
            replaced(s@, pat@, rep@) == out@ + replaced(s@.skip(i as int), pat@, rep@),
        decreases n - i,
    {
        let ghost rest = s@.skip(i as int);
        if m <= n - i && matches_at(s, pat, i) {
            assert(rest.take(m as int) =~= s@.subrange(i as int, i + m));
            assert(rest.skip(m as int) =~= s@.skip(i + m));
            let ghost before = out@;
            let k = rep.len();
            for j in 0..k
                invariant
                    k == rep@.len(),
                    out@ == before + rep@.take(j as int),
            {
                out.push(rep[j]);
                assert(rep@.take(j + 1) =~= rep@.take(j as int).push(rep@[j as int]));
            }
            assert(rep@.take(k as int) =~= rep@);
            assert(before + (rep@ + replaced(s@.skip(i + m), pat@, rep@)) =~= out@ + replaced(
                s@.skip(i + m),
                pat@,
                rep@,
            ));
            i = i + m;
        } else if m <= n - i {
            assert(rest.take(m as int) =~= s@.subrange(i as int, i + m));
            assert(rest.skip(1) =~= s@.skip(i + 1));
            assert(rest[0] == s@[i as int]);
            let ghost before = out@;
            out.push(s[i]);
            assert(before + (seq![s@[i as int]] + replaced(s@.skip(i + 1), pat@, rep@)) =~= out@
                + replaced(s@.skip(i + 1), pat@, rep@));
            i = i + 1;
        } else {
            let ghost before = out@;
            let start = i;
            while i < n
                invariant
                    n == s@.len(),
                    start <= i <= n,
                    out@ == before + s@.subrange(start as int, i as int),
                decreases n - i,
            {
                out.push(s[i]);
                assert(s@.subrange(start as int, i + 1) =~= s@.subrange(start as int, i as int).push(
                    s@[i as int],
                ));
                i = i + 1;
            }
            assert(rest =~= s@.subrange(start as int, n as int));
            assert(s@.skip(n as int) =~= Seq::<char>::empty());
            assert(out@ + replaced(s@.skip(n as int), pat@, rep@) =~= out@);
        }
    }
    assert(s@.skip(n as int) =~= Seq::<char>::empty());
    assert(out@ + replaced(s@.skip(n as int), pat@, rep@) =~= out@);
    out
}


/// The decimal digit for `d` (0 to 9).
pub open spec fn digit_char(d: int) -> char {
    (d + 48) as char
}

/// The decimal text of a natural number, without leading zeros.
pub open spec fn nat_text(n: nat) -> Seq<char>
    decreases n,
{
    if n < 10 {
        seq![digit_char(n as int)]
    } else {
        nat_text(n / 10).push(digit_char((n % 10) as int))
    }
}

/// The decimal text of an integer, with a leading `-` where it is negative.
pub open spec fn int_text(i: int) -> Seq<char> {
    if i < 0 {
        seq!['-'] + nat_text((-i) as nat)
    } else {
        nat_text(i as nat)
    }
}

fn digit_of(d: u64) -> (c: char)
    requires
        d < 10,
    ensures
        c == digit_char(d as int),
{
    let b: u8 = d as u8 + 48;
    b as char
}

/// The decimal digits of `n`.
fn nat_digits(n: u64) -> (v: Vec<char>)
    ensures
        v@ == nat_text(n as nat),
{
    let mut q: u64 = n;
    let mut out: Vec<char> = Vec::new();
    while q >= 10
        invariant
            nat_text(n as nat) == nat_text(q as nat) + out@,
        decreases q,
    {
        let c = digit_of(q % 10);
        let ghost before = out@;
        out.insert(0, c);
        assert(out@ =~= seq![c] + before);
        assert(nat_text(q as nat) == nat_text((q / 10) as nat).push(c));
        assert(nat_text((q / 10) as nat).push(c) + before =~= nat_text((q / 10) as nat) + out@);
        q = q / 10;
    }
    let c = digit_of(q);
    let ghost before = out@;
    out.insert(0, c);
    assert(out@ =~= nat_text(q as nat) + before);
    out
}

/// The decimal text of an `i64`, as `i64::to_string` writes it.
pub fn int_to_text(x: i64) -> (s: String)
    ensures
        s@ == int_text(x as int),
{
    if x < 0 {
        let wide: i128 = x as i128;
        let magnitude: u64 = (-wide) as u64;
        let digits = nat_digits(magnitude);
        let mut v: Vec<char> = Vec::new();
        v.push('-');
        let n = digits.len();
        for i in 0..n
            invariant
                n == digits@.len(),
                v@ == seq!['-'] + digits@.take(i as int),
        {
            v.push(digits[i]);
            assert(digits@.take(i + 1) =~= digits@.take(i as int).push(digits@[i as int]));
            assert(v@ =~= seq!['-'] + digits@.take(i + 1));
        }
        assert(digits@.take(n as int) =~= digits@);
        string_of(&v)
    } else {
        string_of(&nat_digits(x as u64))
    }
}

/// The lowercase hexadecimal digit for `d` (0 to 15).
pub open spec fn hex_char(d: int) -> char {
    if d < 10 {
        (d + 48) as char
    } else {
        (d + 87) as char
    }
}

/// The hexadecimal digit at position `j` (0 is the most significant) of the
/// 32 digits of a 128-bit value.
pub open spec fn nibble(v: u128, j: int) -> int {
    (v as int / vstd::arithmetic::power::pow(16, (31 - j) as nat)) % 16
}

/// How many hyphens come before position `i` of a hyphenated UUID.
pub open spec fn hyphens_before(i: int) -> int {
    if i < 8 {
        0
    } else if i < 13 {
        1
    } else if i < 18 {
        2
    } else if i < 23 {
        3
    } else {
        4
    }
}

/// The hyphenated lowercase text of a UUID given by its 128-bit value: its 32
/// hexadecimal digits, most significant first, in groups of 8, 4, 4, 4 and 12.
pub open spec fn uuid_text(v: u128) -> Seq<char> {
    Seq::new(
        36,
        |i: int|
            if i == 8 || i == 13 || i == 18 || i == 23 {
                '-'
            } else {
                hex_char(nibble(v, i - hyphens_before(i)))
            },
    )
}

/// A lowercase hexadecimal digit.
pub open spec fn is_lower_hex(c: char) -> bool {
    ('0' <= c && c <= '9') || ('a' <= c && c <= 'f')
}

/// A UUID's text has 36 characters: hyphens after the 8th, 12th, 16th and
/// 20th hexadecimal digit and lowercase hexadecimal digits everywhere else;
/// its last digit is the value's lowest four bits.
pub proof fn lemma_uuid_text_shape(v: u128)
    ensures
        uuid_text(v).len() == 36,
        uuid_text(v)[8] == '-' && uuid_text(v)[13] == '-' && uuid_text(v)[18] == '-'
            && uuid_text(v)[23] == '-',
        forall|i: int|
            0 <= i < 36 && i != 8 && i != 13 && i != 18 && i != 23 ==> is_lower_hex(
                #[trigger] uuid_text(v)[i],
            ),
        uuid_text(v)[35] == hex_char(v as int % 16),
{
    assert forall|i: int|
        0 <= i < 36 && i != 8 && i != 13 && i != 18 && i != 23 implies is_lower_hex(
            #[trigger] uuid_text(v)[i],
        ) by {
        let d = nibble(v, i - hyphens_before(i));
        vstd::arithmetic::power::lemma_pow_positive(16, (31 - (i - hyphens_before(i))) as nat);
        assert(0 <= d < 16);
    }
    vstd::arithmetic::power::lemma_pow0(16);
    assert(nibble(v, 31) == v as int % 16);
}

/// The text of the UUID with the 128-bit value `id`: calls
/// `uuid::Uuid::from_u128` and formats the result with its `Display`, which
/// writes the hyphenated lowercase form of the value's big-endian bytes.
/// The contract claims that this text is `uuid_text(id)`.
#[verifier::external_body]
pub(crate) fn uuid_to_text(id: u128) -> (s: String)
    ensures
        s@ == uuid_text(id),
{
    uuid::Uuid::from_u128(id).to_string()
}

} // verus!
