use vstd::prelude::*;
use vstd::string::*;

use crate::text::{
    chars_of, contains_infix, digit_char, has_infix, int_text, lowercase, nat_text, replace_all, replaced,
    string_of,
};

verus! {

/// The topic that transfer statuses are published to.
pub fn response_topic() -> (t: &'static str)
    ensures
        t@ == "enge-corp-transac-response"@,
{
    "enge-corp-transac-response"
}

/// The topic that compensating transfers arrive on.
pub fn compensation_topic() -> (t: &'static str)
    ensures
        t@ == "enge-corp-transac-compensation"@,
{
    "enge-corp-transac-compensation"
}

/// The topic that transfer requests arrive on.
pub fn request_topic() -> (t: &'static str)
    ensures
        t@ == "enge-corp-transac-request"@,
{
    "enge-corp-transac-request"
}

/// Environment variables whose name holds this text configure the Kafka client.
pub open spec fn kafka_marker() -> Seq<char> {
    seq!['K', 'A', 'F', 'K', 'A']
}

/// The prefix removed from a Kafka variable's name once `_` became `.`.
pub open spec fn kafka_prefix() -> Seq<char> {
    seq!['K', 'A', 'F', 'K', 'A', '.']
}

/// The Kafka client setting named by an environment variable: every `_`
/// becomes `.`, then every `KAFKA.` is removed, then the text is lowercased.
pub open spec fn kafka_key(name: Seq<char>) -> Seq<char> {
    lowercase(replaced(replaced(name, seq!['_'], seq!['.']), kafka_prefix(), Seq::empty()))
}

/// The Kafka client setting given by one environment variable, if its name
/// holds `KAFKA`: the setting's name and the variable's value.
pub open spec fn kafka_entry(name: Seq<char>, value: Seq<char>) -> Option<(Seq<char>, Seq<char>)> {
    if has_infix(name, kafka_marker()) {
        Some((kafka_key(name), value))
    } else {
        None
    }
}

/// The Kafka client settings given by a list of environment variables, in
/// their order.
pub open spec fn kafka_entries(vars: Seq<(Seq<char>, Seq<char>)>) -> Seq<(Seq<char>, Seq<char>)>
    decreases vars.len(),
{
    if vars.len() == 0 {
        Seq::empty()
    } else {
        let rest = kafka_entries(vars.drop_last());
        match kafka_entry(vars.last().0, vars.last().1) {
            Some(e) => rest.push(e),
            None => rest,
        }
    }
}

/// A variable configures the client exactly when its name holds `KAFKA`, and
/// then with its value exactly as given: only the name is rewritten.
pub proof fn lemma_kafka_value_passed_through(name: Seq<char>, value: Seq<char>)
    ensures
        kafka_entry(name, value) is Some <==> has_infix(name, seq!['K', 'A', 'F', 'K', 'A']),
        kafka_entry(name, value) matches Some(p) ==> p.1 == value,
{
}

/// The settings of two lists of variables, one after the other, are the
/// settings of the first followed by those of the second.
pub proof fn lemma_kafka_entries_append(
    a: Seq<(Seq<char>, Seq<char>)>,
    b: Seq<(Seq<char>, Seq<char>)>,
)
    ensures
        kafka_entries(a + b) == kafka_entries(a) + kafka_entries(b),
    decreases b.len(),
{
    if b.len() == 0 {
        assert(a + b =~= a);
        assert(kafka_entries(a) + kafka_entries(b) =~= kafka_entries(a));
    } else {
        lemma_kafka_entries_append(a, b.drop_last());
        assert((a + b).drop_last() =~= a + b.drop_last());
        assert((a + b).last() == b.last());
        match kafka_entry(b.last().0, b.last().1) {
            Some(e) => {
                assert(kafka_entries(a) + kafka_entries(b.drop_last()).push(e) =~= (kafka_entries(a)
                    + kafka_entries(b.drop_last())).push(e));
            },
            None => {},
        }
    }
}

/// A single variable gives one setting where its name holds `KAFKA` and none
/// otherwise, its value unchanged.
pub proof fn lemma_kafka_entries_single(name: Seq<char>, value: Seq<char>)
    ensures
        has_infix(name, seq!['K', 'A', 'F', 'K', 'A']) ==> kafka_entries(seq![(name, value)])
            == seq![(kafka_key(name), value)],
        !has_infix(name, seq!['K', 'A', 'F', 'K', 'A']) ==> kafka_entries(seq![(name, value)])
            == Seq::<(Seq<char>, Seq<char>)>::empty(),
{
    let v = seq![(name, value)];
    assert(v.drop_last() =~= Seq::<(Seq<char>, Seq<char>)>::empty());
    assert(kafka_marker() =~= seq!['K', 'A', 'F', 'K', 'A']);
    assert(kafka_entries(v.drop_last()) == Seq::<(Seq<char>, Seq<char>)>::empty());
    assert(v.last() == (name, value));
    if has_infix(name, seq!['K', 'A', 'F', 'K', 'A']) {
        assert(kafka_entries(v) =~= seq![(kafka_key(name), value)]);
    } else {
        assert(kafka_entries(v) =~= Seq::<(Seq<char>, Seq<char>)>::empty());
    }
}

pub open spec fn pair_views(v: Seq<(String, String)>) -> Seq<(Seq<char>, Seq<char>)> {
    v.map_values(|p: (String, String)| (p.0@, p.1@))
}

fn kafka_marker_chars() -> (v: Vec<char>)
    ensures
        v@ == kafka_marker(),
{
    let mut v: Vec<char> = Vec::new();
    v.push('K');
    v.push('A');
    v.push('F');
    v.push('K');
    v.push('A');
    assert(v@ =~= kafka_marker());
    v
}

fn kafka_prefix_chars() -> (v: Vec<char>)
    ensures
        v@ == kafka_prefix(),
{
    let mut v = kafka_marker_chars();
    v.push('.');
    assert(v@ =~= kafka_prefix());
    v
}

/// The Kafka client setting given by the environment variable `name=value`.
pub fn kafka_setting(name: &str, value: &str) -> (r: Option<(String, String)>)
    ensures
        match r {
            Some(p) => kafka_entry(name@, value@) == Some((p.0@, p.1@)),
            None => kafka_entry(name@, value@) is None,
        },
        r is Some <==> has_infix(name@, seq!['K', 'A', 'F', 'K', 'A']),
        r matches Some(p) ==> p.1@ == value@,
{
    let chars = chars_of(name);
    if !contains_infix(&chars, &kafka_marker_chars()) {
        return None;
    }
    let mut underscore: Vec<char> = Vec::new();
    underscore.push('_');
    let mut dot: Vec<char> = Vec::new();
    dot.push('.');
    assert(underscore@ =~= seq!['_']);
    assert(dot@ =~= seq!['.']);
    let dotted = replace_all(&chars, &underscore, &dot);
    let empty: Vec<char> = Vec::new();
    assert(empty@ =~= Seq::<char>::empty());
    let stripped = replace_all(&dotted, &kafka_prefix_chars(), &empty);
    let stripped_text = string_of(&stripped);
    let key = stripped_text.as_str().to_lowercase();
    Some((key, String::from_str(value)))
}

/// The Kafka client settings given by the environment variables `vars`.
pub fn kafka_settings(vars: &Vec<(String, String)>) -> (r: Vec<(String, String)>)
    ensures
        pair_views(r@) == kafka_entries(pair_views(vars@)),
{
    let mut out: Vec<(String, String)> = Vec::new();
    let n = vars.len();
    for i in 0..n
        invariant
            n == vars@.len(),
            pair_views(out@) == kafka_entries(pair_views(vars@).take(i as int)),
    {
        let ghost prefix = pair_views(vars@).take(i + 1);
        assert(prefix.drop_last() =~= pair_views(vars@).take(i as int));
        assert(prefix.last() == (vars@[i as int].0@, vars@[i as int].1@));
        let ghost before = out@;
        match kafka_setting(vars[i].0.as_str(), vars[i].1.as_str()) {
            Some(p) => {
                out.push(p);
                assert(pair_views(out@) =~= pair_views(before).push((p.0@, p.1@)));
            },
            None => {},
        }
    }
    assert(pair_views(vars@).take(n as int) =~= pair_views(vars@));
    out
}

/// The pool size used where no size is configured.
pub open spec fn default_max_connections() -> u32 {
    5
}

pub open spec fn is_digit(c: char) -> bool {
    '0' <= c && c <= '9'
}

/// The value of a text of decimal digits.
pub open spec fn digits_value(s: Seq<char>) -> nat
    decreases s.len(),
{
    if s.len() == 0 {
        0
    } else {
        digits_value(s.drop_last()) * 10 + ((s.last() as int) - 48) as nat
    }
}

/// The digits of an unsigned number's text: without its leading `+`, if any.
pub open spec fn unsigned_digits(s: Seq<char>) -> Seq<char> {
    if s.len() > 0 && s[0] == '+' {
        s.drop_first()
    } else {
        s
    }
}

/// What `str::parse::<u32>` gives for a text: the number, where the text is
/// an optional `+` and one or more decimal digits whose value fits in 32 bits.
pub open spec fn parse_u32(s: Seq<char>) -> Option<u32> {
    let d = unsigned_digits(s);
    if d.len() > 0 && (forall|i: int| 0 <= i < d.len() ==> is_digit(#[trigger] d[i]))
        && digits_value(d) <= u32::MAX {
        Some(digits_value(d) as u32)
    } else {
        None
    }
}

/// The decimal text of a natural number is all digits, and its digits read
/// back as the number.
pub proof fn lemma_decimal_reads_back(n: nat)
    ensures
        nat_text(n).len() > 0,
        forall|i: int| 0 <= i < nat_text(n).len() ==> is_digit(#[trigger] nat_text(n)[i]),
        digits_value(nat_text(n)) == n,
        n > 0 ==> nat_text(n)[0] != '0',
    decreases n,
{
    if n < 10 {
        assert(nat_text(n).drop_last() =~= Seq::<char>::empty());
        assert(digit_char(n as int) as int == n + 48);
        assert(nat_text(n).last() == digit_char(n as int));
        assert(digits_value(nat_text(n)) == digits_value(nat_text(n).drop_last()) * 10 + n);
    } else {
        lemma_decimal_reads_back(n / 10);
        let d = (n % 10) as int;
        assert(digit_char(d) as int == d + 48);
        assert(nat_text(n).drop_last() =~= nat_text(n / 10));
        assert(nat_text(n).last() == digit_char(d));
        assert(((nat_text(n).last() as int) - 48) as nat == d);
        assert((n / 10) * 10 + d == n);
        assert(digits_value(nat_text(n)) == digits_value(nat_text(n / 10)) * 10 + d);
        assert(nat_text(n)[0] == nat_text(n / 10)[0]);
        assert forall|i: int| 0 <= i < nat_text(n).len() implies is_digit(#[trigger] nat_text(n)[i]) by {
            if i < nat_text(n).len() - 1 {
                assert(nat_text(n)[i] == nat_text(n / 10)[i]);
            }
        }
    }
}

/// The text of an integer is its sign, where negative, then digits without
/// leading zeros that read back as its magnitude.
pub proof fn lemma_int_text_reads_back(i: int)
    ensures
        i < 0 ==> {
            &&& int_text(i)[0] == '-'
            &&& digits_value(int_text(i).drop_first()) == -i
            &&& int_text(i).drop_first()[0] != '0'
            &&& forall|k: int|
                0 < k < int_text(i).len() ==> is_digit(#[trigger] int_text(i)[k])
        },
        i >= 0 ==> {
            &&& digits_value(int_text(i)) == i
            &&& (i > 0 ==> int_text(i)[0] != '0')
            &&& int_text(i).len() > 0
            &&& forall|k: int| 0 <= k < int_text(i).len() ==> is_digit(#[trigger] int_text(i)[k])
        },
{
    if i < 0 {
        let n = (-i) as nat;
        lemma_decimal_reads_back(n);
        assert(int_text(i).drop_first() =~= nat_text(n));
        assert forall|k: int| 0 < k < int_text(i).len() implies is_digit(#[trigger] int_text(i)[k]) by {
            assert(int_text(i)[k] == nat_text(n)[k - 1]);
        }
    } else {
        lemma_decimal_reads_back(i as nat);
    }
}

/// Every `u32` written in decimal, with or without a leading `+`, is read
/// back as itself: each digit counts with its own value.
pub proof fn lemma_parse_reads_every_u32(n: u32)
    ensures
        parse_u32(nat_text(n as nat)) == Some(n),
        parse_u32(seq!['+'] + nat_text(n as nat)) == Some(n),
{
    lemma_decimal_reads_back(n as nat);
    let t = nat_text(n as nat);
    assert(is_digit(t[0]));
    assert(unsigned_digits(t) == t);
    assert((seq!['+'] + t).drop_first() =~= t);
    assert(unsigned_digits(seq!['+'] + t) == t);
}

proof fn lemma_prefix_value_le(d: Seq<char>, k: int)
    requires
        0 <= k <= d.len(),
        forall|i: int| 0 <= i < d.len() ==> is_digit(#[trigger] d[i]),
    ensures
        digits_value(d.take(k)) <= digits_value(d),
    decreases d.len(),
{
    if k < d.len() {
        assert(d.drop_last().take(k) =~= d.take(k));
        lemma_prefix_value_le(d.drop_last(), k);
    } else {
        assert(d.take(k) =~= d);
    }
}

/// The number of a text as `str::parse::<u32>` reads it, if it is one.
pub fn parse_u32_text(s: &str) -> (r: Option<u32>)
    ensures
        r == parse_u32(s@),
{
    let v = chars_of(s);
    let n = v.len();
    let start: usize = if n > 0 && v[0] == '+' {
        1
    } else {
        0
    };
    let ghost d = unsigned_digits(s@);
    assert(d =~= v@.subrange(start as int, n as int));
    if start == n {
        return None;
    }
    let mut acc: u64 = 0;
    let mut i: usize = start;
    assert(v@.subrange(start as int, start as int) =~= Seq::<char>::empty());
    while i < n
        invariant
            n == v@.len(),
            v@ == s@,
            d == unsigned_digits(s@),
            start <= i <= n,
            d == v@.subrange(start as int, n as int),
            acc == digits_value(v@.subrange(start as int, i as int)),
            acc <= u32::MAX,
            forall|j: int| start <= j < i ==> is_digit(#[trigger] v@[j]),
        decreases n - i,
    {
        let c = v[i];
        if !('0' <= c && c <= '9') {
            assert(d[i - start] == c);
            assert(!is_digit(d[i - start]));
            return None;
        }
        let digit: u64 = (c as u32 - 48) as u64;
        assert(v@.subrange(start as int, i + 1).drop_last() =~= v@.subrange(start as int, i as int));
        acc = acc * 10 + digit;
        assert(v@.subrange(start as int, i + 1).last() == c);
        assert(acc == digits_value(v@.subrange(start as int, i + 1)));
        if acc > 4294967295 {
            proof {
                if forall|j: int| 0 <= j < d.len() ==> is_digit(#[trigger] d[j]) {
                    assert(d.take(i + 1 - start) =~= v@.subrange(start as int, i + 1));
                    lemma_prefix_value_le(d, i + 1 - start);
                }
            }
            return None;
        }
        i = i + 1;
    }
    assert(v@.subrange(start as int, n as int) == d);
    Some(acc as u32)
}

/// The pool size: the configured text read as a `u32`, or 5 where nothing is
/// configured; `None` where the configured text is not such a number.
pub fn max_connections(setting: Option<&str>) -> (r: Option<u32>)
    ensures
        r == match setting {
            None => Some(default_max_connections()),
            Some(s) => parse_u32(s@),
        },
        setting is None ==> r == Some(5u32),
{
    match setting {
        None => Some(5),
        Some(s) => parse_u32_text(s),
    }
}

} // verus!
