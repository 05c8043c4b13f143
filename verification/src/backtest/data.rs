//! Historical bar records from CSV lines, and the clock of synthetic bars.
//!
//! A CSV line holds `symbol,open,high,low,close,volume,timestamp`; a first
//! line that mentions "symbol" is the header. The numeric fields are parsed
//! by the caller.

use vstd::prelude::*;
use crate::text::{contains_spec, contains_text, decimal, digit_char, push_decimal};

verus! {

/// What `str::to_lowercase` returns for a string: its Unicode lower-case
/// mapping.
pub uninterp spec fn lowercased(s: Seq<char>) -> Seq<char>;

/// Whether `c` has the Unicode `White_Space` property (the characters that
/// `char::is_whitespace` accepts).
pub open spec fn is_white_space(c: char) -> bool {
    let v = c as u32;
    ||| 0x9 <= v <= 0xD
    ||| v == 0x20
    ||| v == 0x85
    ||| v == 0xA0
    ||| v == 0x1680
    ||| 0x2000 <= v <= 0x200A
    ||| v == 0x2028
    ||| v == 0x2029
    ||| v == 0x202F
    ||| v == 0x205F
    ||| v == 0x3000
}

/// `s` without its leading white space.
pub open spec fn trim_start_spec(s: Seq<char>) -> Seq<char>
    decreases s.len(),
{
    if s.len() > 0 && is_white_space(s[0]) {
        trim_start_spec(s.drop_first())
    } else {
        s
    }
}

/// `s` without its trailing white space.
pub open spec fn trim_end_spec(s: Seq<char>) -> Seq<char>
    decreases s.len(),
{
    if s.len() > 0 && is_white_space(s.last()) {
        trim_end_spec(s.drop_last())
    } else {
        s
    }
}

/// `s` without leading and trailing white space, as `str::trim` returns it.
pub open spec fn trimmed(s: Seq<char>) -> Seq<char> {
    trim_end_spec(trim_start_spec(s))
}

fn white_space(c: char) -> (r: bool)
    ensures
        r == is_white_space(c),
{
    let v = c as u32;
    (0x9 <= v && v <= 0xD) || v == 0x20 || v == 0x85 || v == 0xA0 || v == 0x1680 || (0x2000 <= v
        && v <= 0x200A) || v == 0x2028 || v == 0x2029 || v == 0x202F || v == 0x205F || v == 0x3000
}

proof fn lemma_trim_start_skip(s: Seq<char>, i: int)
    requires
        0 <= i <= s.len(),
        forall|k: int| 0 <= k < i ==> is_white_space(#[trigger] s[k]),
    ensures
        trim_start_spec(s) == trim_start_spec(s.skip(i)),
    decreases i,
{
    if i == 0 {
        assert(s.skip(0) =~= s);
    } else {
        let t = s.drop_first();
        assert forall|k: int| 0 <= k < i - 1 implies is_white_space(#[trigger] t[k]) by {
            assert(t[k] == s[k + 1]);
        }
        lemma_trim_start_skip(t, i - 1);
        assert(t.skip(i - 1) =~= s.skip(i));
    }
}

proof fn lemma_trim_end_take(s: Seq<char>, j: int)
    requires
        0 <= j <= s.len(),
        forall|k: int| j <= k < s.len() ==> is_white_space(#[trigger] s[k]),
    ensures
        trim_end_spec(s) == trim_end_spec(s.take(j)),
    decreases s.len() - j,
{
    if j == s.len() {
        assert(s.take(j) =~= s);
    } else {
        let t = s.drop_last();
        assert forall|k: int| j <= k < t.len() implies is_white_space(#[trigger] t[k]) by {
            assert(t[k] == s[k]);
        }
        lemma_trim_end_take(t, j);
        assert(t.take(j) =~= s.take(j));
    }
}

/// `s` without leading and trailing white space.
pub fn trim_text(s: &str) -> (r: String)
    ensures
        r@ == trimmed(s@),
{
    let n = s.unicode_len();
    let mut i: usize = 0;
    while i < n && white_space(s.get_char(i))
        invariant
            n == s@.len(),
            i <= n,
            forall|k: int| 0 <= k < i ==> is_white_space(#[trigger] s@[k]),
        decreases n - i,
    {
        i += 1;
    }
    let mut j: usize = n;
    while j > i && white_space(s.get_char(j - 1))
        invariant
            n == s@.len(),
            i <= j <= n,
            forall|k: int| j <= k < n ==> is_white_space(#[trigger] s@[k]),
        decreases j - i,
    {
        j -= 1;
    }
    proof {
        lemma_trim_start_skip(s@, i as int);
        let t = s@.skip(i as int);
        if i < n {
            assert(t[0] == s@[i as int]);
        }
        assert(trim_start_spec(t) == t);
        assert forall|k: int| j - i <= k < t.len() implies is_white_space(#[trigger] t[k]) by {
            assert(t[k] == s@[k + i]);
        }
        lemma_trim_end_take(t, j - i);
        let u = t.take(j - i);
        assert(u =~= s@.subrange(i as int, j as int));
        if j > i {
            assert(u.last() == s@[j - 1]);
        }
        assert(trim_end_spec(u) == u);
    }
    s.substring_char(i, j).to_owned()
}

/// Calls `str::to_lowercase`: the contract names its result [`lowercased`].
#[verifier::external_body]
fn lowercase_text(s: &str) -> (r: String)
    ensures
        r@ == lowercased(s@),
{
    s.to_lowercase()
}

/// Splitting the rest `s` of a line at commas, given the field read so far
/// (`cur`) and the fields completed before it (`done`).
pub open spec fn split_from(s: Seq<char>, cur: Seq<char>, done: Seq<Seq<char>>) -> Seq<Seq<char>>
    decreases s.len(),
{
    if s.len() == 0 {
        done.push(cur)
    } else if s[0] == ',' {
        split_from(s.drop_first(), Seq::empty(), done.push(cur))
    } else {
        split_from(s.drop_first(), cur.push(s[0]), done)
    }
}

/// The comma-separated fields of a line, as `str::split(',')` yields them
/// (a line without commas is one field; an empty line is one empty field).
pub open spec fn comma_fields(line: Seq<char>) -> Seq<Seq<char>> {
    split_from(line, Seq::empty(), Seq::empty())
}

/// The number of fields a bar record needs.
pub const RECORD_FIELDS: usize = 7;

/// Whether line number `line_num` (from zero) is the header line.
pub open spec fn is_header_spec(line_num: usize, line: Seq<char>) -> bool {
    line_num == 0 && contains_spec(lowercased(line), "symbol"@)
}

/// The trimmed fields of a bar record, or `None` for the header line and for
/// lines with fewer than seven fields, which are skipped.
pub open spec fn record_fields_spec(line_num: usize, line: Seq<char>) -> Option<Seq<Seq<char>>> {
    let fields = comma_fields(line).map_values(|f: Seq<char>| trimmed(f));
    if is_header_spec(line_num, line) || fields.len() < RECORD_FIELDS {
        None
    } else {
        Some(fields)
    }
}

proof fn lemma_split_step(s: Seq<char>, cur: Seq<char>, done: Seq<Seq<char>>)
    requires
        s.len() > 0,
    ensures
        split_from(s, cur, done) == if s[0] == ',' {
            split_from(s.drop_first(), Seq::empty(), done.push(cur))
        } else {
            split_from(s.drop_first(), cur.push(s[0]), done)
        },
{
}

/// The trimmed comma-separated fields of line number `line_num` of a bar
/// file, or `None` when the line is the header or has too few fields.
pub fn record_fields(line_num: usize, line: &str) -> (r: Option<Vec<String>>)
    ensures
        match r {
            Some(v) => record_fields_spec(line_num, line@) == Some(
                v@.map_values(|f: String| f@),
            ),
            None => record_fields_spec(line_num, line@) is None,
        },
{
    if line_num == 0 {
        let lower = lowercase_text(line);
        if contains_text(lower.as_str(), "symbol") {
            return None;
        }
    }
    let n = line.unicode_len();
    let mut fields: Vec<String> = Vec::new();
    let mut start: usize = 0;
    let mut i: usize = 0;
    let ghost mut done: Seq<Seq<char>> = Seq::empty();
    assert(line@.skip(0) =~= line@);
    assert(line@.subrange(0, 0) =~= Seq::<char>::empty());
    while i < n
        invariant
            n == line@.len(),
            start <= i <= n,
            fields@.len() == done.len(),
            forall|k: int| 0 <= k < done.len() ==> (#[trigger] fields@[k])@ == trimmed(done[k]),
            comma_fields(line@) == split_from(line@.skip(i as int), line@.subrange(start as int, i as int), done),
        decreases n - i,
    {
        let c = line.get_char(i);
        proof {
            lemma_split_step(line@.skip(i as int), line@.subrange(start as int, i as int), done);
            assert(line@.skip(i as int)[0] == c);
            assert(line@.skip(i as int).drop_first() =~= line@.skip(i + 1));
        }
        if c == ',' {
            let field = line.substring_char(start, i);
            fields.push(trim_text(field));
            proof {
                done = done.push(line@.subrange(start as int, i as int));
                assert(line@.subrange(i + 1, i + 1) =~= Seq::<char>::empty());
            }
            start = i + 1;
        } else {
            proof {
                assert(line@.subrange(start as int, i as int).push(c) =~= line@.subrange(start as int, i + 1));
            }
        }
        i += 1;
    }
    let last = line.substring_char(start, n);
    fields.push(trim_text(last));
    proof {
        assert(line@.skip(n as int) =~= Seq::<char>::empty());
        done = done.push(line@.subrange(start as int, n as int));
        let expected = comma_fields(line@).map_values(|f: Seq<char>| trimmed(f));
        assert(comma_fields(line@) == done);
        assert(fields@.map_values(|f: String| f@) =~= expected);
    }
    if fields.len() < RECORD_FIELDS {
        return None;
    }
    Some(fields)
}

/// Two decimal digits for `n` (below 100), with a leading zero.
pub open spec fn two_digits(n: nat) -> Seq<char> {
    seq![digit_char(n / 10), digit_char(n % 10)]
}

fn push_two_digits(out: &mut String, n: u64)
    requires
        n < 100,
    ensures
        final(out)@ == old(out)@ + two_digits(n as nat),
{
    let ghost start = out@;
    if n < 10 {
        push_decimal(out, 0);
        push_decimal(out, n);
        assert(out@ =~= start + two_digits(n as nat));
    } else {
        push_decimal(out, n);
        assert(decimal((n / 10) as nat) == seq![digit_char((n / 10) as nat)]);
        assert(decimal(n as nat) == decimal((n / 10) as nat) + seq![digit_char((n % 10) as nat)]);
        assert(out@ =~= start + two_digits(n as nat));
    }
}

/// The timestamp of synthetic bar number `i`: one bar a minute from midnight
/// of 2024-01-01, the hour wrapping every 24 hours.
pub open spec fn synthetic_timestamp_spec(i: nat) -> Seq<char> {
    "2024-01-01T"@ + two_digits((i / 60) % 24) + ":"@ + two_digits(i % 60) + ":00Z"@
}

/// The number a two-digit field of decimal digits `a` `b` denotes.
pub open spec fn two_digit_value(a: char, b: char) -> int {
    (a as int - 48) * 10 + (b as int - 48)
}

proof fn lemma_two_digits_value(n: nat)
    requires
        n < 100,
    ensures
        two_digits(n).len() == 2,
        two_digit_value(two_digits(n)[0], two_digits(n)[1]) == n,
{
    assert(n / 10 < 10);
    assert(n % 10 < 10);
    assert(n == (n / 10) * 10 + n % 10);
}

/// Synthetic bars are one minute apart from midnight: the timestamp of bar
/// `i` has 20 characters, starts with the date `2024-01-01T`, its minute
/// field is `i % 60`, its hour field is the number of whole hours `i / 60`
/// within the first day, and the timestamps repeat only after 24 hours.
pub proof fn lemma_synthetic_timestamp_fields(i: nat)
    ensures
        synthetic_timestamp_spec(i).len() == 20,
        synthetic_timestamp_spec(i).subrange(0, 11) == "2024-01-01T"@,
        synthetic_timestamp_spec(i)[13] == ':' && synthetic_timestamp_spec(i)[16] == ':',
        two_digit_value(synthetic_timestamp_spec(i)[14], synthetic_timestamp_spec(i)[15]) == i
            % 60,
        i < 1440 ==> two_digit_value(synthetic_timestamp_spec(i)[11], synthetic_timestamp_spec(i)[12])
            == i / 60,
        synthetic_timestamp_spec(i + 1440) == synthetic_timestamp_spec(i),
{
    reveal_strlit("2024-01-01T");
    reveal_strlit(":");
    reveal_strlit(":00Z");
    let h = ((i / 60) % 24) as nat;
    let m = (i % 60) as nat;
    lemma_two_digits_value(h);
    lemma_two_digits_value(m);
    let t = synthetic_timestamp_spec(i);
    assert(t == "2024-01-01T"@ + two_digits(h) + ":"@ + two_digits(m) + ":00Z"@);
    assert(t[11] == two_digits(h)[0] && t[12] == two_digits(h)[1]);
    assert(t[14] == two_digits(m)[0] && t[15] == two_digits(m)[1]);
    assert(t.subrange(0, 11) =~= "2024-01-01T"@);
    assert((i + 1440) / 60 == i / 60 + 24);
    assert(((i + 1440) / 60) % 24 == (i / 60) % 24);
    assert((i + 1440) % 60 == i % 60);
}

/// Within the first day the synthetic timestamps increase with the bar
/// number: a later bar has a later hour, or the same hour and a later minute;
/// so no two of the first 1440 bars share a timestamp.
pub proof fn lemma_synthetic_timestamps_increase(i: nat, j: nat)
    requires
        i < j < 1440,
    ensures
        ({
            let a = synthetic_timestamp_spec(i);
            let b = synthetic_timestamp_spec(j);
            two_digit_value(a[11], a[12]) < two_digit_value(b[11], b[12]) || (two_digit_value(
                a[11],
                a[12],
            ) == two_digit_value(b[11], b[12]) && two_digit_value(a[14], a[15]) < two_digit_value(
                b[14],
                b[15],
            ))
        }),
        synthetic_timestamp_spec(i) != synthetic_timestamp_spec(j),
{
    lemma_synthetic_timestamp_fields(i);
    lemma_synthetic_timestamp_fields(j);
    let a = synthetic_timestamp_spec(i);
    let b = synthetic_timestamp_spec(j);
    if a == b {
        assert(a[11] == b[11] && a[12] == b[12] && a[14] == b[14] && a[15] == b[15]);
        assert(i == (i / 60) * 60 + i % 60);
        assert(j == (j / 60) * 60 + j % 60);
    }
    assert(i == (i / 60) * 60 + i % 60);
    assert(j == (j / 60) * 60 + j % 60);
}

/// The timestamp of synthetic bar number `i`.
pub fn synthetic_timestamp(i: usize) -> (s: String)
    ensures
        s@ == synthetic_timestamp_spec(i as nat),
{
    let mut s = String::new();
    s.append("2024-01-01T");
    push_two_digits(&mut s, ((i / 60) % 24) as u64);
    s.append(":");
    push_two_digits(&mut s, (i % 60) as u64);
    s.append(":00Z");
    assert(s@ =~= synthetic_timestamp_spec(i as nat));
    s
}

} // verus!
