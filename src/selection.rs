use vstd::prelude::*;
use vstd::string::StrSliceExecFns;
use crate::sample_set::{SampleSet, string_views};

verus! {

/// What `str::trim` leaves of a line.
pub uninterp spec fn trimmed(s: Seq<char>) -> Seq<char>;

/// Relies on `str::trim`: the line without its leading and trailing
/// whitespace, which depends on the characters of the line alone.
#[verifier::external_body]
fn trim_line(s: &str) -> (r: &str)
    ensures
        r@ == trimmed(s@),
{
    s.trim()
}

/// Whether `c` is an ASCII decimal digit.
pub open spec fn is_digit(c: char) -> bool {
    '0' as u32 <= c as u32 <= '9' as u32
}

/// The value of the ASCII decimal digit `c`.
pub open spec fn digit_value(c: char) -> nat {
    (c as u32 - '0' as u32) as nat
}

/// The number that the decimal digits `d` spell, most significant first.
pub open spec fn decimal_value(d: Seq<char>) -> nat
    decreases d.len(),
{
    if d.len() == 0 {
        0
    } else {
        decimal_value(d.drop_last()) * 10 + digit_value(d.last())
    }
}

/// `s` without one leading `+` sign, if it has one.
pub open spec fn unsigned_digits(s: Seq<char>) -> Seq<char> {
    if s.len() > 0 && s[0] == '+' {
        s.drop_first()
    } else {
        s
    }
}

/// The index that `s` denotes: an optional `+` followed by one or more ASCII
/// digits whose value fits in a `usize`. Anything else denotes no index.
pub open spec fn index_of(s: Seq<char>) -> Option<usize> {
    let d = unsigned_digits(s);
    if d.len() > 0 && all_digits(d) && decimal_value(d) <= usize::MAX {
        Some(decimal_value(d) as usize)
    } else {
        None
    }
}

/// Whether every character of `d` is an ASCII decimal digit.
pub open spec fn all_digits(d: Seq<char>) -> bool {
    forall|i: int| 0 <= i < d.len() ==> is_digit(#[trigger] d[i])
}

/// The content of a slot chosen by `index` among the discovered `samples`:
/// the sample at that index, or empty when there is no index or it is out of
/// range.
pub open spec fn slot_for(index: Option<usize>, samples: Seq<Seq<char>>) -> Seq<char> {
    match index {
        Some(i) => if i < samples.len() {
            samples[i as int]
        } else {
            Seq::empty()
        },
        None => Seq::empty(),
    }
}

/// The content of the slot that the input line `line` selects.
pub open spec fn selected_slot(line: Seq<char>, samples: Seq<Seq<char>>) -> Seq<char> {
    slot_for(index_of(trimmed(line)), samples)
}

proof fn lemma_decimal_at_least_prefix(d: Seq<char>, k: int)
    requires
        0 <= k <= d.len(),
    ensures
        decimal_value(d.subrange(0, k)) <= decimal_value(d),
    decreases d.len() - k,
{
    if k < d.len() {
        lemma_decimal_at_least_prefix(d, k + 1);
        assert(d.subrange(0, k + 1).drop_last() =~= d.subrange(0, k));
    } else {
        assert(d.subrange(0, k) =~= d);
    }
}

/// Reads `s` as an index in decimal notation, as `usize`'s `FromStr` does:
/// an optional `+`, then ASCII digits only, with a value that fits.
pub fn parse_index(s: &str) -> (r: Option<usize>)
    ensures
        r == index_of(s@),
{
    let n = s.unicode_len();
    let mut start: usize = 0;
    if n > 0 && s.get_char(0) == '+' {
        start = 1;
    }
    let ghost d = unsigned_digits(s@);
    assert(d =~= s@.subrange(start as int, n as int));
    if start == n {
        return None;
    }
    let mut i: usize = start;
    let mut v: usize = 0;
    let mut overflow = false;
    while i < n
        invariant
            start <= i <= n,
            n == s@.len(),
            d == unsigned_digits(s@),
            d == s@.subrange(start as int, n as int),
            forall|j: int| start <= j < i ==> is_digit(#[trigger] s@[j]),
            !overflow ==> v == decimal_value(d.subrange(0, i - start)),
            overflow ==> decimal_value(d.subrange(0, i - start)) > usize::MAX,
        decreases n - i,
    {
        let c = s.get_char(i);
        let code = c as u32;
        if code < '0' as u32 || code > '9' as u32 {
            let ghost k: int = i - start;
            assert(0 <= k < d.len() && !is_digit(d[k]));
            assert(!all_digits(d));
            return None;
        }
        let dv = (code - '0' as u32) as usize;
        assert(d.subrange(0, i - start + 1).drop_last() =~= d.subrange(0, i - start));
        if !overflow {
            match v.checked_mul(10) {
                Some(m) => match m.checked_add(dv) {
                    Some(t) => {
                        v = t;
                    },
                    None => {
                        overflow = true;
                    },
                },
                None => {
                    overflow = true;
                },
            }
        }
        i = i + 1;
    }
    assert(d.subrange(0, (n - start) as int) =~= d);
    if overflow {
        None
    } else {
        Some(v)
    }
}

/// The slot content that an already trimmed input line selects among the
/// discovered `samples`. Input that denotes no index, or an index out of
/// range, selects the empty placeholder.
pub fn resolve_slot(trimmed_line: &str, samples: &Vec<String>) -> (r: String)
    ensures
        r@ == slot_for(index_of(trimmed_line@), string_views(samples@)),
{
    match parse_index(trimmed_line) {
        Some(idx) => if idx < samples.len() {
            samples[idx].clone()
        } else {
            String::new()
        },
        None => String::new(),
    }
}

/// The slot content that a raw input line selects: the line is trimmed and
/// then resolved against the discovered `samples`.
pub fn select_sample(line: &str, samples: &Vec<String>) -> (r: String)
    ensures
        r@ == selected_slot(line@, string_views(samples@)),
{
    resolve_slot(trim_line(line), samples)
}

/// Builds the preset `name` from one input line per slot, each resolved
/// against the discovered `samples`.
pub fn build_sample_set(name: String, samples: &Vec<String>, lines: &[String; 8]) -> (r:
    SampleSet)
    ensures
        r.name == name,
        r@.samples.len() == 8,
        forall|i: int|
            0 <= i < 8 ==> #[trigger] r@.samples[i] == selected_slot(
                lines@[i]@,
                string_views(samples@),
            ),
{
    let s0 = select_sample(lines[0].as_str(), samples);
    let s1 = select_sample(lines[1].as_str(), samples);
    let s2 = select_sample(lines[2].as_str(), samples);
    let s3 = select_sample(lines[3].as_str(), samples);
    let s4 = select_sample(lines[4].as_str(), samples);
    let s5 = select_sample(lines[5].as_str(), samples);
    let s6 = select_sample(lines[6].as_str(), samples);
    let s7 = select_sample(lines[7].as_str(), samples);
    SampleSet { name, samples: [s0, s1, s2, s3, s4, s5, s6, s7] }
}

} // verus!
