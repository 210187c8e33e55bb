use vstd::prelude::*;
use crate::text::same_text;
use vstd::string::*;

verus! {

/// A JSON number: a non-negative integer, a negative integer, or any other
/// number held as its literal text.
#[derive(Debug, PartialEq)]
pub enum Number {
    Unsigned(u64),
    Negative(i64),
    Decimal(String),
}

/// A JSON document. An object keeps its members in order; where a key
/// repeats, the last member with that key counts.
#[derive(Debug, PartialEq)]
pub enum Json {
    Null,
    Bool(bool),
    Number(Number),
    Str(String),
    Array(Vec<Json>),
    Object(Vec<(String, Json)>),
}

impl Number {
    /// A copy equal to `self`.
    pub fn copy(&self) -> (r: Number)
        ensures
            r == *self,
    {
        match self {
            Number::Unsigned(n) => Number::Unsigned(*n),
            Number::Negative(n) => Number::Negative(*n),
            Number::Decimal(t) => Number::Decimal(t.clone()),
        }
    }
}

pub open spec fn is_digit(c: char) -> bool {
    '0' <= c && c <= '9'
}

/// End of the run of digits that starts at `i`.
pub open spec fn digits_end(s: Seq<char>, i: int) -> int
    decreases s.len() - i,
{
    if i < 0 || i >= s.len() || !is_digit(s[i]) {
        i
    } else {
        digits_end(s, i + 1)
    }
}

/// End of an optional fraction (`.` and digits) that starts at `i`, or -1
/// where a `.` has no digits after it.
pub open spec fn fraction_end(s: Seq<char>, i: int) -> int {
    if 0 <= i < s.len() && s[i] == '.' {
        let e = digits_end(s, i + 1);
        if e > i + 1 {
            e
        } else {
            -1
        }
    } else {
        i
    }
}

/// Start of the digits of an exponent whose letter stands at `i`.
pub open spec fn exponent_digits(s: Seq<char>, i: int) -> int {
    if i + 1 < s.len() && (s[i + 1] == '+' || s[i + 1] == '-') {
        i + 2
    } else {
        i + 1
    }
}

/// End of an optional exponent (`e` or `E`, a sign, digits) that starts at
/// `i`, or -1 where the letter has no digits after it.
pub open spec fn exponent_end(s: Seq<char>, i: int) -> int {
    if 0 <= i < s.len() && (s[i] == 'e' || s[i] == 'E') {
        let j = exponent_digits(s, i);
        let e = digits_end(s, j);
        if e > j {
            e
        } else {
            -1
        }
    } else {
        i
    }
}

pub open spec fn sign_len(s: Seq<char>) -> int {
    if s.len() > 0 && s[0] == '-' {
        1
    } else {
        0
    }
}

/// `s` is a JSON number: an optional minus, an integer part without
/// leading zeros, an optional fraction and an optional exponent.
pub open spec fn number_text(s: Seq<char>) -> bool {
    let a = sign_len(s);
    let e = digits_end(s, a);
    let f = fraction_end(s, e);
    &&& e > a
    &&& (s[a] != '0' || e == a + 1)
    &&& f >= 0
    &&& exponent_end(s, f) == s.len()
}

/// `s` is a JSON number above zero: no minus, and a digit other than zero
/// before the exponent.
pub open spec fn positive_text(s: Seq<char>) -> bool {
    &&& number_text(s)
    &&& sign_len(s) == 0
    &&& exists|i: int| 0 <= i < fraction_end(s, digits_end(s, 0)) && '1' <= #[trigger] s[i] && s[i] <= '9'
}

impl Number {
    /// A negative integer is below zero; a decimal is JSON number text.
    pub open spec fn well_formed(self) -> bool {
        match self {
            Number::Unsigned(_) => true,
            Number::Negative(n) => n < 0,
            Number::Decimal(t) => number_text(t@),
        }
    }

    pub open spec fn spec_positive(self) -> bool {
        match self {
            Number::Unsigned(n) => n > 0,
            Number::Negative(_) => false,
            Number::Decimal(t) => positive_text(t@),
        }
    }

    pub fn is_well_formed(&self) -> (r: bool)
        ensures
            r == self.well_formed(),
    {
        match self {
            Number::Unsigned(_) => true,
            Number::Negative(n) => *n < 0,
            Number::Decimal(t) => is_number_text(t.as_str()),
        }
    }

    /// Whether the number is well formed and above zero.
    pub fn is_positive(&self) -> (r: bool)
        ensures
            r == self.spec_positive(),
    {
        match self {
            Number::Unsigned(n) => *n > 0,
            Number::Negative(_) => false,
            Number::Decimal(t) => is_positive_text(t.as_str()),
        }
    }
}

fn scan_digits(s: &str, n: usize, i: usize) -> (r: usize)
    requires
        n == s@.len(),
        i <= n,
    ensures
        r as int == digits_end(s@, i as int),
        i <= r <= n,
{
    let mut j: usize = i;
    while j < n && is_digit_char(s.get_char(j))
        invariant
            n == s@.len(),
            i <= j <= n,
            digits_end(s@, j as int) == digits_end(s@, i as int),
        decreases n - j,
    {
        j += 1;
    }
    j
}

fn is_digit_char(c: char) -> (r: bool)
    ensures
        r == is_digit(c),
{
    '0' <= c && c <= '9'
}

fn scan_fraction(s: &str, n: usize, i: usize) -> (r: Option<usize>)
    requires
        n == s@.len(),
        i <= n,
    ensures
        match r {
            Some(e) => e as int == fraction_end(s@, i as int) && i <= e <= n,
            None => fraction_end(s@, i as int) == -1,
        },
{
    if i < n && s.get_char(i) == '.' {
        let e = scan_digits(s, n, i + 1);
        if e > i + 1 {
            Some(e)
        } else {
            None
        }
    } else {
        Some(i)
    }
}

fn scan_exponent(s: &str, n: usize, i: usize) -> (r: Option<usize>)
    requires
        n == s@.len(),
        i <= n,
    ensures
        match r {
            Some(e) => e as int == exponent_end(s@, i as int) && e <= n,
            None => exponent_end(s@, i as int) == -1,
        },
{
    if i < n && (s.get_char(i) == 'e' || s.get_char(i) == 'E') {
        let j = if i + 1 < n && (s.get_char(i + 1) == '+' || s.get_char(i + 1) == '-') {
            i + 2
        } else {
            i + 1
        };
        let e = scan_digits(s, n, j);
        if e > j {
            Some(e)
        } else {
            None
        }
    } else {
        Some(i)
    }
}

/// Whether `s` is JSON number text.
pub fn is_number_text(s: &str) -> (r: bool)
    ensures
        r == number_text(s@),
{
    let n = s.unicode_len();
    let a: usize = if n > 0 && s.get_char(0) == '-' {
        1
    } else {
        0
    };
    let e = scan_digits(s, n, a);
    if e <= a {
        return false;
    }
    if s.get_char(a) == '0' && e != a + 1 {
        return false;
    }
    match scan_fraction(s, n, e) {
        None => false,
        Some(f) => match scan_exponent(s, n, f) {
            None => false,
            Some(x) => x == n,
        },
    }
}

/// Whether `s` is JSON number text above zero.
pub fn is_positive_text(s: &str) -> (r: bool)
    ensures
        r == positive_text(s@),
{
    if !is_number_text(s) {
        return false;
    }
    let n = s.unicode_len();
    if s.get_char(0) == '-' {
        return false;
    }
    let f = match scan_fraction(s, n, scan_digits(s, n, 0)) {
        Some(f) => f,
        None => return false,
    };
    let mut i: usize = 0;
    while i < f
        invariant
            n == s@.len(),
            f <= n,
            f as int == fraction_end(s@, digits_end(s@, 0)),
            number_text(s@),
            sign_len(s@) == 0,
            i <= f,
            forall|k: int| 0 <= k < i ==> !('1' <= #[trigger] s@[k] && s@[k] <= '9'),
        decreases f - i,
    {
        let c = s.get_char(i);
        if '1' <= c && c <= '9' {
            return true;
        }
        i += 1;
    }
    false
}

/// Position of the last member named `k`, or -1.
pub open spec fn field_index(fs: Seq<(String, Json)>, k: Seq<char>) -> int
    decreases fs.len(),
{
    if fs.len() == 0 {
        -1
    } else if fs.last().0@ == k {
        fs.len() - 1
    } else {
        field_index(fs.drop_last(), k)
    }
}

/// The value of the member named `k`, if any.
pub open spec fn field(fs: Seq<(String, Json)>, k: Seq<char>) -> Option<Json> {
    let i = field_index(fs, k);
    if 0 <= i {
        Some(fs[i].1)
    } else {
        None
    }
}

pub proof fn lemma_field_index_bounds(fs: Seq<(String, Json)>, k: Seq<char>)
    ensures
        -1 <= field_index(fs, k) < fs.len(),
        0 <= field_index(fs, k) ==> fs[field_index(fs, k)].0@ == k,
    decreases fs.len(),
{
    if fs.len() > 0 && fs.last().0@ != k {
        lemma_field_index_bounds(fs.drop_last(), k);
    }
}

/// Appending a member: it is found under its own key, other keys are unchanged.
pub proof fn lemma_field_push(fs: Seq<(String, Json)>, e: (String, Json), k: Seq<char>)
    ensures
        field(fs.push(e), k) == if e.0@ == k {
            Some(e.1)
        } else {
            field(fs, k)
        },
{
    assert(fs.push(e).drop_last() =~= fs);
    lemma_field_index_bounds(fs, k);
}

/// Appending a member, for every key at once.
pub proof fn lemma_field_push_all(fs: Seq<(String, Json)>, e: (String, Json))
    ensures
        forall|k: Seq<char>|
            #[trigger] field(fs.push(e), k) == if e.0@ == k {
                Some(e.1)
            } else {
                field(fs, k)
            },
{
    assert forall|k: Seq<char>|
        #[trigger] field(fs.push(e), k) == if e.0@ == k {
            Some(e.1)
        } else {
            field(fs, k)
        } by {
        lemma_field_push(fs, e, k);
    }
}

/// Finds the position of the member named `key`.
pub fn find_field(fs: &Vec<(String, Json)>, key: &str) -> (r: Option<usize>)
    ensures
        match r {
            Some(i) => i as int == field_index(fs@, key@) && i < fs@.len(),
            None => field_index(fs@, key@) == -1,
        },
{
    let mut i: usize = fs.len();
    assert(fs@.subrange(0, i as int) =~= fs@);
    while i > 0
        invariant
            i <= fs@.len(),
            field_index(fs@, key@) == field_index(fs@.subrange(0, i as int), key@),
        decreases i,
    {
        assert(fs@.subrange(0, i as int).drop_last() =~= fs@.subrange(0, i - 1));
        if same_text(fs[i - 1].0.as_str(), key) {
            return Some(i - 1);
        }
        i -= 1;
    }
    None
}

/// The value of the member named `key`, if any.
pub fn get_field<'a>(fs: &'a Vec<(String, Json)>, key: &str) -> (r: Option<&'a Json>)
    ensures
        match r {
            Some(v) => field(fs@, key@) == Some(*v),
            None => field(fs@, key@) is None,
        },
{
    match find_field(fs, key) {
        Some(i) => Some(&fs[i].1),
        None => None,
    }
}

} // verus!
