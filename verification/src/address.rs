//! Recipient address validation and normalization.
//!
//! A recipient address is accepted when, after trimming surrounding
//! whitespace, it reads `0x` (in either case) followed by exactly forty
//! hexadecimal digits (in either case).  Accepted addresses are stored
//! lower-cased, so differently-cased spellings of one account collide
//! on the same ledger entry.
use vstd::prelude::*;

verus! {

/// Whitespace stripped from either end of a submitted address.
pub open spec fn is_space_char(c: char) -> bool {
    c == ' ' || c == '\t' || c == '\n' || c == '\r' || c == '\u{c}'
}

/// `s` without its leading whitespace.
pub open spec fn trim_front(s: Seq<char>) -> Seq<char>
    decreases s.len(),
{
    if s.len() > 0 && is_space_char(s[0]) {
        trim_front(s.drop_first())
    } else {
        s
    }
}

/// `s` without its trailing whitespace.
pub open spec fn trim_back(s: Seq<char>) -> Seq<char>
    decreases s.len(),
{
    if s.len() > 0 && is_space_char(s.last()) {
        trim_back(s.drop_last())
    } else {
        s
    }
}

/// `s` without leading and trailing whitespace.
pub open spec fn trimmed(s: Seq<char>) -> Seq<char> {
    trim_back(trim_front(s))
}

/// A hexadecimal digit, either case.
pub open spec fn is_hex_char(c: char) -> bool {
    ('0' as int <= c as int && c as int <= '9' as int) || ('a' as int <= c as int && c as int
        <= 'f' as int) || ('A' as int <= c as int && c as int <= 'F' as int)
}

/// Lower-cases the characters an address may contain; all others are
/// left alone (they make the address invalid anyway).
pub open spec fn lower_char(c: char) -> char {
    if c == 'A' {
        'a'
    } else if c == 'B' {
        'b'
    } else if c == 'C' {
        'c'
    } else if c == 'D' {
        'd'
    } else if c == 'E' {
        'e'
    } else if c == 'F' {
        'f'
    } else if c == 'X' {
        'x'
    } else {
        c
    }
}

/// `s` lower-cased character by character.
pub open spec fn lower_chars(s: Seq<char>) -> Seq<char> {
    Seq::new(s.len(), |i: int| lower_char(s[i]))
}

/// The normal form of a submitted address: trimmed, then lower-cased.
pub open spec fn normalize_spec(s: Seq<char>) -> Seq<char> {
    lower_chars(trimmed(s))
}

/// The address syntax: `0x` followed by forty hexadecimal digits.
/// On a lower-cased string this is exactly the accepted shape; on a raw
/// string the hexadecimal digits may still be upper-case.
pub open spec fn valid_address_chars(s: Seq<char>) -> bool {
    &&& s.len() == 42
    &&& s[0] == '0'
    &&& s[1] == 'x'
    &&& forall|i: int| 2 <= i < s.len() ==> is_hex_char(#[trigger] s[i])
}

/// A string that is both syntactically valid and in normal form.
pub open spec fn normalized_address(s: Seq<char>) -> bool {
    &&& valid_address_chars(s)
    &&& forall|i: int| 0 <= i < s.len() ==> #[trigger] s[i] == lower_char(s[i])
}

/// A validated, normalized recipient address.
#[derive(Clone, Debug)]
pub struct Address {
    repr: String,
}

impl View for Address {
    type V = Seq<char>;

    closed spec fn view(&self) -> Seq<char> {
        self.repr@
    }
}

impl Address {
    /// Every address this crate hands out satisfies this.
    pub open spec fn wf(&self) -> bool {
        normalized_address(self@)
    }

    /// The address as text, e.g. to key a map or build a transaction.
    pub fn as_str(&self) -> (r: &str)
        ensures
            r@ == self@,
    {
        self.repr.as_str()
    }
}

/// Syntax check alone, without normalizing: the prefix must read
/// exactly `0x`, while the forty hexadecimal digits may be either
/// case.
pub fn is_valid_address(address: &str) -> (b: bool)
    ensures
        b == valid_address_chars(address@),
{
    let n = address.unicode_len();
    if n != 42 {
        return false;
    }
    if address.get_char(0) != '0' {
        return false;
    }
    if address.get_char(1) != 'x' {
        return false;
    }
    let mut i: usize = 2;
    while i < 42
        invariant
            2 <= i <= 42,
            address@.len() == 42,
            forall|j: int| 2 <= j < i ==> is_hex_char(#[trigger] address@[j]),
        decreases 42 - i,
    {
        if !is_hex_exec(address.get_char(i)) {
            return false;
        }
        i += 1;
    }
    true
}

/// Executable form of `is_hex_char`.
fn is_hex_exec(c: char) -> (b: bool)
    ensures
        b == is_hex_char(c),
{
    let v = c as u32;
    ('0' as u32 <= v && v <= '9' as u32) || ('a' as u32 <= v && v <= 'f' as u32) || ('A' as u32 <= v
        && v <= 'F' as u32)
}

/// Executable form of `is_space_char`.
fn is_space_exec(c: char) -> (b: bool)
    ensures
        b == is_space_char(c),
{
    c == ' ' || c == '\t' || c == '\n' || c == '\r' || c == '\u{c}'
}

/// `trim_front` drops exactly the leading run of whitespace.
proof fn lemma_trim_front_index(s: Seq<char>, k: int)
    requires
        0 <= k <= s.len(),
        forall|i: int| 0 <= i < k ==> is_space_char(#[trigger] s[i]),
        k == s.len() || !is_space_char(s[k]),
    ensures
        trim_front(s) == s.subrange(k, s.len() as int),
    decreases k,
{
    if k == 0 {
        assert(trim_front(s) =~= s.subrange(0, s.len() as int));
    } else {
        let t = s.drop_first();
        assert(forall|i: int| 0 <= i < k - 1 ==> is_space_char(#[trigger] t[i]));
        lemma_trim_front_index(t, k - 1);
        assert(t.subrange(k - 1, t.len() as int) =~= s.subrange(k, s.len() as int));
    }
}

/// `trim_back` drops exactly the trailing run of whitespace.
proof fn lemma_trim_back_index(s: Seq<char>, k: int)
    requires
        0 <= k <= s.len(),
        forall|i: int| k <= i < s.len() ==> is_space_char(#[trigger] s[i]),
        k == 0 || !is_space_char(s[k - 1]),
    ensures
        trim_back(s) == s.subrange(0, k),
    decreases s.len() - k,
{
    if k == s.len() {
        assert(trim_back(s) =~= s.subrange(0, k));
    } else {
        let t = s.drop_last();
        lemma_trim_back_index(t, k);
        assert(t.subrange(0, k) =~= s.subrange(0, k));
    }
}

/// The single-character lower-case string for a character valid in an
/// address.
fn lower_label(c: char) -> (r: &'static str)
    requires
        is_hex_char(c) || c == 'x' || c == 'X',
    ensures
        r@ == seq![lower_char(c)],
{
    proof {
        reveal_strlit("0");
        reveal_strlit("1");
        reveal_strlit("2");
        reveal_strlit("3");
        reveal_strlit("4");
        reveal_strlit("5");
        reveal_strlit("6");
        reveal_strlit("7");
        reveal_strlit("8");
        reveal_strlit("9");
        reveal_strlit("a");
        reveal_strlit("b");
        reveal_strlit("c");
        reveal_strlit("d");
        reveal_strlit("e");
        reveal_strlit("f");
        reveal_strlit("x");
    }
    let r: &'static str = if c == '0' {
        "0"
    } else if c == '1' {
        "1"
    } else if c == '2' {
        "2"
    } else if c == '3' {
        "3"
    } else if c == '4' {
        "4"
    } else if c == '5' {
        "5"
    } else if c == '6' {
        "6"
    } else if c == '7' {
        "7"
    } else if c == '8' {
        "8"
    } else if c == '9' {
        "9"
    } else if c == 'a' || c == 'A' {
        "a"
    } else if c == 'b' || c == 'B' {
        "b"
    } else if c == 'c' || c == 'C' {
        "c"
    } else if c == 'd' || c == 'D' {
        "d"
    } else if c == 'e' || c == 'E' {
        "e"
    } else {
        if c == 'f' || c == 'F' {
            "f"
        } else {
            "x"
        }
    };
    proof {
        assert(r@ =~= seq![lower_char(c)]);
    }
    r
}

/// Validates and normalizes a submitted address.
///
/// Returns the normalized address exactly when the input, trimmed and
/// lower-cased, has the address syntax; returns `None` otherwise.
pub fn validate(raw: &str) -> (r: Option<Address>)
    ensures
        r is Some <==> valid_address_chars(normalize_spec(raw@)),
        match r {
            Some(a) => a@ == normalize_spec(raw@) && a.wf(),
            None => true,
        },
{
    let n = raw.unicode_len();

    // Locate the trimmed region [start, end).
    let mut start: usize = 0;
    while start < n && is_space_exec(raw.get_char(start))
        invariant
            0 <= start <= n,
            n == raw@.len(),
            forall|i: int| 0 <= i < start ==> is_space_char(#[trigger] raw@[i]),
        decreases n - start,
    {
        start += 1;
    }
    let mut end: usize = n;
    while end > start && is_space_exec(raw.get_char(end - 1))
        invariant
            start <= end <= n,
            n == raw@.len(),
            forall|i: int| end <= i < n ==> is_space_char(#[trigger] raw@[i]),
        decreases end,
    {
        end -= 1;
    }
    proof {
        lemma_trim_front_index(raw@, start as int);
        let f = raw@.subrange(start as int, n as int);
        lemma_trim_back_index(f, end - start);
        assert(f.subrange(0, end - start) =~= raw@.subrange(start as int, end as int));
        assert(trimmed(raw@) == raw@.subrange(start as int, end as int));
    }
    let ghost t = trimmed(raw@);
    let ghost norm = normalize_spec(raw@);
    proof {
        assert(norm.len() == t.len());
    }

    // Syntax check, case-insensitively, against the trimmed region.
    if end - start != 42 {
        return None;
    }
    if raw.get_char(start) != '0' {
        proof {
            assert(t[0] == raw@[start as int]);
            assert(norm[0] == lower_char(t[0]));
        }
        return None;
    }
    let c1 = raw.get_char(start + 1);
    if !(c1 == 'x' || c1 == 'X') {
        proof {
            assert(t[1] == raw@[start + 1]);
            assert(norm[1] == lower_char(t[1]));
        }
        return None;
    }

    // Build the normalized form while checking the digits.
    let mut s = String::from_str("0x");
    proof {
        reveal_strlit("0x");
        assert(t[0] == raw@[start as int] && t[1] == raw@[start + 1]);
        assert(norm[0] == lower_char(t[0]));
        assert(norm[1] == lower_char(t[1]));
        assert(s@ =~= norm.take(2));
    }
    let mut i: usize = 2;
    while i < 42
        invariant
            2 <= i <= 42,
            raw@.len() >= end,
            end - start == 42,
            t == raw@.subrange(start as int, end as int),
            norm == lower_chars(t),
            norm == normalize_spec(raw@),
            norm.len() == 42,
            s@ == norm.take(i as int),
            forall|j: int| 2 <= j < i ==> is_hex_char(#[trigger] t[j]),
        decreases 42 - i,
    {
        let c = raw.get_char(start + i);
        proof {
            assert(t[i as int] == raw@[start + i]);
        }
        if !is_hex_exec(c) {
            proof {
                assert(norm[i as int] == lower_char(c));
                assert(!is_hex_char(lower_char(c)));
                assert(!is_hex_char(norm[i as int]));
                assert(!valid_address_chars(norm));
            }
            return None;
        }
        s.append(lower_label(c));
        proof {
            assert(norm[i as int] == lower_char(t[i as int]));
            assert(s@ =~= norm.take(i as int + 1));
        }
        i += 1;
    }
    proof {
        assert(s@ =~= norm);
        assert(forall|j: int| 2 <= j < 42 ==> is_hex_char(#[trigger] norm[j]) == is_hex_char(
            lower_char(t[j]),
        ));
        assert(valid_address_chars(norm));
        assert(forall|j: int| 0 <= j < 42 ==> #[trigger] norm[j] == lower_char(norm[j]));
    }
    Some(Address { repr: s })
}

} // verus!
