use vstd::prelude::*;

verus! {

// ---------------------------------------------------------------------------
// Characters
// ---------------------------------------------------------------------------

/// The characters of `s`, in order.
pub fn chars_of(s: &str) -> (r: Vec<char>)
    ensures
        r@ == s@,
{
    let mut out: Vec<char> = Vec::new();
    for c in it: s.chars()
        invariant
            it.seq() == s@,
            out@ == it.seq().take(it.index()),
    {
        out.push(c);
    }
    out
}

/// Builds a `String` that holds exactly the characters of `chars`
/// (`String: FromIterator<&char>`, std).
#[verifier::external_body]
pub(crate) fn string_from_chars(chars: &Vec<char>) -> (r: String)
    ensures
        r@ == chars@,
{
    chars.iter().collect::<String>()
}

/// The lowercase form of a text, as `str::to_lowercase` (std) computes it
/// following the Unicode lowercase mapping.
pub uninterp spec fn lowercase(s: Seq<char>) -> Seq<char>;

/// Whether every character of `s` is ASCII.
pub open spec fn is_ascii_text(s: Seq<char>) -> bool {
    forall|i: int| 0 <= i < s.len() ==> (#[trigger] s[i] as u32) < 128
}

/// ASCII lowercase of one character: `A`..`Z` become `a`..`z`, all others stay.
pub open spec fn ascii_lower_char(c: char) -> char {
    if 65 <= (c as u32) && (c as u32) <= 90 {
        ((c as u32) + 32) as char
    } else {
        c
    }
}

/// ASCII lowercase of a text, character by character.
pub open spec fn ascii_lower(s: Seq<char>) -> Seq<char> {
    s.map_values(|c: char| ascii_lower_char(c))
}

/// Calls `str::to_lowercase` (std). Its result is named `lowercase`; for a text
/// made of ASCII characters only, the Unicode mapping lowers `A`..`Z` and keeps
/// every other character, which is stated. What it does to other characters
/// (including the context-dependent final sigma) is left to the name.
#[verifier::external_body]
pub(crate) fn to_lowercase(s: &str) -> (r: String)
    ensures
        r@ == lowercase(s@),
        is_ascii_text(s@) ==> r@ == ascii_lower(s@),
{
    s.to_lowercase()
}

// ---------------------------------------------------------------------------
// Searching
// ---------------------------------------------------------------------------

/// `needle` occurs in `text` starting at position `i`.
pub open spec fn occurs_at(text: Seq<char>, needle: Seq<char>, i: int) -> bool {
    0 <= i && i + needle.len() <= text.len() && text.subrange(i, i + needle.len()) == needle
}

/// `needle` occurs somewhere in `text` as a contiguous run of characters
/// (the empty needle occurs in every text).
pub open spec fn has_infix(text: Seq<char>, needle: Seq<char>) -> bool {
    exists|i: int| #[trigger] occurs_at(text, needle, i)
}

/// Whether `needle` matches `text` at position `start`.
fn matches_at(text: &Vec<char>, needle: &Vec<char>, start: usize) -> (r: bool)
    requires
        start + needle.len() <= text.len(),
    ensures
        r == occurs_at(text@, needle@, start as int),
{
    let mut j: usize = 0;
    while j < needle.len()
        invariant
            start + needle.len() <= text.len(),
            j <= needle.len(),
            forall|k: int| 0 <= k < j ==> text@[start + k] == needle@[k],
        decreases needle.len() - j,
    {
        if text[start + j] != needle[j] {
            proof {
                assert(text@.subrange(start as int, start + needle.len())[j as int] != needle@[j as int]);
            }
            return false;
        }
        j = j + 1;
    }
    proof {
        assert(text@.subrange(start as int, start + needle.len()) =~= needle@);
    }
    true
}

/// Whether `needle` occurs in `text` (as `str::contains` with a `&str` pattern).
pub fn contains(text: &str, needle: &str) -> (r: bool)
    ensures
        r == has_infix(text@, needle@),
{
    let t = chars_of(text);
    let n = chars_of(needle);
    if n.len() > t.len() {
        proof {
            assert forall|i: int| !occurs_at(text@, needle@, i) by {}
        }
        return false;
    }
    let last = t.len() - n.len();
    let mut i: usize = 0;
    while i < last
        invariant
            t@ == text@,
            n@ == needle@,
            last == t.len() - n.len(),
            n.len() <= t.len(),
            i <= last,
            forall|k: int| 0 <= k < i ==> !occurs_at(text@, needle@, k),
        decreases last - i,
    {
        if matches_at(&t, &n, i) {
            return true;
        }
        i = i + 1;
    }
    let found = matches_at(&t, &n, last);
    proof {
        if !found {
            assert forall|k: int| !occurs_at(text@, needle@, k) by {
                if 0 <= k < i {
                }
            }
        }
    }
    found
}

// ---------------------------------------------------------------------------
// Rewriting
// ---------------------------------------------------------------------------

/// `s` with every `from` replaced by `to`.
pub open spec fn replaced(s: Seq<char>, from: char, to: char) -> Seq<char> {
    s.map_values(|c: char| if c == from { to } else { c })
}

/// Replaces every occurrence of the character `from` by `to`
/// (as `str::replace` with a `char` pattern and a one-character replacement).
pub fn replace_char(s: &str, from: char, to: char) -> (r: String)
    ensures
        r@ == replaced(s@, from, to),
{
    let cs = chars_of(s);
    let mut out: Vec<char> = Vec::new();
    let mut i: usize = 0;
    while i < cs.len()
        invariant
            cs@ == s@,
            i <= cs.len(),
            out@ == replaced(s@.take(i as int), from, to),
        decreases cs.len() - i,
    {
        let c = cs[i];
        if c == from {
            out.push(to);
        } else {
            out.push(c);
        }
        proof {
            assert(s@.take(i + 1) =~= s@.take(i as int).push(c));
            assert(replaced(s@.take(i + 1), from, to) =~= replaced(s@.take(i as int), from, to).push(
                if c == from { to } else { c },
            ));
        }
        i = i + 1;
    }
    proof {
        assert(s@.take(cs.len() as int) =~= s@);
    }
    string_from_chars(&out)
}

// ---------------------------------------------------------------------------
// Decimal numbers
// ---------------------------------------------------------------------------

/// The character of the decimal digit `d` (for `d < 10`).
pub open spec fn digit_char(d: nat) -> char {
    ((d + 48) as u32) as char
}

/// Whether `c` is one of `0`..`9`.
pub open spec fn is_digit(c: char) -> bool {
    48 <= (c as u32) && (c as u32) <= 57
}

/// The value of the decimal digit `c`.
pub open spec fn digit_value(c: char) -> nat {
    ((c as u32) - 48) as nat
}

/// The decimal notation of `n`, most significant digit first, without
/// leading zeros (`0` is written `0`).
pub open spec fn decimal(n: nat) -> Seq<char>
    decreases n,
{
    if n < 10 {
        seq![digit_char(n)]
    } else {
        decimal(n / 10).push(digit_char(n % 10))
    }
}

/// The decimal notation of a signed number: a `-` before the digits of its
/// magnitude when it is negative.
pub open spec fn signed_decimal(n: int) -> Seq<char> {
    if n < 0 {
        seq!['-'] + decimal((-n) as nat)
    } else {
        decimal(n as nat)
    }
}

fn digit_of(d: u32) -> (c: char)
    requires
        d < 10,
    ensures
        c == digit_char(d as nat),
{
    let code: u8 = (d as u8) + 48;
    let c = code as char;
    proof {
        assert(c as u32 == d + 48);
    }
    c
}

fn push_decimal(out: &mut Vec<char>, n: u32)
    ensures
        final(out)@ == old(out)@ + decimal(n as nat),
    decreases n,
{
    if n >= 10 {
        push_decimal(out, n / 10);
        out.push(digit_of(n % 10));
        proof {
            assert(decimal(n as nat) == decimal((n / 10) as nat).push(digit_char((n % 10) as nat)));
            assert(final(out)@ =~= old(out)@ + decimal(n as nat));
        }
    } else {
        out.push(digit_of(n));
        proof {
            assert(final(out)@ =~= old(out)@ + decimal(n as nat));
        }
    }
}

/// The decimal notation of an unsigned number (as `u32::to_string`).
pub fn u32_to_decimal(n: u32) -> (r: String)
    ensures
        r@ == decimal(n as nat),
{
    let mut out: Vec<char> = Vec::new();
    push_decimal(&mut out, n);
    proof {
        assert(out@ =~= decimal(n as nat));
    }
    string_from_chars(&out)
}

/// The decimal notation of a signed number (as `i32::to_string`).
pub fn i32_to_decimal(n: i32) -> (r: String)
    ensures
        r@ == signed_decimal(n as int),
{
    let mut out: Vec<char> = Vec::new();
    if n < 0 {
        out.push('-');
        let magnitude: u32 = if n == i32::MIN {
            2147483648u32
        } else {
            (-n) as u32
        };
        push_decimal(&mut out, magnitude);
        proof {
            assert(out@ =~= signed_decimal(n as int));
        }
    } else {
        push_decimal(&mut out, n as u32);
        proof {
            assert(out@ =~= signed_decimal(n as int));
        }
    }
    string_from_chars(&out)
}

// ---------------------------------------------------------------------------
// Parsing
// ---------------------------------------------------------------------------

/// The number that a run of decimal digits denotes.
pub open spec fn digits_value(s: Seq<char>) -> nat
    decreases s.len(),
{
    if s.len() == 0 {
        0
    } else {
        digits_value(s.drop_last()) * 10 + digit_value(s.last())
    }
}

/// Whether every character of `s` is a decimal digit.
pub open spec fn all_digits(s: Seq<char>) -> bool {
    forall|i: int| 0 <= i < s.len() ==> is_digit(#[trigger] s[i])
}

/// `s` without one leading `+`, if it has one.
pub open spec fn unsigned_body(s: Seq<char>) -> Seq<char> {
    if s.len() > 0 && s[0] == '+' {
        s.drop_first()
    } else {
        s
    }
}

/// What `str::parse::<u32>` accepts: an optional `+`, then one or more decimal
/// digits whose value fits in 32 bits.
pub open spec fn parsed_u32(s: Seq<char>) -> Option<u32> {
    let body = unsigned_body(s);
    if body.len() > 0 && all_digits(body) && digits_value(body) <= u32::MAX {
        Some(digits_value(body) as u32)
    } else {
        None
    }
}

proof fn lemma_digits_value_grows(s: Seq<char>, i: int, j: int)
    requires
        0 <= i <= j <= s.len(),
        all_digits(s),
    ensures
        digits_value(s.take(i)) <= digits_value(s.take(j)),
    decreases j - i,
{
    if i < j {
        lemma_digits_value_grows(s, i, j - 1);
        assert(s.take(j).drop_last() =~= s.take(j - 1));
        assert(digits_value(s.take(j)) == digits_value(s.take(j - 1)) * 10 + digit_value(
            s.take(j).last(),
        ));
    }
}

/// Parses a pass key typed by the user: the number that `str::parse::<u32>`
/// reads from the text, or 0 when the text is not such a number.
pub fn parse_u32_or_zero(s: &str) -> (r: u32)
    ensures
        r == match parsed_u32(s@) {
            Some(v) => v,
            None => 0u32,
        },
{
    let cs = chars_of(s);
    let start: usize = if cs.len() > 0 && cs[0] == '+' {
        1
    } else {
        0
    };
    let ghost body = unsigned_body(s@);
    proof {
        assert(body =~= s@.subrange(start as int, s@.len() as int));
    }
    if start >= cs.len() {
        return 0;
    }
    let mut acc: u64 = 0;
    let mut i: usize = start;
    while i < cs.len()
        invariant
            cs@ == s@,
            start <= i <= cs.len(),
            body == s@.subrange(start as int, s@.len() as int),
            body == unsigned_body(s@),
            forall|k: int| 0 <= k < i - start ==> is_digit(#[trigger] body[k]),
            acc == digits_value(body.take(i - start)),
            acc <= u32::MAX,
        decreases cs.len() - i,
    {
        let c = cs[i];
        proof {
            assert(body[i - start] == c);
        }
        if (c as u32) < 48 || (c as u32) > 57 {
            proof {
                assert(!is_digit(body[i - start]));
                assert(!all_digits(body));
                assert(parsed_u32(s@) is None);
            }
            return 0;
        }
        let d: u64 = (c as u32 - 48) as u64;
        proof {
            assert(body.take(i - start + 1).drop_last() =~= body.take(i - start));
            assert(body.take(i - start + 1).last() == c);
        }
        let next: u64 = acc * 10 + d;
        if next > u32::MAX as u64 {
            proof {
                let k = i - start + 1;
                assert(digits_value(body.take(k)) == next);
                if all_digits(body) {
                    lemma_digits_value_grows(body, k, body.len() as int);
                    assert(body.take(body.len() as int) =~= body);
                    assert(digits_value(body) > u32::MAX);
                }
                assert(parsed_u32(s@) is None);
            }
            return 0;
        }
        acc = next;
        i = i + 1;
    }
    proof {
        assert(body.take(body.len() as int) =~= body);
        assert(all_digits(body));
    }
    acc as u32
}

// ---------------------------------------------------------------------------
// Ordering texts
// ---------------------------------------------------------------------------

/// The outcome of comparing two texts.
#[derive(Clone, Copy, Debug, PartialEq, Eq, Structural)]
pub enum TextOrder {
    Before,
    Same,
    After,
}

impl TextOrder {
    /// The outcome seen from the other side.
    pub open spec fn flipped(self) -> TextOrder {
        match self {
            TextOrder::Before => TextOrder::After,
            TextOrder::Same => TextOrder::Same,
            TextOrder::After => TextOrder::Before,
        }
    }
}

/// Lexicographic order of two texts by character code points (the order of
/// `Ord for str`, since UTF-8 keeps the order of code points).
pub open spec fn text_order(a: Seq<char>, b: Seq<char>) -> TextOrder
    decreases a.len(),
{
    if a.len() == 0 {
        if b.len() == 0 {
            TextOrder::Same
        } else {
            TextOrder::Before
        }
    } else if b.len() == 0 {
        TextOrder::After
    } else if (a[0] as u32) < (b[0] as u32) {
        TextOrder::Before
    } else if (a[0] as u32) > (b[0] as u32) {
        TextOrder::After
    } else {
        text_order(a.drop_first(), b.drop_first())
    }
}

/// Compares two texts in the order of `text_order`.
pub fn order_texts(a: &str, b: &str) -> (r: TextOrder)
    ensures
        r == text_order(a@, b@),
{
    let x = chars_of(a);
    let y = chars_of(b);
    let mut i: usize = 0;
    proof {
        assert(a@.skip(0) =~= a@);
        assert(b@.skip(0) =~= b@);
    }
    while i < x.len() && i < y.len()
        invariant
            x@ == a@,
            y@ == b@,
            i <= x.len(),
            i <= y.len(),
            text_order(a@, b@) == text_order(a@.skip(i as int), b@.skip(i as int)),
        decreases x.len() - i,
    {
        let c = x[i];
        let d = y[i];
        if (c as u32) < (d as u32) {
            return TextOrder::Before;
        }
        if (c as u32) > (d as u32) {
            return TextOrder::After;
        }
        proof {
            assert(a@.skip(i as int).drop_first() =~= a@.skip(i + 1));
            assert(b@.skip(i as int).drop_first() =~= b@.skip(i + 1));
        }
        i = i + 1;
    }
    if i < x.len() {
        TextOrder::After
    } else if i < y.len() {
        TextOrder::Before
    } else {
        TextOrder::Same
    }
}

/// Whether two texts are equal, character for character.
pub fn same_text(a: &str, b: &str) -> (r: bool)
    ensures
        r == (a@ == b@),
{
    proof {
        law_text_order_antisymmetric(a@, b@);
    }
    match order_texts(a, b) {
        TextOrder::Same => true,
        _ => false,
    }
}

// ---------------------------------------------------------------------------
// Laws
// ---------------------------------------------------------------------------

proof fn lemma_char_code_injective(x: char, y: char)
    requires
        x as u32 == y as u32,
    ensures
        x == y,
{
}

proof fn lemma_digit_char(d: nat)
    requires
        d < 10,
    ensures
        digit_char(d) as u32 == d + 48,
        is_digit(digit_char(d)),
        digit_value(digit_char(d)) == d,
        digit_char(d) != '+',
{
    assert(((((d + 48) as u32) as char) as u32) == d + 48);
}

proof fn lemma_decimal_digits(n: nat)
    ensures
        decimal(n).len() > 0,
        all_digits(decimal(n)),
        digits_value(decimal(n)) == n,
        decimal(n)[0] != '+',
    decreases n,
{
    lemma_digit_char(n % 10);
    let d = decimal(n);
    if n >= 10 {
        lemma_decimal_digits(n / 10);
        assert(d.drop_last() =~= decimal(n / 10));
        assert(d.last() == digit_char(n % 10));
        assert(digits_value(d) == digits_value(d.drop_last()) * 10 + digit_value(d.last()));
        assert(n == (n / 10) * 10 + n % 10);
        assert(d[0] == decimal(n / 10)[0]);
        assert forall|i: int| 0 <= i < d.len() implies is_digit(#[trigger] d[i]) by {
            if i < d.len() - 1 {
                assert(d[i] == decimal(n / 10)[i]);
            }
        }
    } else {
        assert(d.drop_last() =~= Seq::<char>::empty());
        assert(digits_value(d) == digits_value(d.drop_last()) * 10 + digit_value(d.last()));
    }
}

/// Reading back the decimal notation of a number gives the number:
/// `str::parse::<u32>` undoes `u32::to_string`.
pub proof fn law_parse_reads_decimal(n: u32)
    ensures
        parsed_u32(decimal(n as nat)) == Some(n),
{
    lemma_decimal_digits(n as nat);
    assert(unsigned_body(decimal(n as nat)) == decimal(n as nat));
}

/// Comparing two texts the other way round gives the flipped outcome, and two
/// texts are in the same place exactly when they are equal.
pub proof fn law_text_order_antisymmetric(a: Seq<char>, b: Seq<char>)
    ensures
        text_order(b, a) == text_order(a, b).flipped(),
        (text_order(a, b) == TextOrder::Same) <==> a == b,
    decreases a.len(),
{
    if a.len() > 0 && b.len() > 0 && (a[0] as u32) == (b[0] as u32) {
        law_text_order_antisymmetric(a.drop_first(), b.drop_first());
        lemma_char_code_injective(a[0], b[0]);
        if a.drop_first() == b.drop_first() {
            assert(a =~= seq![a[0]] + a.drop_first());
            assert(b =~= seq![b[0]] + b.drop_first());
        }
        if a == b {
            assert(a.drop_first() =~= b.drop_first());
        }
    } else if a.len() > 0 && b.len() > 0 {
        if a == b {
            assert(a[0] == b[0]);
        }
    } else if a.len() == 0 && b.len() == 0 {
        assert(a =~= b);
    }
}

/// The order of texts is transitive: a text before (or level with) a second
/// one that is before (or level with) a third is before (or level with) it.
pub proof fn law_text_order_transitive(a: Seq<char>, b: Seq<char>, c: Seq<char>)
    requires
        text_order(a, b) != TextOrder::After,
        text_order(b, c) != TextOrder::After,
    ensures
        text_order(a, c) != TextOrder::After,
        text_order(a, b) == TextOrder::Before || text_order(b, c) == TextOrder::Before
            ==> text_order(a, c) == TextOrder::Before,
    decreases a.len(),
{
    if a.len() > 0 && b.len() > 0 && c.len() > 0 && (a[0] as u32) == (b[0] as u32) && (b[0] as u32)
        == (c[0] as u32) {
        law_text_order_transitive(a.drop_first(), b.drop_first(), c.drop_first());
    }
}

/// Texts are compared at their first differing character: when `c1` comes
/// before `c2`, any text starting `c1` comes before any text starting `c2`,
/// whatever follows and however long either text is.
pub proof fn law_first_difference_decides(c1: char, c2: char, s: Seq<char>, t: Seq<char>)
    requires
        (c1 as u32) < (c2 as u32),
    ensures
        text_order(seq![c1] + s, seq![c2] + t) == TextOrder::Before,
        text_order(seq![c2] + t, seq![c1] + s) == TextOrder::After,
{
    let a = seq![c1] + s;
    let b = seq![c2] + t;
    assert(a[0] == c1 && b[0] == c2);
}

/// A shared beginning does not change the order of two texts.
pub proof fn law_common_prefix_ignored(p: Seq<char>, a: Seq<char>, b: Seq<char>)
    ensures
        text_order(p + a, p + b) == text_order(a, b),
    decreases p.len(),
{
    if p.len() > 0 {
        law_common_prefix_ignored(p.drop_first(), a, b);
        assert((p + a).drop_first() =~= p.drop_first() + a);
        assert((p + b).drop_first() =~= p.drop_first() + b);
        assert((p + a)[0] == p[0] && (p + b)[0] == p[0]);
    } else {
        assert(p + a =~= a);
        assert(p + b =~= b);
    }
}

/// A text comes before every longer text that it begins.
pub proof fn law_proper_prefix_first(a: Seq<char>, t: Seq<char>)
    requires
        t.len() > 0,
    ensures
        text_order(a, a + t) == TextOrder::Before,
        text_order(a + t, a) == TextOrder::After,
{
    law_common_prefix_ignored(a, Seq::<char>::empty(), t);
    law_common_prefix_ignored(a, t, Seq::<char>::empty());
    assert(a + Seq::<char>::empty() =~= a);
}

/// Lexicographic order by code point: after any shared beginning `p`, the
/// first differing characters decide, irrespective of the texts' lengths.
pub proof fn law_text_order_lexicographic(
    p: Seq<char>,
    c1: char,
    c2: char,
    s: Seq<char>,
    t: Seq<char>,
)
    requires
        (c1 as u32) < (c2 as u32),
    ensures
        text_order(p + (seq![c1] + s), p + (seq![c2] + t)) == TextOrder::Before,
{
    law_common_prefix_ignored(p, seq![c1] + s, seq![c2] + t);
    law_first_difference_decides(c1, c2, s, t);
}

/// `k` zero digits.
pub open spec fn zeros(k: nat) -> Seq<char> {
    Seq::new(k, |i: int| '0')
}

proof fn lemma_zeros_then_digits(k: nat, b: Seq<char>)
    ensures
        digits_value(zeros(k) + b) == digits_value(b),
        all_digits(b) ==> all_digits(zeros(k) + b),
    decreases b.len(), k,
{
    lemma_digit_char(0);
    if b.len() == 0 {
        assert(zeros(k) + b =~= zeros(k));
        if k > 0 {
            lemma_zeros_then_digits((k - 1) as nat, b);
            assert(zeros(k).drop_last() =~= zeros((k - 1) as nat));
            assert(zeros((k - 1) as nat) + b =~= zeros((k - 1) as nat));
            assert(zeros(k).last() == '0');
            assert(digit_value('0') == 0);
        }
    } else {
        lemma_zeros_then_digits(k, b.drop_last());
        assert((zeros(k) + b).drop_last() =~= zeros(k) + b.drop_last());
        assert((zeros(k) + b).last() == b.last());
    }
    if all_digits(b) {
        assert forall|i: int| 0 <= i < (zeros(k) + b).len() implies is_digit(#[trigger] (zeros(k) + b)[i]) by {
            if i < k {
                assert((zeros(k) + b)[i] == '0');
            } else {
                assert((zeros(k) + b)[i] == b[i - k]);
            }
        }
    }
}

/// Leading zeros do not change the number read: `str::parse::<u32>` reads
/// `0…0` followed by the decimal notation of `n` as `n`.
pub proof fn law_parse_ignores_leading_zeros(k: nat, n: u32)
    ensures
        parsed_u32(zeros(k) + decimal(n as nat)) == Some(n),
{
    lemma_decimal_digits(n as nat);
    lemma_zeros_then_digits(k, decimal(n as nat));
    let text = zeros(k) + decimal(n as nat);
    if k > 0 {
        assert(text[0] == '0');
    } else {
        assert(text[0] == decimal(n as nat)[0]);
    }
    assert(unsigned_body(text) == text);
}

} // verus!
