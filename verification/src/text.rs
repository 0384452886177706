//! Text handling shared by the modules: comparison, decimal notation, the
//! `Bearer` scheme of an `Authorization` header and the three dot-separated
//! segments of a signed token.

use vstd::prelude::*;
use vstd::string::StrSliceExecFns;
use vstd::string::StringSliceAdditionalSpecFns;
use vstd::string::StringExecFns;

verus! {

/// The text behind an optional reference.
pub open spec fn text_of(text: Option<&str>) -> Option<Seq<char>> {
    match text {
        Some(t) => Some(t@),
        None => None,
    }
}

/// The text behind an optional string.
pub open spec fn opt_text(text: Option<String>) -> Option<Seq<char>> {
    match text {
        Some(t) => Some(t@),
        None => None,
    }
}

/// Number of positions of `s` that hold `c`.
pub open spec fn occurrences(s: Seq<char>, c: char) -> nat
    decreases s.len(),
{
    if s.len() == 0 {
        0
    } else {
        occurrences(s.drop_last(), c) + if s.last() == c {
            1nat
        } else {
            0nat
        }
    }
}

/// Occurrences add up over concatenation.
pub proof fn lemma_occurrences_concat(a: Seq<char>, b: Seq<char>, c: char)
    ensures
        occurrences(a + b, c) == occurrences(a, c) + occurrences(b, c),
    decreases b.len(),
{
    if b.len() == 0 {
        assert(a + b =~= a);
    } else {
        assert((a + b).drop_last() =~= a + b.drop_last());
        assert((a + b).last() == b.last());
        lemma_occurrences_concat(a, b.drop_last(), c);
    }
}

/// A text without `c` is one in which no position holds `c`.
pub proof fn lemma_occurrences_none(s: Seq<char>, c: char)
    ensures
        occurrences(s, c) == 0 <==> forall|i: int| 0 <= i < s.len() ==> s[i] != c,
    decreases s.len(),
{
    if s.len() > 0 {
        lemma_occurrences_none(s.drop_last(), c);
        if occurrences(s, c) == 0 {
            assert forall|i: int| 0 <= i < s.len() implies s[i] != c by {
                if i < s.len() - 1 {
                    assert(s.drop_last()[i] == s[i]);
                }
            }
        } else if s.last() != c {
            let i = choose|i: int| 0 <= i < s.drop_last().len() && s.drop_last()[i] == c;
            assert(s[i] == c);
        }
    }
}

/// Whether two texts are equal, character by character.
pub fn same_text(a: &str, b: &str) -> (same: bool)
    ensures
        same == (a@ == b@),
{
    let left = a.as_bytes();
    let right = b.as_bytes();
    if left.len() != right.len() {
        return false;
    }
    let n = left.len();
    let mut i: usize = 0;
    while i < n
        invariant
            i <= n,
            n == left@.len(),
            n == right@.len(),
            left@ == a.spec_bytes(),
            right@ == b.spec_bytes(),
            forall|k: int| 0 <= k < i ==> left@[k] == right@[k],
        decreases n - i,
    {
        if left[i] != right[i] {
            return false;
        }
        i = i + 1;
    }
    proof {
        assert(left@ =~= right@);
        vstd::utf8::encode_utf8_decode_utf8(a@);
        vstd::utf8::encode_utf8_decode_utf8(b@);
    }
    true
}

/// The character of a decimal digit.
pub open spec fn digit(d: nat) -> char {
    if d == 0 {
        '0'
    } else if d == 1 {
        '1'
    } else if d == 2 {
        '2'
    } else if d == 3 {
        '3'
    } else if d == 4 {
        '4'
    } else if d == 5 {
        '5'
    } else if d == 6 {
        '6'
    } else if d == 7 {
        '7'
    } else if d == 8 {
        '8'
    } else {
        '9'
    }
}

/// The decimal digits of `n`, most significant first, without leading zeros.
pub open spec fn digits(n: nat) -> Seq<char>
    decreases n,
{
    if n < 10 {
        seq![digit(n)]
    } else {
        digits(n / 10).push(digit(n % 10))
    }
}

/// The decimal notation of `n`, with a minus sign before a negative number.
pub open spec fn spec_decimal(n: int) -> Seq<char> {
    if n < 0 {
        seq!['-'] + digits((-n) as nat)
    } else {
        digits(n as nat)
    }
}

fn digit_text(d: u64) -> (text: &'static str)
    requires
        d < 10,
    ensures
        text@ == seq![digit(d as nat)],
{
    proof {
        reveal_strlit("0");
        reveal_strlit("1");
        reveal_strlit("2");
        reveal_strlit("3");
        reveal_strlit("4");
        reveal_strlit("5");
        reveal_strlit("6");
        reveal_strlit("7");
        reveal_strlit("8");
        reveal_strlit("9");
    }
    let text = if d == 0 {
        "0"
    } else if d == 1 {
        "1"
    } else if d == 2 {
        "2"
    } else if d == 3 {
        "3"
    } else if d == 4 {
        "4"
    } else if d == 5 {
        "5"
    } else if d == 6 {
        "6"
    } else if d == 7 {
        "7"
    } else if d == 8 {
        "8"
    } else {
        "9"
    };
    text
}

fn push_digits(out: &mut String, n: u64)
    ensures
        final(out)@ == old(out)@ + digits(n as nat),
    decreases n,
{
    if n >= 10 {
        push_digits(out, n / 10);
    }
    out.append(digit_text(n % 10));
}

/// The decimal notation of a number without sign.
pub fn decimal_unsigned(n: u64) -> (text: String)
    ensures
        text@ == digits(n as nat),
        text@ == spec_decimal(n as int),
{
    let mut out = String::new();
    push_digits(&mut out, n);
    out
}

/// The decimal notation of `n`.
pub fn decimal(n: i64) -> (text: String)
    ensures
        text@ == spec_decimal(n as int),
{
    let mut out = String::new();
    if n < 0 {
        proof {
            reveal_strlit("-");
        }
        out.append("-");
        push_digits(&mut out, (-(n as i128)) as u64);
    } else {
        push_digits(&mut out, n as u64);
    }
    out
}

/// The scheme word of a bearer credential, with the space that follows it.
pub const BEARER_SCHEME: &'static str = "Bearer ";

/// What follows the scheme word when `header` begins with it.
pub open spec fn bearer_credential(header: Seq<char>) -> Option<Seq<char>> {
    if BEARER_SCHEME@.is_prefix_of(header) {
        Some(header.skip(BEARER_SCHEME@.len() as int))
    } else {
        None
    }
}

/// The credential of an `Authorization` header that uses the `Bearer`
/// scheme. A header with a character outside ASCII carries no credential.
pub fn bearer_token(header: &str) -> (token: Option<&str>)
    ensures
        match token {
            Some(t) => header.is_ascii() && bearer_credential(header@) == Some(t@),
            None => !header.is_ascii() || bearer_credential(header@) is None,
        },
{
    if !header.is_ascii() {
        return None;
    }
    proof {
        reveal_strlit("Bearer ");
        vstd::string::is_ascii_spec_bytes(header);
    }
    let length = header.as_bytes().len();
    if length < 7 {
        return None;
    }
    if same_text(header.substring_ascii(0, 7), BEARER_SCHEME) {
        let rest = header.substring_ascii(7, length);
        Some(rest)
    } else {
        None
    }
}

/// The three segments of a signed token, without the dots between them.
pub struct TokenParts<'a> {
    pub header: &'a str,
    pub payload: &'a str,
    pub signature: &'a str,
}

impl<'a> TokenParts<'a> {
    /// The token these segments were cut from.
    pub open spec fn joined(self) -> Seq<char> {
        self.header@ + seq!['.'] + self.payload@ + seq!['.'] + self.signature@
    }

    /// No segment holds a dot.
    pub open spec fn dot_free(self) -> bool {
        &&& occurrences(self.header@, '.') == 0
        &&& occurrences(self.payload@, '.') == 0
        &&& occurrences(self.signature@, '.') == 0
    }
}

/// `at` is the position of the first dot of `s`.
pub open spec fn is_first_dot(s: Seq<char>, at: int) -> bool {
    &&& 0 <= at < s.len()
    &&& s[at] == '.'
    &&& forall|before: int| 0 <= before < at ==> s[before] != '.'
}

/// Position of the first dot of a text that has one.
pub open spec fn first_dot(s: Seq<char>) -> int {
    choose|at: int| is_first_dot(s, at)
}

/// A text has its first dot in one place only.
pub proof fn lemma_first_dot_unique(s: Seq<char>, at: int)
    requires
        is_first_dot(s, at),
    ensures
        first_dot(s) == at,
{
    let chosen = first_dot(s);
    assert(is_first_dot(s, chosen));
    if chosen < at {
        assert(s[chosen] != '.');
    } else if at < chosen {
        assert(s[at] != '.');
    }
}

/// What stands between the first and the second dot of a token.
pub open spec fn spec_payload(token: Seq<char>) -> Seq<char> {
    let rest = token.skip(first_dot(token) + 1);
    rest.take(first_dot(rest))
}

/// A token has the shape of a signed token when it is ASCII and holds exactly
/// two dots.
pub open spec fn well_segmented(token: Seq<char>) -> bool {
    vstd::utf8::is_ascii_chars(token) && occurrences(token, '.') == 2
}

/// A token with dots at `first` and `second` and nowhere else has the three
/// segments that these dots cut it into.
proof fn lemma_cut_at_dots(token: Seq<char>, first: int, second: int)
    requires
        0 <= first < second < token.len(),
        token[first] == '.',
        token[second] == '.',
        occurrences(token.take(first), '.') == 0,
        occurrences(token.subrange(first + 1, second), '.') == 0,
    ensures
        spec_payload(token) == token.subrange(first + 1, second),
        token.take(first) + seq!['.'] + token.subrange(first + 1, second) + seq!['.'] + token.skip(
            second + 1,
        ) == token,
{
    let head = token.take(first);
    let middle = token.subrange(first + 1, second);
    let rest = token.skip(first + 1);
    lemma_occurrences_none(head, '.');
    assert forall|before: int| 0 <= before < first implies token[before] != '.' by {
        assert(head[before] == token[before]);
    }
    lemma_first_dot_unique(token, first);
    lemma_occurrences_none(middle, '.');
    assert forall|before: int| 0 <= before < second - first - 1 implies rest[before] != '.' by {
        assert(middle[before] == rest[before]);
    }
    assert(rest[second - first - 1] == token[second]);
    lemma_first_dot_unique(rest, second - first - 1);
    assert(middle =~= rest.take(second - first - 1));
    assert(head + seq!['.'] + middle + seq!['.'] + token.skip(second + 1) =~= token);
}

/// One more character read: the count of dots so far grows by one at a dot
/// and stays as it is elsewhere.
proof fn lemma_occurrences_step(s: Seq<char>, from: int, to: int)
    requires
        0 <= from <= to < s.len(),
    ensures
        occurrences(s.subrange(from, to + 1), '.') == occurrences(s.subrange(from, to), '.') + (
        if s[to] == '.' {
            1nat
        } else {
            0nat
        }),
{
    let longer = s.subrange(from, to + 1);
    assert(longer.drop_last() =~= s.subrange(from, to));
    assert(longer.last() == s[to]);
}

/// The byte of a dot.
const DOT: u8 = 46;

/// Where the dots of a token are: how many there are, and the places of
/// the first two.
struct Dots {
    count: usize,
    first: usize,
    second: usize,
}

/// Counts the dots of an ASCII token and notes where the first two stand.
fn find_dots(token: &str) -> (dots: Dots)
    requires
        token.is_ascii(),
    ensures
        dots.count == occurrences(token@, '.'),
        dots.count >= 1 ==> dots.first < token@.len() && token@[dots.first as int] == '.'
            && occurrences(token@.take(dots.first as int), '.') == 0,
        dots.count >= 2 ==> dots.first < dots.second < token@.len() && token@[dots.second as int]
            == '.' && occurrences(token@.subrange(dots.first + 1, dots.second as int), '.') == 0,
{
    proof {
        vstd::string::is_ascii_spec_bytes(token);
    }
    let bytes = token.as_bytes();
    let n = bytes.len();
    let mut dots = Dots { count: 0, first: 0, second: 0 };
    let mut i: usize = 0;
    while i < n
        invariant
            i <= n,
            n == token@.len(),
            bytes@ == token.spec_bytes(),
            token.is_ascii(),
            token.spec_bytes() =~= Seq::new(token@.len(), |k: int| token@[k] as u8),
            dots.count == occurrences(token@.subrange(0, i as int), '.'),
            dots.count <= i,
            dots.count >= 1 ==> dots.first < i && token@[dots.first as int] == '.' && occurrences(
                token@.take(dots.first as int),
                '.',
            ) == 0,
            dots.count == 1 ==> occurrences(token@.subrange(dots.first + 1, i as int), '.') == 0,
            dots.count >= 2 ==> dots.first < dots.second < i && token@[dots.second as int] == '.'
                && occurrences(token@.subrange(dots.first + 1, dots.second as int), '.') == 0,
        decreases n - i,
    {
        proof {
            lemma_occurrences_step(token@, 0, i as int);
            if dots.count == 1 {
                lemma_occurrences_step(token@, dots.first + 1, i as int);
            }
        }
        if bytes[i] == DOT {
            if dots.count == 0 {
                dots.first = i;
            } else if dots.count == 1 {
                dots.second = i;
            }
            dots.count = dots.count + 1;
        }
        i = i + 1;
    }
    assert(token@.subrange(0, n as int) =~= token@);
    dots
}

/// Cuts a token at its dots. Anything but three segments gives `None`.
pub fn split_token<'a>(token: &'a str) -> (parts: Option<TokenParts<'a>>)
    ensures
        parts is Some <==> well_segmented(token@),
        parts matches Some(p) ==> p.joined() == token@ && p.dot_free() && p.payload@
            == spec_payload(token@),
{
    if !token.is_ascii() {
        return None;
    }
    let dots = find_dots(token);
    if dots.count != 2 {
        return None;
    }
    proof {
        vstd::string::is_ascii_spec_bytes(token);
    }
    let length = token.as_bytes().len();
    let header = token.substring_ascii(0, dots.first);
    let payload = token.substring_ascii(dots.first + 1, dots.second);
    let signature = token.substring_ascii(dots.second + 1, length);
    proof {
        let first = dots.first as int;
        let second = dots.second as int;
        lemma_cut_at_dots(token@, first, second);
        lemma_occurrences_concat(
            token@.take(first) + seq!['.'] + token@.subrange(first + 1, second) + seq!['.'],
            token@.skip(second + 1),
            '.',
        );
        lemma_occurrences_concat(
            token@.take(first) + seq!['.'] + token@.subrange(first + 1, second),
            seq!['.'],
            '.',
        );
        lemma_occurrences_concat(
            token@.take(first) + seq!['.'],
            token@.subrange(first + 1, second),
            '.',
        );
        lemma_occurrences_concat(token@.take(first), seq!['.'], '.');
    }
    Some(TokenParts { header, payload, signature })
}

} // verus!
