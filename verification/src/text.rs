//! Text primitives: equality, Unicode trimming, decimal rendering and UTF-8 decoding.

use vstd::prelude::*;
use vstd::string::*;
use vstd::utf8::*;

verus! {

/// The code points that carry the Unicode `White_Space` property.
pub open spec fn is_white(c: char) -> bool {
    let v = c as u32;
    ||| 0x9 <= v <= 0xd
    ||| v == 0x20
    ||| v == 0x85
    ||| v == 0xa0
    ||| v == 0x1680
    ||| 0x2000 <= v <= 0x200a
    ||| v == 0x2028
    ||| v == 0x2029
    ||| v == 0x202f
    ||| v == 0x205f
    ||| v == 0x3000
}

/// `s` without its leading and trailing white space.
pub open spec fn trimmed(s: Seq<char>) -> Seq<char>
    decreases s.len(),
{
    if s.len() > 0 && is_white(s[0]) {
        trimmed(s.drop_first())
    } else if s.len() > 0 && is_white(s.last()) {
        trimmed(s.drop_last())
    } else {
        s
    }
}

/// Nothing but white space, or nothing at all.
pub open spec fn blank(s: Seq<char>) -> bool {
    trimmed(s).len() == 0
}

/// A range that starts and ends at visible characters, with white space all around it, is what
/// trimming leaves.
proof fn lemma_trimmed_range(s: Seq<char>, start: int, end: int)
    requires
        0 <= start <= end <= s.len(),
        forall|i: int| 0 <= i < start ==> is_white(#[trigger] s[i]),
        forall|i: int| end <= i < s.len() ==> is_white(#[trigger] s[i]),
        start < end ==> !is_white(s[start]) && !is_white(s[end - 1]),
    ensures
        trimmed(s) == s.subrange(start, end),
    decreases s.len(),
{
    if s.len() == 0 {
        assert(s.subrange(start, end) =~= s);
    } else if start > 0 {
        let rest = s.drop_first();
        lemma_trimmed_range(rest, start - 1, end - 1);
        assert(rest.subrange(start - 1, end - 1) =~= s.subrange(start, end));
    } else if start == end {
        let rest = s.drop_first();
        assert(is_white(s[0]));
        lemma_trimmed_range(rest, 0, 0);
        assert(rest.subrange(0, 0) =~= s.subrange(start, end));
    } else if end < s.len() {
        let rest = s.drop_last();
        lemma_trimmed_range(rest, start, end);
        assert(rest.subrange(start, end) =~= s.subrange(start, end));
    } else {
        assert(s.subrange(start, end) =~= s);
    }
}

/// A text is blank exactly when each of its characters is white space.
pub proof fn law_blank_text_is_all_white(s: Seq<char>)
    ensures
        blank(s) <==> (forall|i: int| 0 <= i < s.len() ==> is_white(#[trigger] s[i])),
    decreases s.len(),
{
    if s.len() > 0 && is_white(s[0]) {
        let rest = s.drop_first();
        law_blank_text_is_all_white(rest);
        if blank(rest) {
            assert forall|i: int| 0 <= i < s.len() implies is_white(#[trigger] s[i]) by {
                if i > 0 {
                    assert(s[i] == rest[i - 1]);
                }
            }
        }
        if forall|i: int| 0 <= i < s.len() ==> is_white(#[trigger] s[i]) {
            assert forall|i: int| 0 <= i < rest.len() implies is_white(#[trigger] rest[i]) by {
                assert(rest[i] == s[i + 1]);
            }
        }
    } else if s.len() > 0 && is_white(s.last()) {
        lemma_trimmed_keeps(s.drop_last());
    }
}

/// Trimming a text that starts with a visible character leaves something.
proof fn lemma_trimmed_keeps(s: Seq<char>)
    requires
        s.len() > 0,
        !is_white(s[0]),
    ensures
        trimmed(s).len() > 0,
    decreases s.len(),
{
    if is_white(s.last()) {
        lemma_trimmed_keeps(s.drop_last());
    }
}

/// Whether a range of a text starts and ends at visible characters, if it holds any, with nothing
/// but white space around it.
pub open spec fn is_visible_middle(s: Seq<char>, start: int, end: int) -> bool {
    &&& 0 <= start <= end <= s.len()
    &&& forall|i: int| 0 <= i < start ==> is_white(#[trigger] s[i])
    &&& forall|i: int| end <= i < s.len() ==> is_white(#[trigger] s[i])
    &&& start < end ==> !is_white(s[start]) && !is_white(s[end - 1])
}

/// Trimming leaves what stands between the white space on either side, and all of it.
pub proof fn law_trimming_leaves_the_visible_middle(s: Seq<char>)
    ensures
        exists|start: int, end: int| #[trigger]
            is_visible_middle(s, start, end) && trimmed(s) == s.subrange(start, end),
    decreases s.len(),
{
    if s.len() > 0 && is_white(s[0]) {
        let rest = s.drop_first();
        law_trimming_leaves_the_visible_middle(rest);
        let (start, end) = choose|start: int, end: int| #[trigger]
            is_visible_middle(rest, start, end) && trimmed(rest) == rest.subrange(start, end);
        assert forall|i: int| 0 <= i < start + 1 implies is_white(#[trigger] s[i]) by {
            if i > 0 {
                assert(s[i] == rest[i - 1]);
            }
        }
        assert forall|i: int| end + 1 <= i < s.len() implies is_white(#[trigger] s[i]) by {
            assert(s[i] == rest[i - 1]);
        }
        assert(rest.subrange(start, end) =~= s.subrange(start + 1, end + 1));
        assert(is_visible_middle(s, start + 1, end + 1));
    } else if s.len() > 0 && is_white(s.last()) {
        let rest = s.drop_last();
        law_trimming_leaves_the_visible_middle(rest);
        let (start, end) = choose|start: int, end: int| #[trigger]
            is_visible_middle(rest, start, end) && trimmed(rest) == rest.subrange(start, end);
        assert forall|i: int| 0 <= i < start implies is_white(#[trigger] s[i]) by {
            assert(s[i] == rest[i]);
        }
        assert forall|i: int| end <= i < s.len() implies is_white(#[trigger] s[i]) by {
            if i < s.len() - 1 {
                assert(s[i] == rest[i]);
            }
        }
        assert(rest.subrange(start, end) =~= s.subrange(start, end));
        assert(is_visible_middle(s, start, end));
    } else {
        assert(s.subrange(0, s.len() as int) =~= s);
        assert(is_visible_middle(s, 0, s.len() as int));
    }
}

/// White space is what Unicode says it is: among the ASCII characters the space and the five from
/// the tab to the carriage return, and nothing that is a letter, a digit or a mark.
pub proof fn law_white_space_is_unicode_white_space(c: char)
    ensures
        c as u32 <= 0x7f ==> (is_white(c) <==> c == ' ' || 9 <= c as u32 <= 13),
        0x80 <= c as u32 <= 0xff ==> (is_white(c) <==> c as u32 == 0x85 || c as u32 == 0xa0),
        c as u32 >= 0x100 ==> (is_white(c) <==> c as u32 == 0x1680 || 0x2000 <= c as u32 <= 0x200a
            || c as u32 == 0x2028 || c as u32 == 0x2029 || c as u32 == 0x202f || c as u32 == 0x205f
            || c as u32 == 0x3000),
{
}

/// The number that decimal digits denote.
pub open spec fn number_of(digits: Seq<char>) -> nat
    decreases digits.len(),
{
    if digits.len() == 0 {
        0
    } else {
        10 * number_of(digits.drop_last()) + (digits.last() as nat - '0' as nat) as nat
    }
}

/// The decimal form of a number denotes it, is made of digits alone, and has no leading zeros.
pub proof fn law_decimal_form_denotes_its_number(n: nat)
    ensures
        number_of(decimal(n)) == n,
        forall|i: int| 0 <= i < decimal(n).len() ==> '0' <= #[trigger] decimal(n)[i] <= '9',
        decimal(n).len() > 0,
        n > 0 ==> decimal(n)[0] != '0',
        n == 0 ==> decimal(n) == seq!['0'],
    decreases n,
{
    reveal_with_fuel(number_of, 2);
    let last = digit(n % 10);
    assert(last as nat == 48 + n % 10);
    if n >= 10 {
        law_decimal_form_denotes_its_number(n / 10);
        let head = decimal(n / 10);
        assert(decimal(n) == head.push(last));
        assert(head.push(last).drop_last() =~= head);
        assert forall|i: int| 0 <= i < decimal(n).len() implies '0' <= #[trigger] decimal(n)[i]
            <= '9' by {
            if i < head.len() {
                assert(decimal(n)[i] == head[i]);
            }
        }
        assert(decimal(n)[0] == head[0]);
    } else {
        assert(decimal(n).drop_last() =~= Seq::empty());
    }
}

/// The part before a mark is where the text begins, holds no mark, and ends at the first one or with
/// the text.
pub proof fn law_part_before_mark_ends_at_mark(s: Seq<char>, mark: char)
    ensures
        head_before(s, mark).len() <= s.len(),
        head_before(s, mark) == s.take(head_before(s, mark).len() as int),
        forall|i: int|
            0 <= i < head_before(s, mark).len() ==> #[trigger] head_before(s, mark)[i] != mark,
        head_before(s, mark).len() < s.len() ==> s[head_before(s, mark).len() as int] == mark,
    decreases s.len(),
{
    if s.len() > 0 && s[0] != mark {
        let rest = s.drop_first();
        law_part_before_mark_ends_at_mark(rest, mark);
        let head = head_before(rest, mark);
        assert(head_before(s, mark) =~= s.take(head.len() as int + 1));
        assert forall|i: int| 0 <= i < head_before(s, mark).len() implies #[trigger] head_before(
            s,
            mark,
        )[i] != mark by {
            if i > 0 {
                assert(head_before(s, mark)[i] == head[i - 1]);
            }
        }
    } else {
        assert(s.take(0) =~= Seq::empty());
    }
}

/// Whether a text holds a character that is not white space.
pub open spec fn says_something(text: Seq<char>) -> bool {
    exists|i: int| 0 <= i < text.len() && !is_white(#[trigger] text[i])
}

/// A text is blank exactly if it says nothing.
pub proof fn law_blank_text_says_nothing(text: Seq<char>)
    ensures
        says_something(text) <==> !blank(text),
{
    law_blank_text_is_all_white(text);
}

/// Trimming twice is trimming once.
pub proof fn lemma_trimmed_idempotent(s: Seq<char>)
    ensures
        trimmed(trimmed(s)) == trimmed(s),
    decreases s.len(),
{
    if s.len() > 0 && is_white(s[0]) {
        lemma_trimmed_idempotent(s.drop_first());
    } else if s.len() > 0 && is_white(s.last()) {
        lemma_trimmed_idempotent(s.drop_last());
    }
}

/// Whether `c` is white space.
pub fn is_white_char(c: char) -> (r: bool)
    ensures
        r == is_white(c),
{
    let v: u32 = c as u32;
    (0x9 <= v && v <= 0xd) || v == 0x20 || v == 0x85 || v == 0xa0 || v == 0x1680 || (0x2000 <= v
        && v <= 0x200a) || v == 0x2028 || v == 0x2029 || v == 0x202f || v == 0x205f || v == 0x3000
}

/// The text without leading and trailing white space.
pub fn trim(s: &str) -> (r: &str)
    ensures
        r@ == trimmed(s@),
{
    let mut start: usize = 0;
    let mut end: usize = 0;
    let mut at: usize = 0;
    let total: usize = s.unicode_len();
    for c in it: s.chars()
        invariant
            at == it.index(),
            it.seq() == s@,
            total == s@.len(),
            start <= end <= at || (start == at && end == 0),
            end == 0 ==> start == at,
            end > 0 ==> start < end,
            forall|i: int| 0 <= i < start ==> is_white(#[trigger] s@[i]),
            forall|i: int| end <= i < at && start < end ==> is_white(#[trigger] s@[i]),
            start < end ==> !is_white(s@[start as int]) && !is_white(s@[end - 1]),
    {
        if is_white_char(c) {
            if end == 0 {
                start = at + 1;
            }
        } else {
            end = at + 1;
        }
        at = at + 1;
    }
    if end == 0 {
        end = start;
    }
    proof {
        lemma_trimmed_range(s@, start as int, end as int);
    }
    s.substring_char(start, end)
}

/// Whether trimming leaves nothing.
pub fn is_blank(s: &str) -> (r: bool)
    ensures
        r == blank(s@),
{
    trim(s).is_empty()
}

/// Whether two texts hold the same characters.
pub fn same_text(a: &str, b: &str) -> (r: bool)
    ensures
        r == (a@ == b@),
{
    let x = a.as_bytes();
    let y = b.as_bytes();
    proof {
        encode_utf8_decode_utf8(a@);
        encode_utf8_decode_utf8(b@);
    }
    if x.len() != y.len() {
        return false;
    }
    let mut i: usize = 0;
    while i < x.len()
        invariant
            i <= x.len(),
            x.len() == y.len(),
            x@ == encode_utf8(a@),
            y@ == encode_utf8(b@),
            forall|j: int| 0 <= j < i ==> x@[j] == y@[j],
        decreases x.len() - i,
    {
        if x[i] != y[i] {
            return false;
        }
        i = i + 1;
    }
    assert(x@ =~= y@);
    true
}

/// The characters of an optional text.
pub open spec fn opt_view(text: Option<String>) -> Option<Seq<char>> {
    match text {
        Some(s) => Some(s@),
        None => None,
    }
}

/// An optional text is seen as what it is.
pub proof fn law_optional_text_is_seen_as_it_is(text: Option<String>)
    ensures
        opt_view(text) is Some <==> text is Some,
        text matches Some(s) ==> opt_view(text) == Some(s@),
{
}

/// A copy of an optional text.
pub fn copy_text(text: &Option<String>) -> (r: Option<String>)
    ensures
        r == *text,
{
    match text {
        Some(s) => Some(s.clone()),
        None => None,
    }
}

/// The part of `s` before the first `mark`; all of it where there is none.
pub open spec fn head_before(s: Seq<char>, mark: char) -> Seq<char>
    decreases s.len(),
{
    if s.len() == 0 || s[0] == mark {
        Seq::empty()
    } else {
        seq![s[0]] + head_before(s.drop_first(), mark)
    }
}

proof fn lemma_head_before(s: Seq<char>, mark: char, n: int)
    requires
        0 <= n <= s.len(),
        forall|i: int| 0 <= i < n ==> s[i] != mark,
        n == s.len() || s[n] == mark,
    ensures
        head_before(s, mark) == s.take(n),
    decreases s.len(),
{
    if n > 0 {
        let rest = s.drop_first();
        lemma_head_before(rest, mark, n - 1);
        assert(s.take(n) =~= seq![s[0]] + rest.take(n - 1));
    } else {
        assert(s.take(0) =~= Seq::empty());
    }
}

/// The part of `s` before the first `mark`; all of it where there is none.
pub fn text_before(s: &str, mark: char) -> (r: String)
    ensures
        r@ == head_before(s@, mark),
{
    let total: usize = s.unicode_len();
    let mut end: usize = 0;
    let mut found = false;
    for c in it: s.chars()
        invariant
            it.seq() == s@,
            total == s@.len(),
            !found ==> end == it.index(),
            end <= it.index(),
            forall|i: int| 0 <= i < end ==> s@[i] != mark,
            found ==> end < s@.len() && s@[end as int] == mark,
    {
        if !found {
            if c == mark {
                found = true;
            } else {
                end = end + 1;
            }
        }
    }
    proof {
        lemma_head_before(s@, mark, end as int);
    }
    s.substring_char(0, end).to_string()
}

/// The number of UTF-8 bytes that encode `s`.
pub fn byte_len(s: &str) -> (r: usize)
    ensures
        r == encode_utf8(s@).len(),
{
    s.as_bytes().len()
}

/// The decimal digits of `n`, most significant first, without leading zeros.
pub open spec fn decimal(n: nat) -> Seq<char>
    decreases n,
{
    if n < 10 {
        seq![digit(n)]
    } else {
        decimal(n / 10).push(digit(n % 10))
    }
}

/// The character of a decimal digit.
pub open spec fn digit(d: nat) -> char {
    (48 + d) as char
}

/// `n` in decimal.
pub fn to_decimal(n: u64) -> (r: String)
    ensures
        r@ == decimal(n as nat),
    decreases n,
{
    let d: u64 = n % 10;
    let last = if d == 0 {
        "0"
    } else if d == 1 {
        "1"
    } else if d == 2 {
        "2"
    } else if d == 3 {
        "3"
    } else if d == 4 {
        "4"
    } else if d == 5 {
        "5"
    } else if d == 6 {
        "6"
    } else if d == 7 {
        "7"
    } else if d == 8 {
        "8"
    } else {
        "9"
    };
    proof {
        reveal_strlit("0");
        reveal_strlit("1");
        reveal_strlit("2");
        reveal_strlit("3");
        reveal_strlit("4");
        reveal_strlit("5");
        reveal_strlit("6");
        reveal_strlit("7");
        reveal_strlit("8");
        reveal_strlit("9");
        assert(last@ =~= seq![digit(d as nat)]);
    }
    if n < 10 {
        last.to_string()
    } else {
        let mut text = to_decimal(n / 10);
        text.append(last);
        assert(text@ =~= decimal(n as nat));
        text
    }
}

/// The text of the error that `String::from_utf8` gives for bytes that are not UTF-8.
pub uninterp spec fn utf8_error_text(bytes: Seq<u8>) -> Seq<char>;

/// `String::from_utf8`, with its error rendered through `Display`.
///
/// It succeeds exactly on valid UTF-8, and the text then encodes to the given bytes. What the
/// error says of invalid bytes is named, not described.
#[verifier::external_body]
pub(crate) fn string_from_utf8(bytes: Vec<u8>) -> (r: Result<String, String>)
    ensures
        r is Ok <==> valid_utf8(bytes@),
        r matches Ok(s) ==> s@ == decode_utf8(bytes@),
        r matches Err(e) ==> e@ == utf8_error_text(bytes@),
{
    String::from_utf8(bytes).map_err(|err| err.to_string())
}

} // verus!
