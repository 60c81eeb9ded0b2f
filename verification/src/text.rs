//! Text: characters, words, and the small searches the other modules share.
use vstd::prelude::*;
use vstd::utf8::{decode_utf8, encode_utf8, is_char_boundary};

verus! {

/// Two texts are the same when they hold the same characters.
pub fn same_text(a: &str, b: &str) -> (same: bool)
    ensures
        same == (a@ == b@),
{
    let x: &[u8] = a.as_bytes();
    let y: &[u8] = b.as_bytes();
    proof {
        vstd::utf8::encode_utf8_decode_utf8(a@);
        vstd::utf8::encode_utf8_decode_utf8(b@);
        assert(x@ == encode_utf8(a@));
        assert(y@ == encode_utf8(b@));
    }
    if x.len() != y.len() {
        return false;
    }
    let mut i: usize = 0;
    while i < x.len()
        invariant
            i <= x@.len(),
            x@.len() == y@.len(),
            x@ == encode_utf8(a@),
            y@ == encode_utf8(b@),
            forall|k: int| 0 <= k < i ==> x@[k] == y@[k],
        decreases x@.len() - i,
    {
        if x[i] != y[i] {
            return false;
        }
        i = i + 1;
    }
    proof {
        assert(x@ =~= y@);
    }
    true
}

/// The characters of a text.
pub fn chars_of(text: &str) -> (chars: Vec<char>)
    ensures
        chars@ == text@,
{
    let mut chars: Vec<char> = Vec::new();
    for c in it: text.chars()
        invariant
            it.seq() == text@,
            chars@ == text@.take(it.index() as int),
    {
        chars.push(c);
        proof {
            assert(text@.take(it.index() + 1) =~= text@.take(it.index() as int).push(c));
        }
    }
    proof {
        assert(text@.take(text@.len() as int) =~= text@);
    }
    chars
}

// ---------------------------------------------------------------------------
// White space and words
// ---------------------------------------------------------------------------

/// The Unicode property `White_Space`.
pub open spec fn is_white(c: char) -> bool {
    ||| 0x9 <= c as u32 <= 0xd
    ||| c as u32 == 0x20
    ||| c as u32 == 0x85
    ||| c as u32 == 0xa0
    ||| c as u32 == 0x1680
    ||| 0x2000 <= c as u32 <= 0x200a
    ||| 0x2028 <= c as u32 <= 0x2029
    ||| c as u32 == 0x202f
    ||| c as u32 == 0x205f
    ||| c as u32 == 0x3000
}

/// Whether a character is white space.
pub fn white(c: char) -> (is: bool)
    ensures
        is == is_white(c),
{
    let u: u32 = c as u32;
    (0x9 <= u && u <= 0xd) || u == 0x20 || u == 0x85 || u == 0xa0 || u == 0x1680 || (0x2000 <= u
        && u <= 0x200a) || (0x2028 <= u && u <= 0x2029) || u == 0x202f || u == 0x205f || u == 0x3000
}

/// The characters from `i` up to `j` are a word: they are one or more, none is
/// white space, and neither neighbour belongs to it.
pub open spec fn word_at(text: Seq<char>, i: int, j: int) -> bool {
    &&& 0 <= i < j <= text.len()
    &&& forall|k: int| i <= k < j ==> !is_white(#[trigger] text[k])
    &&& i == 0 || is_white(text[i - 1])
    &&& j == text.len() || is_white(text[j])
}

/// `word` is one of the words of `text`.
pub open spec fn has_word(text: Seq<char>, word: Seq<char>) -> bool {
    exists|i: int, j: int| #[trigger] word_at(text, i, j) && text.subrange(i, j) == word
}

/// Some word of `text` starts with `prefix`.
pub open spec fn has_word_with_prefix(text: Seq<char>, prefix: Seq<char>) -> bool {
    exists|i: int, j: int| #[trigger]
        word_at(text, i, j) && prefix.is_prefix_of(text.subrange(i, j))
}

/// The first word at or after `from`; both ends are the length where there is
/// none.
fn next_word(chars: &Vec<char>, from: usize) -> (bounds: (usize, usize))
    requires
        from <= chars@.len(),
        from == 0 || from == chars@.len() || is_white(chars@[from as int]),
    ensures
        from <= bounds.0 <= bounds.1 <= chars@.len(),
        forall|k: int| from <= k < bounds.0 ==> is_white(#[trigger] chars@[k]),
        bounds.0 < bounds.1 ==> word_at(chars@, bounds.0 as int, bounds.1 as int),
        bounds.0 == bounds.1 ==> bounds.0 == chars@.len(),
        bounds.1 == chars@.len() || is_white(chars@[bounds.1 as int]),
{
    let mut a: usize = from;
    while a < chars.len() && white(chars[a])
        invariant
            from <= a <= chars@.len(),
            forall|k: int| from <= k < a ==> is_white(#[trigger] chars@[k]),
        decreases chars@.len() - a,
    {
        a = a + 1;
    }
    let mut b: usize = a;
    while b < chars.len() && !white(chars[b])
        invariant
            a <= b <= chars@.len(),
            forall|k: int| a <= k < b ==> !is_white(#[trigger] chars@[k]),
        decreases chars@.len() - b,
    {
        b = b + 1;
    }
    proof {
        if a > from {
            assert(is_white(chars@[a - 1]));
        }
    }
    (a, b)
}

/// Past a word that has been looked at, every word seen so far is that word or
/// an earlier one.
proof fn lemma_word_start(text: Seq<char>, from: int, a: int, b: int, i: int, j: int)
    requires
        0 <= from <= a < b <= text.len(),
        forall|k: int| from <= k < a ==> is_white(#[trigger] text[k]),
        word_at(text, a, b),
        word_at(text, i, j),
        from <= i < b,
    ensures
        i == a,
        j == b,
{
    if i < a {
        assert(is_white(text[i]));
    }
    if i > a {
        assert(!is_white(text[i - 1]));
    }
    if j < b {
        assert(!is_white(text[j]));
    }
    if b < j {
        assert(!is_white(text[b]));
    }
}

/// Whether `word` is one of the words of `text`.
pub fn contains_word(text: &str, word: &str) -> (found: bool)
    ensures
        found == has_word(text@, word@),
{
    let chars: Vec<char> = chars_of(text);
    let mut from: usize = 0;
    while from < chars.len()
        invariant
            chars@ == text@,
            from <= chars@.len(),
            from == 0 || from == chars@.len() || is_white(chars@[from as int]),
            forall|i: int, j: int| #[trigger]
                word_at(text@, i, j) && i < from ==> text@.subrange(i, j) != word@,
        decreases chars@.len() - from,
    {
        let (a, b) = next_word(&chars, from);
        if a == b {
            proof {
                assert forall|i: int, j: int| #[trigger] word_at(text@, i, j) implies text@.subrange(
                    i,
                    j,
                ) != word@ by {
                    if i >= from {
                        assert(is_white(chars@[i]));
                    }
                }
            }
            return false;
        }
        if same_text(text.substring_char(a, b), word) {
            return true;
        }
        proof {
            assert forall|i: int, j: int| #[trigger] word_at(text@, i, j) && i < b implies text@.subrange(
                i,
                j,
            ) != word@ by {
                if i >= from {
                    lemma_word_start(text@, from as int, a as int, b as int, i, j);
                }
            }
        }
        from = b;
    }
    false
}

/// Whether `text` starts with `prefix`.
pub fn starts_with(text: &str, prefix: &str) -> (starts: bool)
    ensures
        starts == prefix@.is_prefix_of(text@),
{
    let n: usize = prefix.unicode_len();
    if text.unicode_len() < n {
        return false;
    }
    let same: bool = same_text(text.substring_char(0, n), prefix);
    proof {
        assert(text@.subrange(0, n as int) =~= text@.take(n as int));
        if same {
            assert(prefix@ =~= text@.subrange(0, prefix@.len() as int));
        }
    }
    same
}

/// Whether some word of `text` starts with `prefix`.
pub fn contains_word_with_prefix(text: &str, prefix: &str) -> (found: bool)
    ensures
        found == has_word_with_prefix(text@, prefix@),
{
    let chars: Vec<char> = chars_of(text);
    let mut from: usize = 0;
    while from < chars.len()
        invariant
            chars@ == text@,
            from <= chars@.len(),
            from == 0 || from == chars@.len() || is_white(chars@[from as int]),
            forall|i: int, j: int| #[trigger]
                word_at(text@, i, j) && i < from ==> !prefix@.is_prefix_of(text@.subrange(i, j)),
        decreases chars@.len() - from,
    {
        let (a, b) = next_word(&chars, from);
        if a == b {
            proof {
                assert forall|i: int, j: int| #[trigger]
                    word_at(text@, i, j) implies !prefix@.is_prefix_of(text@.subrange(i, j)) by {
                    if i >= from {
                        assert(is_white(chars@[i]));
                    }
                }
            }
            return false;
        }
        if starts_with(text.substring_char(a, b), prefix) {
            return true;
        }
        proof {
            assert forall|i: int, j: int| #[trigger]
                word_at(text@, i, j) && i < b implies !prefix@.is_prefix_of(
                text@.subrange(i, j),
            ) by {
                if i >= from {
                    lemma_word_start(text@, from as int, a as int, b as int, i, j);
                }
            }
        }
        from = b;
    }
    false
}

/// A text without the white space before its first other character.
pub open spec fn trim_start(text: Seq<char>) -> Seq<char>
    decreases text.len(),
{
    if text.len() > 0 && is_white(text[0]) {
        trim_start(text.skip(1))
    } else {
        text
    }
}

/// A text without the white space after its last other character.
pub open spec fn trim_end(text: Seq<char>) -> Seq<char>
    decreases text.len(),
{
    if text.len() > 0 && is_white(text.last()) {
        trim_end(text.drop_last())
    } else {
        text
    }
}

/// A text without white space at either end.
pub open spec fn trim(text: Seq<char>) -> Seq<char> {
    trim_end(trim_start(text))
}

/// A text without white space at either end.
pub fn trimmed(text: &str) -> (kept: &str)
    ensures
        kept@ == trim(text@),
{
    let chars: Vec<char> = chars_of(text);
    let mut a: usize = 0;
    proof {
        assert(text@.skip(0) =~= text@);
    }
    while a < chars.len() && white(chars[a])
        invariant
            chars@ == text@,
            a <= chars@.len(),
            trim_start(text@) == trim_start(text@.skip(a as int)),
        decreases chars@.len() - a,
    {
        proof {
            assert(text@.skip(a as int).skip(1) =~= text@.skip(a + 1));
        }
        a = a + 1;
    }
    let mut b: usize = chars.len();
    proof {
        assert(text@.subrange(a as int, b as int) =~= text@.skip(a as int));
    }
    while a < b && white(chars[b - 1])
        invariant
            chars@ == text@,
            a <= b <= chars@.len(),
            trim(text@) == trim_end(text@.subrange(a as int, b as int)),
        decreases b,
    {
        proof {
            assert(text@.subrange(a as int, b as int).drop_last() =~= text@.subrange(
                a as int,
                b - 1,
            ));
        }
        b = b - 1;
    }
    text.substring_char(a, b)
}

// ---------------------------------------------------------------------------
// Searching and cutting
// ---------------------------------------------------------------------------

/// The first place at or after `from` where `pattern` stands in `text`.
pub open spec fn find_from(text: Seq<char>, pattern: Seq<char>, from: int) -> Option<int>
    decreases text.len() - from + 1,
{
    if from < 0 || from + pattern.len() > text.len() {
        None
    } else if text.subrange(from, from + pattern.len()) == pattern {
        Some(from)
    } else {
        find_from(text, pattern, from + 1)
    }
}

/// The part of `text` before the first `pattern`; all of it where there is none.
pub open spec fn before(text: Seq<char>, pattern: Seq<char>) -> Seq<char> {
    match find_from(text, pattern, 0) {
        Some(i) => text.take(i),
        None => text,
    }
}

/// The part of `text` after the first `pattern`.
pub open spec fn after(text: Seq<char>, pattern: Seq<char>) -> Option<Seq<char>> {
    match find_from(text, pattern, 0) {
        Some(i) => Some(text.skip(i + pattern.len())),
        None => None,
    }
}

/// The first place where `pattern` stands in `text`, counted in characters.
fn find(text: &str, pattern: &str) -> (place: Option<usize>)
    ensures
        match place {
            Some(i) => find_from(text@, pattern@, 0) == Some(i as int) && i + pattern@.len()
                <= text@.len(),
            None => find_from(text@, pattern@, 0) is None,
        },
{
    let n: usize = text.unicode_len();
    let m: usize = pattern.unicode_len();
    if m > n {
        return None;
    }
    let mut i: usize = 0;
    loop
        invariant
            n == text@.len(),
            m == pattern@.len(),
            m <= n,
            i <= n - m,
            find_from(text@, pattern@, 0) == find_from(text@, pattern@, i as int),
        decreases n - i,
    {
        if same_text(text.substring_char(i, i + m), pattern) {
            return Some(i);
        }
        if i == n - m {
            proof {
                assert(find_from(text@, pattern@, i + 1) is None);
            }
            return None;
        }
        i = i + 1;
    }
}

/// The part of `text` before the first `pattern`; all of it where there is none.
pub fn cut_before<'a>(text: &'a str, pattern: &str) -> (part: &'a str)
    ensures
        part@ == before(text@, pattern@),
{
    match find(text, pattern) {
        Some(i) => {
            proof {
                assert(text@.subrange(0, i as int) =~= text@.take(i as int));
            }
            text.substring_char(0, i)
        },
        None => text,
    }
}

/// The part of `text` after the first `pattern`.
pub fn cut_after<'a>(text: &'a str, pattern: &str) -> (part: Option<&'a str>)
    ensures
        match part {
            Some(rest) => after(text@, pattern@) == Some(rest@),
            None => after(text@, pattern@) is None,
        },
{
    match find(text, pattern) {
        Some(i) => {
            let n: usize = text.unicode_len();
            let start: usize = i + pattern.unicode_len();
            proof {
                assert(text@.subrange(start as int, n as int) =~= text@.skip(start as int));
            }
            Some(text.substring_char(start, n))
        },
        None => None,
    }
}

/// A text without the slashes at its end.
pub open spec fn trim_end_slashes(text: Seq<char>) -> Seq<char>
    decreases text.len(),
{
    if text.len() > 0 && text.last() == '/' {
        trim_end_slashes(text.drop_last())
    } else {
        text
    }
}

/// A text without the slashes at its end.
pub fn without_end_slashes(text: &str) -> (kept: &str)
    ensures
        kept@ == trim_end_slashes(text@),
{
    let mut n: usize = text.unicode_len();
    proof {
        assert(text@.subrange(0, n as int) =~= text@);
    }
    while n > 0 && text.get_char(n - 1) == '/'
        invariant
            n <= text@.len(),
            trim_end_slashes(text@) == trim_end_slashes(text@.subrange(0, n as int)),
        decreases n,
    {
        proof {
            assert(text@.subrange(0, n as int).drop_last() =~= text@.subrange(0, n - 1));
        }
        n = n - 1;
    }
    text.substring_char(0, n)
}

/// The place of the last slash, and -1 where there is none.
pub open spec fn last_slash(text: Seq<char>) -> int
    decreases text.len(),
{
    if text.len() == 0 {
        -1
    } else if text.last() == '/' {
        text.len() - 1
    } else {
        last_slash(text.drop_last())
    }
}

/// The last two of the segments that slashes part a text into, with the slash
/// between them; nothing where there are fewer.
pub open spec fn last_two_segments(text: Seq<char>) -> Seq<char> {
    let k = last_slash(text);
    if k < 0 {
        Seq::empty()
    } else {
        text.skip(last_slash(text.take(k)) + 1)
    }
}

/// The place after the last slash before `end`, and 0 where there is none.
fn segment_start(chars: &Vec<char>, end: usize) -> (start: usize)
    requires
        end <= chars@.len(),
    ensures
        start == last_slash(chars@.take(end as int)) + 1,
        start <= end,
{
    let mut i: usize = end;
    while i > 0 && chars[i - 1] != '/'
        invariant
            i <= end <= chars@.len(),
            last_slash(chars@.take(end as int)) == last_slash(chars@.take(i as int)),
        decreases i,
    {
        proof {
            assert(chars@.take(i as int).drop_last() =~= chars@.take(i - 1));
        }
        i = i - 1;
    }
    i
}

/// The last two of the segments that slashes part a text into.
pub fn cut_last_two_segments(text: &str) -> (part: &str)
    ensures
        part@ == last_two_segments(text@),
{
    let chars: Vec<char> = chars_of(text);
    let n: usize = chars.len();
    proof {
        assert(text@.take(n as int) =~= text@);
    }
    let last: usize = segment_start(&chars, n);
    if last == 0 {
        proof {
            assert(text@.subrange(0, 0) =~= Seq::empty());
        }
        return text.substring_char(0, 0);
    }
    let start: usize = segment_start(&chars, last - 1);
    proof {
        assert(text@.subrange(start as int, n as int) =~= text@.skip(start as int));
    }
    text.substring_char(start, n)
}

/// Texts put together with `separator` between them.
pub open spec fn join(parts: Seq<Seq<char>>, separator: Seq<char>) -> Seq<char>
    decreases parts.len(),
{
    if parts.len() == 0 {
        Seq::empty()
    } else if parts.len() == 1 {
        parts[0]
    } else {
        join(parts.drop_last(), separator) + separator + parts.last()
    }
}

/// The texts of a list of strings.
pub open spec fn texts(parts: Seq<String>) -> Seq<Seq<char>> {
    parts.map_values(|part: String| part@)
}

/// Texts put together with `separator` between them.
pub fn joined(parts: &Vec<String>, separator: &str) -> (whole: String)
    ensures
        whole@ == join(texts(parts@), separator@),
{
    let mut whole: String = String::new();
    let mut i: usize = 0;
    while i < parts.len()
        invariant
            i <= parts@.len(),
            whole@ == join(texts(parts@).take(i as int), separator@),
        decreases parts@.len() - i,
    {
        proof {
            assert(texts(parts@).take(i + 1).drop_last() =~= texts(parts@).take(i as int));
        }
        if i > 0 {
            whole.append(separator);
        }
        whole.append(parts[i].as_str());
        i = i + 1;
    }
    proof {
        assert(texts(parts@).take(i as int) =~= texts(parts@));
    }
    whole
}

/// Three texts, one after the other.
pub fn concat3(a: &str, b: &str, c: &str) -> (whole: String)
    ensures
        whole@ == a@ + b@ + c@,
{
    let mut whole: String = a.to_owned();
    whole.append(b);
    whole.append(c);
    whole
}

/// Two texts, one after the other.
pub fn concat2(a: &str, b: &str) -> (whole: String)
    ensures
        whole@ == a@ + b@,
{
    let mut whole: String = a.to_owned();
    whole.append(b);
    whole
}

// ---------------------------------------------------------------------------
// UTF-8
// ---------------------------------------------------------------------------

/// The characters that the first `n` bytes of a text's UTF-8 encode.
pub open spec fn utf8_prefix(text: Seq<char>, n: int) -> Seq<char> {
    decode_utf8(encode_utf8(text).subrange(0, n))
}

/// The bytes of two texts put together are the bytes of the one, then those of
/// the other.
pub proof fn lemma_encode_concat(a: Seq<char>, b: Seq<char>)
    ensures
        encode_utf8(a + b) == encode_utf8(a) + encode_utf8(b),
    decreases a.len(),
{
    if a.len() == 0 {
        assert(a + b =~= b);
        assert(encode_utf8(a) + encode_utf8(b) =~= encode_utf8(b));
    } else {
        lemma_encode_concat(a.drop_first(), b);
        assert((a + b).drop_first() =~= a.drop_first() + b);
        assert((a + b)[0] == a[0]);
        assert(encode_utf8(a + b) =~= encode_utf8(a) + encode_utf8(b));
    }
}

/// Cut at a character boundary, the first bytes of a text are the bytes of a
/// prefix of it.
pub proof fn lemma_utf8_prefix(text: Seq<char>, n: int)
    requires
        is_char_boundary(encode_utf8(text), n),
        0 <= n <= encode_utf8(text).len(),
    ensures
        utf8_prefix(text, n).is_prefix_of(text),
        encode_utf8(utf8_prefix(text, n)) == encode_utf8(text).subrange(0, n),
{
    let bytes = encode_utf8(text);
    vstd::utf8::encode_utf8_valid_utf8(text);
    vstd::utf8::encode_utf8_decode_utf8(text);
    vstd::utf8::valid_utf8_split(bytes, n);
    vstd::utf8::decode_utf8_split(bytes, n);
    vstd::utf8::decode_utf8_encode_utf8(bytes.subrange(0, n));
    let rest = decode_utf8(bytes.subrange(n, bytes.len() as int));
    assert(text == utf8_prefix(text, n) + rest);
    assert(utf8_prefix(text, n) =~= text.subrange(0, utf8_prefix(text, n).len() as int));
}

/// The number of bytes that a text takes.
pub fn byte_len(text: &str) -> (n: usize)
    ensures
        n == encode_utf8(text@).len(),
{
    text.as_bytes().len()
}

/// The characters that the first `n` bytes of a text encode.
pub fn byte_prefix(text: &str, n: usize) -> (prefix: &str)
    requires
        is_char_boundary(encode_utf8(text@), n as int),
    ensures
        prefix@ == utf8_prefix(text@, n as int),
{
    let (left, _right) = text.split_at(n);
    proof {
        vstd::utf8::encode_utf8_decode_utf8(left@);
    }
    left
}

// ---------------------------------------------------------------------------
// Numbers as text
// ---------------------------------------------------------------------------

/// The decimal digit of a number below ten.
pub open spec fn digit(d: nat) -> char {
    ('0' as u32 + d) as char
}

/// A natural number in decimal.
pub open spec fn decimal(n: nat) -> Seq<char>
    decreases n,
{
    if n < 10 {
        seq![digit(n)]
    } else {
        decimal(n / 10).push(digit(n % 10))
    }
}

/// An integer in decimal.
pub open spec fn signed_decimal(n: int) -> Seq<char> {
    if n < 0 {
        seq!['-'] + decimal((-n) as nat)
    } else {
        decimal(n as nat)
    }
}

fn digit_text(d: u64) -> (text: &'static str)
    requires
        d < 10,
    ensures
        text@ == seq![digit(d as nat)],
{
    proof {
        reveal_strlit("0");
        reveal_strlit("1");
        reveal_strlit("2");
        reveal_strlit("3");
        reveal_strlit("4");
        reveal_strlit("5");
        reveal_strlit("6");
        reveal_strlit("7");
        reveal_strlit("8");
        reveal_strlit("9");
    }
    match d {
        0 => "0",
        1 => "1",
        2 => "2",
        3 => "3",
        4 => "4",
        5 => "5",
        6 => "6",
        7 => "7",
        8 => "8",
        _ => "9",
    }
}

/// A natural number in decimal.
pub fn decimal_text(n: u64) -> (text: String)
    ensures
        text@ == decimal(n as nat),
    decreases n,
{
    if n < 10 {
        digit_text(n).to_owned()
    } else {
        let mut text: String = decimal_text(n / 10);
        text.append(digit_text(n % 10));
        text
    }
}

/// An integer in decimal.
pub fn signed_decimal_text(n: i64) -> (text: String)
    ensures
        text@ == signed_decimal(n as int),
{
    if n < 0 {
        let size: u64 = if n == i64::MIN {
            0x8000_0000_0000_0000
        } else {
            (-n) as u64
        };
        proof {
            reveal_strlit("-");
            assert("-"@ =~= seq!['-']);
        }
        let mut text: String = "-".to_owned();
        text.append(decimal_text(size).as_str());
        text
    } else {
        decimal_text(n as u64)
    }
}

// ---------------------------------------------------------------------------
// Laws
// ---------------------------------------------------------------------------


/// An empty text has no words.
pub proof fn nothing_has_no_words(word: Seq<char>)
    ensures
        !has_word(Seq::empty(), word),
        !has_word_with_prefix(Seq::empty(), word),
{
}

/// A text of one word has a word that starts with `prefix` exactly where it
/// starts so itself.
pub proof fn a_single_word_starts_as_it_does(word: Seq<char>, prefix: Seq<char>)
    requires
        word.len() > 0,
        forall|i: int| 0 <= i < word.len() ==> !is_white(#[trigger] word[i]),
    ensures
        has_word_with_prefix(word, prefix) <==> prefix.is_prefix_of(word),
{
    assert(word_at(word, 0, word.len() as int));
    assert(word.subrange(0, word.len() as int) =~= word);
    if has_word_with_prefix(word, prefix) {
        let (i, j) = choose|i: int, j: int| #[trigger]
            word_at(word, i, j) && prefix.is_prefix_of(word.subrange(i, j));
        assert(i == 0) by {
            if i > 0 {
                assert(!is_white(word[i - 1]));
            }
        }
        assert(j == word.len()) by {
            if j < word.len() {
                assert(!is_white(word[j]));
            }
        }
    }
}

/// White space parts words: what stands on its two sides is looked at apart.
pub proof fn white_space_parts_starts(
    left: Seq<char>,
    space: char,
    right: Seq<char>,
    prefix: Seq<char>,
)
    requires
        is_white(space),
    ensures
        has_word_with_prefix(left.push(space) + right, prefix) <==> has_word_with_prefix(
            left,
            prefix,
        ) || has_word_with_prefix(right, prefix),
{
    let whole = left.push(space) + right;
    let n = left.len() as int;
    if has_word_with_prefix(whole, prefix) {
        let (i, j) = choose|i: int, j: int| #[trigger]
            word_at(whole, i, j) && prefix.is_prefix_of(whole.subrange(i, j));
        assert(whole[n] == space);
        if i <= n {
            assert(i != n);
            assert(j <= n) by {
                if j > n {
                    assert(!is_white(whole[n]));
                }
            }
            assert forall|k: int| i <= k < j implies !is_white(#[trigger] left[k]) by {
                assert(left[k] == whole[k]);
            }
            if i > 0 {
                assert(left[i - 1] == whole[i - 1]);
            }
            if j < n {
                assert(left[j] == whole[j]);
            }
            assert(word_at(left, i, j));
            assert(left.subrange(i, j) =~= whole.subrange(i, j));
        } else {
            let a = i - n - 1;
            let b = j - n - 1;
            assert forall|k: int| a <= k < b implies !is_white(#[trigger] right[k]) by {
                assert(right[k] == whole[k + n + 1]);
            }
            if a > 0 {
                assert(right[a - 1] == whole[i - 1]);
            }
            if b < right.len() {
                assert(right[b] == whole[j]);
            }
            assert(word_at(right, a, b));
            assert(right.subrange(a, b) =~= whole.subrange(i, j));
        }
    }
    if has_word_with_prefix(left, prefix) {
        let (i, j) = choose|i: int, j: int| #[trigger]
            word_at(left, i, j) && prefix.is_prefix_of(left.subrange(i, j));
        assert forall|k: int| i <= k < j implies !is_white(#[trigger] whole[k]) by {
            assert(left[k] == whole[k]);
        }
        if i > 0 {
            assert(left[i - 1] == whole[i - 1]);
        }
        if j < n {
            assert(left[j] == whole[j]);
        }
        assert(word_at(whole, i, j));
        assert(left.subrange(i, j) =~= whole.subrange(i, j));
    }
    if has_word_with_prefix(right, prefix) {
        let (a, b) = choose|i: int, j: int| #[trigger]
            word_at(right, i, j) && prefix.is_prefix_of(right.subrange(i, j));
        let i = a + n + 1;
        let j = b + n + 1;
        assert forall|k: int| i <= k < j implies !is_white(#[trigger] whole[k]) by {
            assert(right[k - n - 1] == whole[k]);
        }
        if a > 0 {
            assert(right[a - 1] == whole[i - 1]);
        }
        if b < right.len() {
            assert(right[b] == whole[j]);
        }
        assert(word_at(whole, i, j));
        assert(right.subrange(a, b) =~= whole.subrange(i, j));
    }
}

/// The number that a numeral stands for.
pub open spec fn numeral_value(numeral: Seq<char>) -> int
    decreases numeral.len(),
{
    if numeral.len() == 0 {
        0
    } else {
        10 * numeral_value(numeral.drop_last()) + (numeral.last() as int - '0' as int)
    }
}

/// A number is written so that it reads back: in digits alone, and without a
/// zero before it.
pub proof fn numbers_read_back(n: nat)
    ensures
        numeral_value(decimal(n)) == n,
        decimal(n).len() > 0,
        forall|i: int| 0 <= i < decimal(n).len() ==> '0' <= #[trigger] decimal(n)[i] <= '9',
        decimal(n)[0] == '0' ==> n == 0 && decimal(n).len() == 1,
    decreases n,
{
    reveal_with_fuel(numeral_value, 2);
    if n < 10 {
        assert(seq![digit(n)].drop_last() =~= Seq::empty());
    } else {
        let front = decimal(n / 10);
        numbers_read_back(n / 10);
        assert(front.push(digit(n % 10)).drop_last() =~= front);
        assert forall|i: int| 0 <= i < decimal(n).len() implies '0' <= #[trigger] decimal(n)[i]
            <= '9' by {
            if i < front.len() {
                assert(decimal(n)[i] == front[i]);
            }
        }
        assert(decimal(n)[0] == front[0]);
    }
}

/// A number below zero is written as its size behind a minus sign, any other as
/// it is.
pub proof fn signs_are_written(n: int)
    ensures
        n >= 0 ==> numeral_value(signed_decimal(n)) == n && signed_decimal(n)[0] != '-',
        n < 0 ==> signed_decimal(n)[0] == '-' && numeral_value(signed_decimal(n).skip(1)) == -n
            && signed_decimal(n)[1] != '0',
{
    if n >= 0 {
        numbers_read_back(n as nat);
    } else {
        numbers_read_back((-n) as nat);
        assert(signed_decimal(n).skip(1) =~= decimal((-n) as nat));
        assert(signed_decimal(n)[1] == decimal((-n) as nat)[0]);
    }
}

proof fn lemma_trim_start(space: Seq<char>, rest: Seq<char>)
    requires
        forall|i: int| 0 <= i < space.len() ==> is_white(#[trigger] space[i]),
    ensures
        trim_start(space + rest) == trim_start(rest),
    decreases space.len(),
{
    if space.len() == 0 {
        assert(space + rest =~= rest);
    } else {
        assert((space + rest)[0] == space[0]);
        assert((space + rest).skip(1) =~= space.skip(1) + rest);
        assert forall|i: int| 0 <= i < space.skip(1).len() implies is_white(
            #[trigger] space.skip(1)[i],
        ) by {
            assert(space.skip(1)[i] == space[i + 1]);
        }
        lemma_trim_start(space.skip(1), rest);
    }
}

proof fn lemma_trim_end(rest: Seq<char>, space: Seq<char>)
    requires
        forall|i: int| 0 <= i < space.len() ==> is_white(#[trigger] space[i]),
    ensures
        trim_end(rest + space) == trim_end(rest),
    decreases space.len(),
{
    if space.len() == 0 {
        assert(rest + space =~= rest);
    } else {
        assert((rest + space).last() == space[space.len() - 1]);
        assert((rest + space).drop_last() =~= rest + space.drop_last());
        assert forall|i: int| 0 <= i < space.drop_last().len() implies is_white(
            #[trigger] space.drop_last()[i],
        ) by {
            assert(space.drop_last()[i] == space[i]);
        }
        lemma_trim_end(rest, space.drop_last());
    }
}

/// Trimming takes away the white space around a text and nothing of what starts
/// and ends with something else; of white space alone it leaves nothing.
pub proof fn trimming_takes_white_space_alone(
    ahead: Seq<char>,
    core: Seq<char>,
    behind: Seq<char>,
)
    requires
        forall|i: int| 0 <= i < ahead.len() ==> is_white(#[trigger] ahead[i]),
        forall|i: int| 0 <= i < behind.len() ==> is_white(#[trigger] behind[i]),
        core.len() > 0 ==> !is_white(core[0]) && !is_white(core[core.len() - 1]),
    ensures
        trim(ahead + core + behind) == core,
{
    assert(ahead + core + behind =~= ahead + (core + behind));
    lemma_trim_start(ahead, core + behind);
    if core.len() > 0 {
        assert((core + behind)[0] == core[0]);
        assert(trim_start(core + behind) == core + behind);
        lemma_trim_end(core, behind);
        assert(core.last() == core[core.len() - 1]);
    } else {
        assert(core + behind =~= behind + Seq::<char>::empty());
        lemma_trim_start(behind, Seq::empty());
        assert(core =~= Seq::empty());
    }
}

/// Slashes at the end go, all of them and nothing else.
pub proof fn end_slashes_alone_go(text: Seq<char>)
    ensures
        trim_end_slashes(text).is_prefix_of(text),
        trim_end_slashes(text).len() > 0 ==> trim_end_slashes(text)[trim_end_slashes(text).len()
            - 1] != '/',
        forall|i: int|
            trim_end_slashes(text).len() <= i < text.len() ==> #[trigger] text[i] == '/',
    decreases text.len(),
{
    if text.len() > 0 && text.last() == '/' {
        let front = text.drop_last();
        end_slashes_alone_go(front);
        assert forall|i: int| trim_end_slashes(text).len() <= i < text.len() implies #[trigger] text[i]
            == '/' by {
            if i < front.len() {
                assert(front[i] == '/');
            }
        }
    }
}

proof fn lemma_find(text: Seq<char>, pattern: Seq<char>, from: int)
    requires
        0 <= from,
    ensures
        match find_from(text, pattern, from) {
            Some(i) => from <= i && i + pattern.len() <= text.len() && text.subrange(
                i,
                i + pattern.len(),
            ) == pattern && (forall|k: int|
                from <= k < i ==> #[trigger] text.subrange(k, k + pattern.len()) != pattern),
            None => forall|k: int|
                from <= k && k + pattern.len() <= text.len() ==> #[trigger] text.subrange(
                    k,
                    k + pattern.len(),
                ) != pattern,
        },
    decreases text.len() - from + 1,
{
    if from + pattern.len() <= text.len() && text.subrange(from, from + pattern.len()) != pattern {
        lemma_find(text, pattern, from + 1);
    }
}

/// A text is cut at the first place where the pattern stands: what comes before,
/// the pattern and what comes after make up the text, and the pattern stands
/// nowhere earlier. Where it stands nowhere, nothing is cut.
pub proof fn texts_are_cut_at_the_first_place(text: Seq<char>, pattern: Seq<char>)
    ensures
        match after(text, pattern) {
            Some(rest) => text == before(text, pattern) + pattern + rest && (forall|k: int|
                0 <= k < before(text, pattern).len() ==> #[trigger] text.subrange(
                    k,
                    k + pattern.len(),
                ) != pattern),
            None => before(text, pattern) == text && (forall|k: int|
                0 <= k && k + pattern.len() <= text.len() ==> #[trigger] text.subrange(
                    k,
                    k + pattern.len(),
                ) != pattern),
        },
{
    lemma_find(text, pattern, 0);
    match find_from(text, pattern, 0) {
        Some(i) => {
            let mid = text.subrange(i, i + pattern.len());
            assert(text =~= text.take(i) + mid + text.skip(i + pattern.len()));
        },
        None => {},
    }
}

proof fn lemma_last_slash(text: Seq<char>)
    ensures
        -1 <= last_slash(text) < text.len(),
        last_slash(text) >= 0 ==> text[last_slash(text)] == '/',
        forall|i: int| last_slash(text) < i < text.len() ==> #[trigger] text[i] != '/',
    decreases text.len(),
{
    if text.len() > 0 && text.last() != '/' {
        let front = text.drop_last();
        lemma_last_slash(front);
        assert forall|i: int| last_slash(text) < i < text.len() implies #[trigger] text[i] != '/' by {
            if i < front.len() {
                assert(front[i] != '/');
            }
        }
    }
}

/// The last two segments of a text are its last two parts between slashes, with
/// the slash between them, whatever stands before.
pub proof fn last_two_segments_end_the_text(text: Seq<char>)
    ensures
        (forall|i: int| 0 <= i < text.len() ==> #[trigger] text[i] != '/') ==> last_two_segments(
            text,
        ).len() == 0,
        (exists|i: int| 0 <= i < text.len() && #[trigger] text[i] == '/') ==> (exists|a: Seq<char>, b:
            Seq<char>|
            #![trigger a.push('/') + b]
            last_two_segments(text) == a.push('/') + b && (forall|k: int|
                0 <= k < a.len() ==> #[trigger] a[k] != '/') && (forall|k: int|
                0 <= k < b.len() ==> #[trigger] b[k] != '/')),
        last_two_segments(text).is_suffix_of(text),
        0 < last_two_segments(text).len() < text.len() ==> text[text.len() - last_two_segments(
            text,
        ).len() - 1] == '/',
{
    lemma_last_slash(text);
    let k = last_slash(text);
    if k >= 0 {
        let head = text.take(k);
        lemma_last_slash(head);
        let s = last_slash(head);
        let a = text.subrange(s + 1, k);
        let b = text.skip(k + 1);
        assert forall|i: int| 0 <= i < a.len() implies #[trigger] a[i] != '/' by {
            assert(a[i] == head[s + 1 + i]);
        }
        assert forall|i: int| 0 <= i < b.len() implies #[trigger] b[i] != '/' by {
            assert(b[i] == text[k + 1 + i]);
        }
        assert(last_two_segments(text) =~= a.push('/') + b);
        assert(last_two_segments(text) =~= text.subrange(s + 1, text.len() as int));
        if s >= 0 {
            assert(head[s] == text[s]);
        }
    }
}

/// Texts are joined one after the other, with the separator between each two and
/// nowhere else.
pub proof fn texts_are_joined_one_by_one(
    parts: Seq<Seq<char>>,
    part: Seq<char>,
    separator: Seq<char>,
)
    ensures
        join(Seq::empty(), separator) == Seq::<char>::empty(),
        join(seq![part], separator) == part,
        parts.len() > 0 ==> join(parts.push(part), separator) == join(parts, separator) + separator
            + part,
{
    assert(parts.push(part).drop_last() =~= parts);
}

/// A list of strings is told text by text.
pub proof fn texts_are_what_strings_hold(parts: Seq<String>)
    ensures
        texts(parts).len() == parts.len(),
        forall|i: int| 0 <= i < parts.len() ==> #[trigger] texts(parts)[i] == parts[i]@,
{
}

} // verus!
