//! Text: decimal numerals, joining, comparison, trimming, decoding and excerpts.
use vstd::prelude::*;

verus! {

/// The character for the digit `d`.
pub open spec fn digit(d: nat) -> char {
    ('0' as u32 + d) as char
}

/// The decimal numeral of `n`, without leading zeros.
pub open spec fn decimal(n: nat) -> Seq<char>
    decreases n,
{
    if n < 10 {
        seq![digit(n)]
    } else {
        decimal(n / 10).push(digit(n % 10))
    }
}

/// The texts of `parts`, in order, with `between` between neighbours.
pub open spec fn joined(parts: Seq<Seq<char>>, between: Seq<char>) -> Seq<char>
    decreases parts.len(),
{
    if parts.len() == 0 {
        Seq::empty()
    } else if parts.len() == 1 {
        parts[0]
    } else {
        joined(parts.drop_last(), between) + between + parts.last()
    }
}

/// The texts that strings hold.
pub open spec fn texts(strings: Seq<String>) -> Seq<Seq<char>> {
    Seq::new(strings.len(), |i: int| strings[i]@)
}

/// The texts that pairs of strings hold.
pub open spec fn entries(pairs: Seq<(String, String)>) -> Seq<(Seq<char>, Seq<char>)> {
    Seq::new(pairs.len(), |i: int| (pairs[i].0@, pairs[i].1@))
}

/// The number of bytes of `text` in UTF-8.
pub open spec fn byte_len(text: Seq<char>) -> nat {
    vstd::utf8::encode_utf8(text).len()
}

/// The longest start of `text` that has no more than `limit` bytes in UTF-8.
pub open spec fn excerpt(text: Seq<char>, limit: nat) -> Seq<char>
    decreases text.len(),
{
    if text.len() == 0 || byte_len(text) <= limit {
        text
    } else {
        excerpt(text.drop_last(), limit)
    }
}

/// Whether `c` has the Unicode property White_Space.
pub open spec fn is_white_space(c: char) -> bool {
    let code = c as u32;
    ||| 0x9 <= code <= 0xd
    ||| code == 0x20
    ||| code == 0x85
    ||| code == 0xa0
    ||| code == 0x1680
    ||| 0x2000 <= code <= 0x200a
    ||| code == 0x2028
    ||| code == 0x2029
    ||| code == 0x202f
    ||| code == 0x205f
    ||| code == 0x3000
}

/// `text` without the white space at its start.
pub open spec fn trimmed_start(text: Seq<char>) -> Seq<char>
    decreases text.len(),
{
    if text.len() > 0 && is_white_space(text.first()) {
        trimmed_start(text.drop_first())
    } else {
        text
    }
}

/// `text` without the white space at its end.
pub open spec fn trimmed_end(text: Seq<char>) -> Seq<char>
    decreases text.len(),
{
    if text.len() > 0 && is_white_space(text.last()) {
        trimmed_end(text.drop_last())
    } else {
        text
    }
}

/// `text` without the white space at its two ends.
pub open spec fn trimmed(text: Seq<char>) -> Seq<char> {
    trimmed_end(trimmed_start(text))
}

/// Whether `text` holds nothing but white space.
pub open spec fn is_blank(text: Seq<char>) -> bool {
    forall|i: int| 0 <= i < text.len() ==> is_white_space(#[trigger] text[i])
}

/// `str::trim` of std: the text without leading and trailing white space, where white
/// space is the Unicode property White_Space.
pub assume_specification[ str::trim ](s: &str) -> (inner: &str)
    ensures
        inner@ == trimmed(s@),
;

/// What `String::from_utf8_lossy` makes of some bytes.
pub uninterp spec fn lossy_text(bytes: Seq<u8>) -> Seq<char>;

/// `String::from_utf8_lossy` of std: the text that the bytes encode, where they are
/// UTF-8. Other bytes give a text too, with replacement characters in it; which one is
/// left to the name.
#[verifier::external_body]
pub(crate) fn from_utf8_lossy(bytes: &Vec<u8>) -> (text: String)
    ensures
        text@ == lossy_text(bytes@),
        vstd::utf8::valid_utf8(bytes@) ==> text@ == vstd::utf8::decode_utf8(bytes@),
{
    String::from_utf8_lossy(bytes).into_owned()
}

/// Whether two texts are the same.
pub fn same_text(a: &str, b: &str) -> (same: bool)
    ensures
        same == (a@ == b@),
{
    a.to_owned() == b.to_owned()
}

fn digit_text(d: u64) -> (text: &'static str)
    requires
        d < 10,
    ensures
        text@ == seq![digit(d as nat)],
{
    proof {
        reveal_strlit("0");
        reveal_strlit("1");
        reveal_strlit("2");
        reveal_strlit("3");
        reveal_strlit("4");
        reveal_strlit("5");
        reveal_strlit("6");
        reveal_strlit("7");
        reveal_strlit("8");
        reveal_strlit("9");
    }
    match d {
        0 => "0",
        1 => "1",
        2 => "2",
        3 => "3",
        4 => "4",
        5 => "5",
        6 => "6",
        7 => "7",
        8 => "8",
        _ => "9",
    }
}

/// The decimal numeral of `n`.
pub fn decimal_text(n: u64) -> (text: String)
    ensures
        text@ == decimal(n as nat),
{
    long_decimal_text(n as u128)
}

/// The decimal numeral of `n`, which may be too long for [`decimal_text`].
pub fn long_decimal_text(n: u128) -> (text: String)
    ensures
        text@ == decimal(n as nat),
    decreases n,
{
    if n < 10 {
        digit_text(n as u64).to_owned()
    } else {
        let mut text = long_decimal_text(n / 10);
        text.append(digit_text((n % 10) as u64));
        text
    }
}

/// The decimal numeral of the number of bytes of `text`.
pub fn byte_len_text(text: &str) -> (numeral: String)
    ensures
        numeral@ == decimal(byte_len(text@)),
{
    decimal_text(text.as_bytes().len() as u64)
}

/// The longest start of `text` that has no more than `limit` bytes.
pub fn excerpt_of(text: &str, limit: usize) -> (start: &str)
    ensures
        start@ == excerpt(text@, limit as nat),
{
    let chars = text.unicode_len();
    let mut kept: usize = if chars < limit {
        chars
    } else {
        limit
    };
    proof {
        lemma_excerpt_skips(text@, limit as nat, chars as int);
        assert(text@.take(chars as int) == text@);
    }
    while kept > 0 && text.substring_char(0, kept).as_bytes().len() > limit
        invariant
            kept <= text@.len(),
            excerpt(text@, limit as nat) == excerpt(text@.take(kept as int), limit as nat),
        decreases kept,
    {
        assert(text@.subrange(0, kept as int) == text@.take(kept as int));
        assert(text@.take(kept as int).drop_last() == text@.take(kept - 1));
        kept -= 1;
    }
    assert(text@.subrange(0, kept as int) == text@.take(kept as int));
    text.substring_char(0, kept)
}

/// Joins `parts` with `between` between neighbours.
pub fn join(parts: &Vec<String>, between: &str) -> (text: String)
    ensures
        text@ == joined(texts(parts@), between@),
{
    let ghost all = texts(parts@);
    let mut text = String::new();
    let mut i: usize = 0;
    while i < parts.len()
        invariant
            i <= parts@.len(),
            all == texts(parts@),
            text@ == joined(all.take(i as int), between@),
        decreases parts@.len() - i,
    {
        if i > 0 {
            text.append(between);
        }
        text.append(parts[i].as_str());
        proof {
            let next = all.take(i + 1);
            assert(next.drop_last() == all.take(i as int));
            assert(next.last() == parts@[i as int]@);
            if i == 0 {
                assert(Seq::<char>::empty() + parts@[0]@ == parts@[0]@);
            }
        }
        i += 1;
    }
    assert(all.take(all.len() as int) == all);
    text
}

/// A text that holds nothing but white space, and no other, is empty once trimmed.
pub proof fn lemma_blank_trims_to_nothing(text: Seq<char>)
    ensures
        trimmed(text).len() == 0 <==> is_blank(text),
{
    lemma_trimmed_start(text);
    lemma_trimmed_end(trimmed_start(text));
    let inner = trimmed_start(text);
    if inner.len() > 0 {
        let skipped = text.len() - inner.len();
        assert(inner[0] == text[skipped]);
    }
}

/// An excerpt is a start of the text that keeps to the limit, and every longer start has more
/// bytes than that.
pub proof fn law_excerpt(text: Seq<char>, limit: nat)
    ensures
        excerpt(text, limit).is_prefix_of(text),
        byte_len(excerpt(text, limit)) <= limit,
        forall|n: int|
            excerpt(text, limit).len() < n <= text.len() ==> byte_len(#[trigger] text.take(n))
                > limit,
    decreases text.len(),
{
    if text.len() == 0 || byte_len(text) <= limit {
        assert(text == text.subrange(0, text.len() as int));
    } else {
        let rest = text.drop_last();
        law_excerpt(rest, limit);
        let kept = excerpt(text, limit);
        assert(kept == text.subrange(0, kept.len() as int));
        assert forall|n: int| kept.len() < n <= text.len() implies byte_len(
            #[trigger] text.take(n),
        ) > limit by {
            if n < text.len() {
                assert(text.take(n) == rest.take(n));
            } else {
                assert(text.take(n) == text);
            }
        }
    }
}

proof fn lemma_byte_len(text: Seq<char>)
    ensures
        byte_len(text) >= text.len(),
    decreases text.len(),
{
    if text.len() > 0 {
        lemma_byte_len(text.drop_first());
    }
}

/// An excerpt of at most `limit` bytes lies in the first `limit` characters.
proof fn lemma_excerpt_skips(text: Seq<char>, limit: nat, kept: int)
    requires
        0 <= kept <= text.len(),
    ensures
        kept > limit ==> excerpt(text.take(kept), limit) == excerpt(text.take(limit as int), limit),
    decreases kept,
{
    if kept > limit {
        lemma_byte_len(text.take(kept));
        assert(text.take(kept).drop_last() == text.take(kept - 1));
        lemma_excerpt_skips(text, limit, kept - 1);
    }
}

proof fn lemma_trimmed_start(text: Seq<char>)
    ensures
        trimmed_start(text).len() <= text.len(),
        trimmed_start(text) == text.subrange(
            text.len() - trimmed_start(text).len(),
            text.len() as int,
        ),
        forall|i: int|
            0 <= i < text.len() - trimmed_start(text).len() ==> is_white_space(#[trigger] text[i]),
        trimmed_start(text).len() > 0 ==> !is_white_space(trimmed_start(text)[0]),
    decreases text.len(),
{
    if text.len() > 0 && is_white_space(text.first()) {
        let rest = text.drop_first();
        lemma_trimmed_start(rest);
        assert forall|i: int| 0 <= i < text.len() - trimmed_start(text).len() implies is_white_space(
            #[trigger] text[i],
        ) by {
            if i > 0 {
                assert(rest[i - 1] == text[i]);
            }
        }
    }
}

proof fn lemma_trimmed_end(text: Seq<char>)
    ensures
        trimmed_end(text).len() <= text.len(),
        trimmed_end(text) == text.take(trimmed_end(text).len() as int),
        forall|i: int|
            trimmed_end(text).len() <= i < text.len() ==> is_white_space(#[trigger] text[i]),
        trimmed_end(text).len() > 0 ==> !is_white_space(trimmed_end(text).last()),
    decreases text.len(),
{
    if text.len() > 0 && is_white_space(text.last()) {
        let rest = text.drop_last();
        lemma_trimmed_end(rest);
        assert forall|i: int| trimmed_end(text).len() <= i < text.len() implies is_white_space(
            #[trigger] text[i],
        ) by {
            if i < text.len() - 1 {
                assert(rest[i] == text[i]);
            }
        }
    }
}

/// A digit is the numeral of a number below ten, and to write a digit behind a numeral is to
/// multiply by ten and add it.
pub proof fn law_decimal_digits(n: nat, d: nat)
    requires
        d < 10,
    ensures
        decimal(d) == seq![(48 + d) as char],
        n > 0 ==> decimal(10 * n + d) == decimal(n).push((48 + d) as char),
{
    assert((10 * n + d) / 10 == n && (10 * n + d) % 10 == d);
}

/// Parts that are joined in two groups are joined as a whole, once the two texts are joined; a
/// single part stays as it is.
pub proof fn law_joined_in_groups(
    parts: Seq<Seq<char>>,
    more: Seq<Seq<char>>,
    part: Seq<char>,
    between: Seq<char>,
)
    ensures
        parts.len() > 0 && more.len() > 0 ==> joined(parts + more, between) == joined(
            parts,
            between,
        ) + between + joined(more, between),
        joined(seq![part], between) == part,
        joined(Seq::empty(), between).len() == 0,
    decreases more.len(),
{
    if parts.len() > 0 && more.len() > 0 {
        assert((parts + more).drop_last() =~= parts + more.drop_last());
        assert((parts + more).last() == more.last());
        if more.len() == 1 {
            assert(more.drop_last() =~= Seq::<Seq<char>>::empty());
            assert(parts + more.drop_last() =~= parts);
        } else {
            law_joined_in_groups(parts, more.drop_last(), part, between);
        }
    }
}

/// Whether `inner` stands in `text` at `at`, with nothing but white space around it.
pub open spec fn stands_at(text: Seq<char>, inner: Seq<char>, at: int) -> bool {
    &&& 0 <= at <= text.len() - inner.len()
    &&& inner == text.subrange(at, at + inner.len())
    &&& forall|i: int| 0 <= i < at ==> is_white_space(#[trigger] text[i])
    &&& forall|i: int| at + inner.len() <= i < text.len() ==> is_white_space(#[trigger] text[i])
}

/// To trim takes white space off the two ends, all of it, and nothing else.
pub proof fn law_trimmed(text: Seq<char>)
    ensures
        exists|at: int| #[trigger] stands_at(text, trimmed(text), at),
        trimmed(text).len() > 0 ==> !is_white_space(trimmed(text).first()) && !is_white_space(
            trimmed(text).last(),
        ),
{
    let start = trimmed_start(text);
    lemma_trimmed_start(text);
    lemma_trimmed_end(start);
    let inner = trimmed(text);
    let at = text.len() - start.len();
    assert forall|i: int| at + inner.len() <= i < text.len() implies is_white_space(
        #[trigger] text[i],
    ) by {
        assert(start[i - at] == text[i]);
    }
    assert(inner == text.subrange(at, at + inner.len()));
    assert(stands_at(text, inner, at));
    if inner.len() > 0 {
        assert(inner.first() == start[0]);
    }
}

/// A text is blank where both halves of it are, wherever it is cut; a character is blank where
/// it is white space.
pub proof fn law_blank_halves(text: Seq<char>, more: Seq<char>, c: char)
    ensures
        is_blank(text + more) <==> is_blank(text) && is_blank(more),
        is_blank(seq![c]) <==> is_white_space(c),
        is_blank(Seq::empty()),
{
    if is_blank(text + more) {
        assert forall|i: int| 0 <= i < text.len() implies is_white_space(#[trigger] text[i]) by {
            assert((text + more)[i] == text[i]);
        }
        assert forall|i: int| 0 <= i < more.len() implies is_white_space(#[trigger] more[i]) by {
            assert((text + more)[text.len() + i] == more[i]);
        }
    }
    assert(seq![c][0] == c);
}

/// Of the characters of ASCII the space, the tabs, the line ends and the form feed are white
/// space, and no others.
pub proof fn law_white_space_of_ascii(c: char)
    requires
        (c as u32) < 128,
    ensures
        is_white_space(c) <==> c == ' ' || c == '\t' || c == '\n' || c == '\r' || (c as u32) == 11
            || (c as u32) == 12,
{
}

/// The bytes of two texts add up, and a character has from one to four of them, by its code.
pub proof fn law_bytes_add_up(text: Seq<char>, more: Seq<char>, c: char)
    ensures
        byte_len(text + more) == byte_len(text) + byte_len(more),
        byte_len(seq![c]) == if (c as u32) < 0x80 {
            1nat
        } else if (c as u32) < 0x800 {
            2
        } else if (c as u32) < 0x10000 {
            3
        } else {
            4
        },
        byte_len(Seq::empty()) == 0,
    decreases text.len(),
{
    let one = seq![c];
    assert(one.drop_first() =~= Seq::<char>::empty());
    reveal_with_fuel(vstd::utf8::encode_utf8, 2);
    if text.len() == 0 {
        assert(text + more =~= more);
    } else {
        assert((text + more).drop_first() =~= text.drop_first() + more);
        law_bytes_add_up(text.drop_first(), more, c);
    }
}

/// A string more is a text more, and a pair of strings more is a pair of texts more.
pub proof fn law_texts_of_strings(
    strings: Seq<String>,
    string: String,
    pairs: Seq<(String, String)>,
    pair: (String, String),
)
    ensures
        texts(strings.push(string)) == texts(strings).push(string@),
        texts(Seq::empty()).len() == 0,
        entries(pairs.push(pair)) == entries(pairs).push((pair.0@, pair.1@)),
        entries(Seq::empty()).len() == 0,
{
}

} // verus!
