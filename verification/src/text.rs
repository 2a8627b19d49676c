use vstd::prelude::*;

verus! {

/// `String::push`: std documents that it appends the character to the end of
/// the string, which is all this claims.
#[verifier::external_body]
pub(crate) fn push_char(text: &mut String, character: char)
    ensures
        final(text)@ == old(text)@.push(character),
{
    text.push(character);
}

/// `character` with an ASCII capital letter turned into its small letter.
pub open spec fn spec_ascii_lowercase(character: char) -> char {
    if 'A' <= character <= 'Z' {
        ((character as u32) + 32) as char
    } else {
        character
    }
}

/// `char::to_ascii_lowercase`.
pub fn ascii_lowercase(character: char) -> (lower: char)
    ensures
        lower == spec_ascii_lowercase(character),
{
    if 'A' <= character && character <= 'Z' {
        ((character as u8) + 32) as char
    } else {
        character
    }
}

/// `character` with an ASCII small letter turned into its capital letter.
pub open spec fn spec_ascii_uppercase(character: char) -> char {
    if 'a' <= character <= 'z' {
        ((character as u32) - 32) as char
    } else {
        character
    }
}

/// `char::to_ascii_uppercase`.
pub fn ascii_uppercase(character: char) -> (upper: char)
    ensures
        upper == spec_ascii_uppercase(character),
{
    if 'a' <= character && character <= 'z' {
        ((character as u8) - 32) as char
    } else {
        character
    }
}


/// Whether `character` has the Unicode `White_Space` property.
pub open spec fn spec_is_whitespace(character: char) -> bool {
    let code = character as u32;
    ||| 0x09 <= code <= 0x0D
    ||| code == 0x20
    ||| code == 0x85
    ||| code == 0xA0
    ||| code == 0x1680
    ||| 0x2000 <= code <= 0x200A
    ||| code == 0x2028
    ||| code == 0x2029
    ||| code == 0x202F
    ||| code == 0x205F
    ||| code == 0x3000
}

/// `char::is_whitespace`: the Unicode `White_Space` property.
pub fn is_whitespace(character: char) -> (whitespace: bool)
    ensures
        whitespace == spec_is_whitespace(character),
{
    let code = character as u32;
    (0x09 <= code && code <= 0x0D) || code == 0x20 || code == 0x85 || code == 0xA0 || code
        == 0x1680 || (0x2000 <= code && code <= 0x200A) || code == 0x2028 || code == 0x2029 || code
        == 0x202F || code == 0x205F || code == 0x3000
}


/// `needle` occurs in `text` starting at `start`.
pub open spec fn occurs_at(text: Seq<char>, needle: Seq<char>, start: int) -> bool {
    0 <= start && start + needle.len() <= text.len() && text.subrange(start, start + needle.len())
        == needle
}

/// `needle` occurs somewhere in `text`.
pub open spec fn text_contains(text: Seq<char>, needle: Seq<char>) -> bool {
    exists|start: int| #[trigger] occurs_at(text, needle, start)
}

/// `text` ends with `suffix`.
pub open spec fn text_ends_with(text: Seq<char>, suffix: Seq<char>) -> bool {
    suffix.len() <= text.len() && text.subrange(text.len() - suffix.len(), text.len() as int)
        == suffix
}

/// The characters of `text`, in order.
pub fn chars_of(text: &str) -> (chars: Vec<char>)
    ensures
        chars@ == text@,
{
    let mut chars: Vec<char> = Vec::new();
    for character in it: text.chars()
        invariant
            it.seq() == text@,
            chars@ == text@.take(it.index()),
    {
        proof {
            assert(text@.take(it.index() + 1) =~= text@.take(it.index()).push(character));
        }
        chars.push(character);
    }
    proof {
        assert(text@.take(text@.len() as int) =~= text@);
    }
    chars
}

/// Whether `needle` occurs in `text` at `start`.
fn matches_at(text: &Vec<char>, needle: &Vec<char>, start: usize) -> (found: bool)
    requires
        start + needle@.len() <= text@.len(),
    ensures
        found == occurs_at(text@, needle@, start as int),
{
    let limit = text.len();
    let mut index: usize = 0;
    while index < needle.len()
        invariant
            limit == text@.len(),
            start + needle@.len() <= text@.len(),
            index <= needle@.len(),
            forall|k: int| 0 <= k < index ==> text@[start + k] == needle@[k],
        decreases needle@.len() - index,
    {
        if text[start + index] != needle[index] {
            assert(text@.subrange(start as int, start + needle@.len())[index as int] != needle@[index as int]);
            return false;
        }
        index = index + 1;
    }
    assert(text@.subrange(start as int, start + needle@.len()) =~= needle@);
    true
}

/// `str::contains` for a text needle.
pub fn contains_text(text: &str, needle: &str) -> (found: bool)
    ensures
        found == text_contains(text@, needle@),
{
    let text_chars = chars_of(text);
    let needle_chars = chars_of(needle);
    if needle_chars.len() > text_chars.len() {
        assert forall|start: int| !occurs_at(text@, needle@, start) by {}
        return false;
    }
    let last_start = text_chars.len() - needle_chars.len();
    let mut start: usize = 0;
    loop
        invariant
            text_chars@ == text@,
            needle_chars@ == needle@,
            last_start + needle@.len() == text@.len(),
            start <= last_start,
            forall|k: int| 0 <= k < start ==> !#[trigger] occurs_at(text@, needle@, k),
        ensures
            forall|k: int| 0 <= k <= last_start ==> !#[trigger] occurs_at(text@, needle@, k),
        decreases last_start - start,
    {
        if matches_at(&text_chars, &needle_chars, start) {
            return true;
        }
        if start == last_start {
            break;
        }
        start = start + 1;
    }
    assert forall|k: int| !#[trigger] occurs_at(text@, needle@, k) by {
        if 0 <= k <= last_start {
        }
    }
    false
}

/// `str::ends_with` for a text suffix.
pub fn ends_with_text(text: &str, suffix: &str) -> (found: bool)
    ensures
        found == text_ends_with(text@, suffix@),
{
    let text_chars = chars_of(text);
    let suffix_chars = chars_of(suffix);
    if suffix_chars.len() > text_chars.len() {
        return false;
    }
    let start = text_chars.len() - suffix_chars.len();
    let found = matches_at(&text_chars, &suffix_chars, start);
    found
}

/// `text` with every ASCII capital letter made small.
pub open spec fn ascii_lowercase_text(text: Seq<char>) -> Seq<char> {
    text.map_values(|character: char| spec_ascii_lowercase(character))
}

/// `str::to_ascii_lowercase`.
pub fn ascii_lowercase_string(text: &str) -> (lower: String)
    ensures
        lower@ == ascii_lowercase_text(text@),
{
    let mut lower = String::new();
    let ghost mut index: int = 0;
    for character in it: text.chars()
        invariant
            index == it.index(),
            it.seq() == text@,
            lower@ == ascii_lowercase_text(text@.take(index)),
    {
        push_char(&mut lower, ascii_lowercase(character));
        assert(ascii_lowercase_text(text@.take(index + 1)) =~= ascii_lowercase_text(
            text@.take(index),
        ).push(spec_ascii_lowercase(character)));
        proof {
            index = index + 1;
        }
    }
    assert(text@.take(index) =~= text@);
    lower
}


/// `a` comes no later than `b` in the order of `str`'s `Ord`: compared
/// character by character, a prefix first.
pub open spec fn text_le(a: Seq<char>, b: Seq<char>) -> bool
    decreases a.len(),
{
    if a.len() == 0 {
        true
    } else if b.len() == 0 {
        false
    } else if a[0] != b[0] {
        a[0] < b[0]
    } else {
        text_le(a.drop_first(), b.drop_first())
    }
}

/// Of two texts, one comes no later than the other.
pub proof fn lemma_text_le_total(a: Seq<char>, b: Seq<char>)
    ensures
        text_le(a, b) || text_le(b, a),
    decreases a.len(),
{
    if a.len() > 0 && b.len() > 0 && a[0] == b[0] {
        lemma_text_le_total(a.drop_first(), b.drop_first());
    }
}

/// The order of texts is transitive.
pub proof fn lemma_text_le_transitive(a: Seq<char>, b: Seq<char>, c: Seq<char>)
    requires
        text_le(a, b),
        text_le(b, c),
    ensures
        text_le(a, c),
    decreases a.len(),
{
    if a.len() > 0 && b.len() > 0 && c.len() > 0 && a[0] == b[0] && b[0] == c[0] {
        lemma_text_le_transitive(a.drop_first(), b.drop_first(), c.drop_first());
    }
}

/// Texts that come no later than each other are equal.
pub proof fn lemma_text_le_antisymmetric(a: Seq<char>, b: Seq<char>)
    requires
        text_le(a, b),
        text_le(b, a),
    ensures
        a == b,
    decreases a.len(),
{
    if a.len() > 0 && b.len() > 0 && a[0] == b[0] {
        lemma_text_le_antisymmetric(a.drop_first(), b.drop_first());
        assert(a =~= seq![a[0]] + a.drop_first());
        assert(b =~= seq![b[0]] + b.drop_first());
    }
}

/// After a common prefix of `length` characters, the order of two texts is
/// the order of what follows.
proof fn lemma_text_le_skip(a: Seq<char>, b: Seq<char>, length: int)
    requires
        0 <= length <= a.len(),
        length <= b.len(),
        a.take(length) == b.take(length),
    ensures
        text_le(a, b) == text_le(a.skip(length), b.skip(length)),
    decreases length,
{
    if length > 0 {
        assert(a[0] == a.take(length)[0]);
        assert(b[0] == b.take(length)[0]);
        assert(a.drop_first().take(length - 1) =~= a.take(length).drop_first());
        assert(b.drop_first().take(length - 1) =~= b.take(length).drop_first());
        lemma_text_le_skip(a.drop_first(), b.drop_first(), length - 1);
        assert(a.drop_first().skip(length - 1) =~= a.skip(length));
        assert(b.drop_first().skip(length - 1) =~= b.skip(length));
    } else {
        assert(a.skip(0) =~= a);
        assert(b.skip(0) =~= b);
    }
}

/// Whether `a` comes no later than `b`, compared as `str` compares.
pub fn text_le_exec(a: &str, b: &str) -> (le: bool)
    ensures
        le == text_le(a@, b@),
{
    let a_chars = chars_of(a);
    let b_chars = chars_of(b);
    let mut index: usize = 0;
    while index < a_chars.len() && index < b_chars.len() && a_chars[index] == b_chars[index]
        invariant
            a_chars@ == a@,
            b_chars@ == b@,
            index <= a@.len(),
            index <= b@.len(),
            a@.take(index as int) == b@.take(index as int),
        decreases a@.len() - index,
    {
        assert(a@.take(index + 1) =~= a@.take(index as int).push(a@[index as int]));
        assert(b@.take(index + 1) =~= b@.take(index as int).push(b@[index as int]));
        index = index + 1;
    }
    proof {
        lemma_text_le_skip(a@, b@, index as int);
    }
    if index == a_chars.len() {
        true
    } else if index == b_chars.len() {
        false
    } else {
        assert(a@.skip(index as int)[0] == a@[index as int]);
        assert(b@.skip(index as int)[0] == b@[index as int]);
        a_chars[index] < b_chars[index]
    }
}


/// The decimal digits of `value`, most significant first.
pub open spec fn decimal_text(value: nat) -> Seq<char>
    decreases value,
{
    if value < 10 {
        seq![digit_char(value)]
    } else {
        decimal_text(value / 10).push(digit_char(value % 10))
    }
}

/// The character of the decimal digit `digit`.
pub open spec fn digit_char(digit: nat) -> char {
    (('0' as u32) + digit) as char
}

/// `value` written in decimal, as `{}` formats it.
pub fn decimal_string(value: usize) -> (text: String)
    ensures
        text@ == decimal_text(value as nat),
    decreases value,
{
    let digit = (('0' as u32) + ((value % 10) as u32)) as u8 as char;
    if value < 10 {
        let mut text = String::new();
        push_char(&mut text, digit);
        assert(text@ =~= decimal_text(value as nat));
        text
    } else {
        let mut text = decimal_string(value / 10);
        push_char(&mut text, digit);
        text
    }
}

/// The characters `chars[start..end]` as a string.
pub(crate) fn string_from_chars(chars: &Vec<char>, start: usize, end: usize) -> (text: String)
    requires
        start <= end <= chars@.len(),
    ensures
        text@ == chars@.subrange(start as int, end as int),
{
    let mut text = String::new();
    let mut index = start;
    while index < end
        invariant
            start <= index <= end <= chars@.len(),
            text@ == chars@.subrange(start as int, index as int),
        decreases end - index,
    {
        push_char(&mut text, chars[index]);
        index = index + 1;
        assert(text@ =~= chars@.subrange(start as int, index as int));
    }
    text
}

/// `text` without the whitespace at its start.
pub open spec fn trim_start(text: Seq<char>) -> Seq<char>
    decreases text.len(),
{
    if text.len() > 0 && spec_is_whitespace(text[0]) {
        trim_start(text.subrange(1, text.len() as int))
    } else {
        text
    }
}

/// `text` without the whitespace at its end.
pub open spec fn trim_end(text: Seq<char>) -> Seq<char>
    decreases text.len(),
{
    if text.len() > 0 && spec_is_whitespace(text.last()) {
        trim_end(text.drop_last())
    } else {
        text
    }
}

/// `text` without the whitespace at either end, as `str::trim` gives it.
pub open spec fn trimmed(text: Seq<char>) -> Seq<char> {
    trim_end(trim_start(text))
}

/// The bounds of `chars[start..end]` without whitespace at either end.
pub fn trim_bounds(chars: &Vec<char>, start: usize, end: usize) -> (bounds: (usize, usize))
    requires
        start <= end <= chars@.len(),
    ensures
        bounds.0 <= bounds.1 <= end,
        start <= bounds.0,
        chars@.subrange(bounds.0 as int, bounds.1 as int) == trimmed(
            chars@.subrange(start as int, end as int),
        ),
{
    let mut first = start;
    while first < end && is_whitespace(chars[first])
        invariant
            start <= first <= end <= chars@.len(),
            trim_start(chars@.subrange(start as int, end as int)) == trim_start(
                chars@.subrange(first as int, end as int),
            ),
        decreases end - first,
    {
        assert(chars@.subrange(first as int, end as int).subrange(
            1,
            (end - first) as int,
        ) =~= chars@.subrange(first as int + 1, end as int));
        first = first + 1;
    }
    assert(trim_start(chars@.subrange(first as int, end as int)) == chars@.subrange(
        first as int,
        end as int,
    ));
    let mut last = end;
    while last > first && is_whitespace(chars[last - 1])
        invariant
            start <= first <= last <= end <= chars@.len(),
            trim_end(chars@.subrange(first as int, end as int)) == trim_end(
                chars@.subrange(first as int, last as int),
            ),
        decreases last - first,
    {
        assert(chars@.subrange(first as int, last as int).drop_last() =~= chars@.subrange(
            first as int,
            last as int - 1,
        ));
        last = last - 1;
    }
    (first, last)
}

} // verus!
