//! Tags and the normal form of their names.
use unicode_normalization::UnicodeNormalization;
use vstd::prelude::*;
use vstd::string::*;

use crate::errors::CoreError;
use crate::ids::Uuid;
use crate::text::{cat, debug_form, debug_text};

verus! {

/// Maximum tag length after normalization, in Unicode scalar values.
pub const MAX_TAG_LEN: usize = 64;

/// A label that users assign to content.
#[derive(Clone, Debug, PartialEq, Eq)]
pub struct Tag {
    pub id: Uuid,
    /// The name in normal form.
    pub name: String,
    /// ISO 8601 UTC timestamp of the first sighting.
    pub first_seen: String,
}

/// Whether a character is white space: the Unicode property `White_Space`.
pub open spec fn white_space(c: char) -> bool {
    let n = c as int;
    ||| 0x09 <= n <= 0x0d
    ||| n == 0x20
    ||| n == 0x85
    ||| n == 0xa0
    ||| n == 0x1680
    ||| 0x2000 <= n <= 0x200a
    ||| n == 0x2028
    ||| n == 0x2029
    ||| n == 0x202f
    ||| n == 0x205f
    ||| n == 0x3000
}

/// Whether a text is ASCII throughout.
pub open spec fn ascii(s: Seq<char>) -> bool {
    forall|i: int| 0 <= i < s.len() ==> (#[trigger] s[i]) as int <= 0x7f
}

/// The lowercase of an ASCII character.
pub open spec fn ascii_lower(c: char) -> char {
    if 0x41 <= c as int <= 0x5a {
        (c as int + 0x20) as char
    } else {
        c
    }
}

/// An ASCII text in lowercase.
pub open spec fn ascii_lowered(s: Seq<char>) -> Seq<char> {
    Seq::new(s.len(), |i: int| ascii_lower(s[i]))
}

/// The normal form of an ASCII name.
pub open spec fn ascii_normal(raw: Seq<char>) -> Seq<char> {
    ascii_lowered(trimmed(raw))
}

/// The lowercase of a character, as `char::to_lowercase` gives it.
pub uninterp spec fn lower_form(c: char) -> Seq<char>;

/// A text in Unicode Normalization Form C, as the crate `unicode_normalization`
/// composes it.
pub uninterp spec fn nfc_form(s: Seq<char>) -> Seq<char>;

/// Calls `char::is_whitespace`, which tells the characters of the Unicode property
/// `White_Space`.
#[verifier::external_body]
fn is_white_space(c: char) -> (r: bool)
    ensures
        r == white_space(c),
{
    c.is_whitespace()
}

/// Calls `char::to_lowercase`, which depends on the character alone. The result
/// is named: it is a Unicode mapping, of one to three characters. Of an ASCII
/// character it is stated: the letters `A` to `Z` become `a` to `z`, the others stay.
#[verifier::external_body]
fn lower_char(c: char) -> (r: Vec<char>)
    ensures
        r@ == lower_form(c),
        c as int <= 0x7f ==> r@ == seq![ascii_lower(c)],
{
    c.to_lowercase().collect()
}

/// Calls `unicode_normalization::UnicodeNormalization::nfc` for `str`, which
/// depends on the text alone. The result is named: it takes the Unicode
/// composition tables to state. ASCII characters neither decompose nor compose with
/// one another, so that an ASCII text stays as it is.
#[verifier::external_body]
fn compose(s: &str) -> (r: String)
    ensures
        r@ == nfc_form(s@),
        ascii(s@) ==> r@ == s@,
{
    s.nfc().collect()
}

/// A text without its leading white space.
pub open spec fn trim_front(s: Seq<char>) -> Seq<char>
    decreases s.len(),
{
    if s.len() > 0 && white_space(s[0]) {
        trim_front(s.drop_first())
    } else {
        s
    }
}

/// A text without its trailing white space.
pub open spec fn trim_back(s: Seq<char>) -> Seq<char>
    decreases s.len(),
{
    if s.len() > 0 && white_space(s.last()) {
        trim_back(s.drop_last())
    } else {
        s
    }
}

/// A text without the white space around it.
pub open spec fn trimmed(s: Seq<char>) -> Seq<char> {
    trim_back(trim_front(s))
}

/// A text with every character in lowercase.
pub open spec fn lowered(s: Seq<char>) -> Seq<char>
    decreases s.len(),
{
    if s.len() == 0 {
        Seq::empty()
    } else {
        lowered(s.drop_last()) + lower_form(s.last())
    }
}

/// Whether this is `InvalidTag` with the given message.
pub open spec fn is_invalid_tag(e: CoreError, text: Seq<char>) -> bool {
    e matches CoreError::InvalidTag(m) && m@ == text
}

/// Removes the white space around a text.
pub fn trim(raw: &str) -> (r: String)
    ensures
        r@ == trimmed(raw@),
{
    let mut chars: Vec<char> = Vec::new();
    for c in it: raw.chars()
        invariant
            it.seq() == raw@,
            chars@ == raw@.take(it.index() as int),
    {
        proof {
            assert(raw@.take(it.index() + 1) =~= raw@.take(it.index() as int).push(c));
        }
        chars.push(c);
    }
    assert(chars@ =~= raw@);
    let mut start: usize = 0;
    proof {
        assert(chars@.skip(0) =~= chars@);
    }
    while start < chars.len() && is_white_space(chars[start])
        invariant
            start <= chars.len(),
            trim_front(chars@) == trim_front(chars@.skip(start as int)),
        decreases chars.len() - start,
    {
        proof {
            let rest = chars@.skip(start as int);
            assert(rest[0] == chars@[start as int]);
            assert(rest.drop_first() =~= chars@.skip(start + 1));
        }
        start += 1;
    }
    let ghost front = chars@.skip(start as int);
    proof {
        if start < chars.len() {
            assert(front[0] == chars@[start as int]);
        }
        assert(trim_front(chars@) == front);
        assert(front.take(front.len() as int) =~= front);
    }
    let mut end: usize = chars.len();
    while end > start && is_white_space(chars[end - 1])
        invariant
            start <= end <= chars.len(),
            front == chars@.skip(start as int),
            trim_back(front) == trim_back(front.take(end - start)),
        decreases end,
    {
        proof {
            let part = front.take(end - start);
            assert(part.last() == chars@[end - 1]);
            assert(part.drop_last() =~= front.take(end - start - 1));
        }
        end -= 1;
    }
    proof {
        if end > start {
            assert(front.take(end - start).last() == chars@[end - 1]);
        }
        assert(trim_back(front) == front.take(end - start));
    }
    let mut out = String::new();
    let mut i: usize = start;
    while i < end
        invariant
            start <= i <= end <= chars.len(),
            front == chars@.skip(start as int),
            out@ == front.take(i - start),
        decreases end - i,
    {
        out.push(chars[i]);
        proof {
            assert(front.take(i - start + 1) =~= front.take(i - start).push(chars@[i as int]));
        }
        i += 1;
    }
    out
}

/// Lowercases a composed text and refuses what is too long; `raw` is what the
/// user wrote.
pub fn finish_normalize(raw: &str, composed: &str) -> (r: Result<String, CoreError>)
    ensures
        match r {
            Ok(name) => name@ == lowered(composed@) && name@.len() <= MAX_TAG_LEN,
            Err(e) => lowered(composed@).len() > MAX_TAG_LEN && is_invalid_tag(
                e,
                "tag exceeds 64 chars: "@ + debug_form(raw@),
            ),
        },
        ascii(composed@) ==> lowered(composed@) == ascii_lowered(composed@),
{
    let mut out = String::new();
    for c in it: composed.chars()
        invariant
            it.seq() == composed@,
            out@ == lowered(composed@.take(it.index() as int)),
            ascii(composed@) ==> out@ == ascii_lowered(composed@.take(it.index() as int)),
    {
        let lower = lower_char(c);
        let ghost before = out@;
        let mut k: usize = 0;
        while k < lower.len()
            invariant
                k <= lower.len(),
                out@ == before + lower@.take(k as int),
            decreases lower.len() - k,
        {
            out.push(lower[k]);
            proof {
                assert(lower@.take(k + 1) =~= lower@.take(k as int).push(lower@[k as int]));
                assert(before + lower@.take(k + 1) =~= (before + lower@.take(k as int)).push(
                    lower@[k as int],
                ));
            }
            k += 1;
        }
        proof {
            let n = it.index() as int;
            assert(lower@.take(lower@.len() as int) =~= lower@);
            assert(composed@.take(n + 1).drop_last() =~= composed@.take(n));
            assert(composed@.take(n + 1).last() == c);
            if ascii(composed@) {
                assert(composed@[n] == c);
                assert(lower@ =~= seq![ascii_lower(c)]);
                assert(out@ =~= ascii_lowered(composed@.take(n + 1)));
            }
        }
    }
    proof {
        assert(composed@.take(composed@.len() as int) =~= composed@);
    }
    if out.as_str().unicode_len() > MAX_TAG_LEN {
        let quoted = debug_text(raw);
        return Err(CoreError::InvalidTag(cat("tag exceeds 64 chars: ", quoted.as_str())));
    }
    Ok(out)
}

/// Brings a tag name to its normal form: without the white space around it,
/// composed, in lowercase. Refuses a name that is empty, or longer than
/// [`MAX_TAG_LEN`] characters in normal form.
pub fn normalize(raw: &str) -> (r: Result<String, CoreError>)
    ensures
        match r {
            Ok(name) => trimmed(raw@).len() > 0 && name@ == lowered(nfc_form(trimmed(raw@)))
                && name@.len() <= MAX_TAG_LEN,
            Err(e) => {
                ||| trimmed(raw@).len() == 0 && is_invalid_tag(e, "tag name is empty"@)
                ||| trimmed(raw@).len() > 0 && lowered(nfc_form(trimmed(raw@))).len() > MAX_TAG_LEN
                    && is_invalid_tag(e, "tag exceeds 64 chars: "@ + debug_form(raw@))
            },
        },
        ascii(raw@) ==> match r {
            Ok(name) => 0 < trimmed(raw@).len() <= MAX_TAG_LEN && name@ == ascii_normal(raw@),
            Err(_) => trimmed(raw@).len() == 0 || trimmed(raw@).len() > MAX_TAG_LEN,
        },
{
    let name = trim(raw);
    proof {
        if ascii(raw@) {
            lemma_trimmed_ascii(raw@);
        }
    }
    if name.as_str().is_empty() {
        return Err(CoreError::InvalidTag("tag name is empty".to_owned()));
    }
    let composed = compose(name.as_str());
    finish_normalize(raw, composed.as_str())
}

/// Whether a text is white space throughout.
pub open spec fn blank(s: Seq<char>) -> bool {
    forall|i: int| 0 <= i < s.len() ==> white_space(#[trigger] s[i])
}

/// White space around a name makes no difference: what is trimmed, and with it the
/// normal form, is the same.
pub proof fn law_outer_white_space_is_ignored(before: Seq<char>, s: Seq<char>, after: Seq<char>)
    requires
        blank(before),
        blank(after),
    ensures
        trimmed(before + s + after) == trimmed(s),
{
    assert(before + s + after =~= before + (s + after));
    lemma_blank_front(before, s + after);
    if trim_front(s).len() > 0 {
        lemma_front_stops(s, after);
        lemma_blank_back(trim_front(s), after);
    } else {
        lemma_front_passes(s, after);
        lemma_blank_front(after, Seq::empty());
        assert(after + Seq::<char>::empty() =~= after);
    }
}

/// A name in normal form is its own normal form, where the name is ASCII.
pub proof fn law_ascii_normal_form_is_stable(raw: Seq<char>)
    requires
        ascii(raw),
    ensures
        ascii(ascii_normal(raw)),
        ascii_normal(raw).len() == trimmed(raw).len(),
        trimmed(ascii_normal(raw)) == ascii_normal(raw),
        ascii_normal(ascii_normal(raw)) == ascii_normal(raw),
{
    let t = trimmed(raw);
    let name = ascii_normal(raw);
    lemma_trimmed_ascii(raw);
    law_trim_is_idempotent(raw);
    lemma_trim_ignores_case(t, name);
    lemma_trim_front_part(name);
    lemma_trim_back_part(trim_front(name));
    assert(trimmed(name) =~= name);
    assert(ascii_lowered(name) =~= name);
}

/// Whether two texts differ at most in the case of ASCII letters.
pub open spec fn same_but_case(a: Seq<char>, b: Seq<char>) -> bool {
    a.len() == b.len() && forall|i: int|
        0 <= i < a.len() ==> ascii_lower(#[trigger] a[i]) == ascii_lower(b[i])
}

/// Neither the case of letters nor the white space around a name makes a difference
/// to its normal form, where the name is ASCII.
pub proof fn law_ascii_case_and_outer_white_space_are_ignored(
    raw: Seq<char>,
    before: Seq<char>,
    other: Seq<char>,
    after: Seq<char>,
)
    requires
        ascii(raw),
        ascii(other),
        same_but_case(raw, other),
        blank(before),
        blank(after),
        ascii(before),
        ascii(after),
    ensures
        ascii(before + other + after),
        trimmed(before + other + after).len() == trimmed(raw).len(),
        ascii_normal(before + other + after) == ascii_normal(raw),
{
    law_outer_white_space_is_ignored(before, other, after);
    lemma_trim_ignores_case(raw, other);
    assert(ascii_normal(other) =~= ascii_normal(raw));
    let s = before + other + after;
    assert forall|i: int| 0 <= i < s.len() implies (#[trigger] s[i]) as int <= 0x7f by {
        if i < before.len() {
            assert(s[i] == before[i]);
        } else if i < before.len() + other.len() {
            assert(s[i] == other[i - before.len()]);
        } else {
            assert(s[i] == after[i - before.len() - other.len()]);
        }
    }
}

/// Trimming a trimmed text changes nothing.
pub proof fn law_trim_is_idempotent(s: Seq<char>)
    ensures
        trimmed(trimmed(s)) == trimmed(s),
{
    let front = trim_front(s);
    lemma_trim_front_head(s);
    lemma_trim_back_ends(front);
    let t = trimmed(s);
    if t.len() > 0 {
        assert(t[0] == front[0]);
    }
    assert(trim_front(t) == t);
}

proof fn lemma_trim_front_part(s: Seq<char>)
    ensures
        trim_front(s).len() <= s.len(),
        trim_front(s) =~= s.skip(s.len() - trim_front(s).len()),
    decreases s.len(),
{
    if s.len() > 0 && white_space(s[0]) {
        lemma_trim_front_part(s.drop_first());
    }
}

proof fn lemma_trim_back_part(s: Seq<char>)
    ensures
        trim_back(s).len() <= s.len(),
        trim_back(s) =~= s.take(trim_back(s).len() as int),
    decreases s.len(),
{
    if s.len() > 0 && white_space(s.last()) {
        lemma_trim_back_part(s.drop_last());
    }
}

proof fn lemma_trimmed_ascii(s: Seq<char>)
    requires
        ascii(s),
    ensures
        ascii(trimmed(s)),
{
    let front = trim_front(s);
    lemma_trim_front_part(s);
    lemma_trim_back_part(front);
    let t = trimmed(s);
    assert forall|i: int| 0 <= i < t.len() implies (#[trigger] t[i]) as int <= 0x7f by {
        assert(t[i] == front[i]);
        assert(front[i] == s[i + s.len() - front.len()]);
    }
}

proof fn lemma_trim_front_ignores_case(a: Seq<char>, b: Seq<char>)
    requires
        same_but_case(a, b),
    ensures
        same_but_case(trim_front(a), trim_front(b)),
    decreases a.len(),
{
    if a.len() > 0 {
        assert(ascii_lower(a[0]) == ascii_lower(b[0]));
        assert(white_space(a[0]) == white_space(b[0]));
        let (x, y) = (a.drop_first(), b.drop_first());
        assert forall|i: int| 0 <= i < x.len() implies ascii_lower(#[trigger] x[i]) == ascii_lower(
            y[i],
        ) by {
            assert(ascii_lower(a[i + 1]) == ascii_lower(b[i + 1]));
        }
        lemma_trim_front_ignores_case(x, y);
    }
}

proof fn lemma_trim_back_ignores_case(a: Seq<char>, b: Seq<char>)
    requires
        same_but_case(a, b),
    ensures
        same_but_case(trim_back(a), trim_back(b)),
    decreases a.len(),
{
    if a.len() > 0 {
        let n = a.len() - 1;
        assert(ascii_lower(a[n]) == ascii_lower(b[n]));
        assert(white_space(a.last()) == white_space(b.last()));
        let (x, y) = (a.drop_last(), b.drop_last());
        assert forall|i: int| 0 <= i < x.len() implies ascii_lower(#[trigger] x[i]) == ascii_lower(
            y[i],
        ) by {
            assert(ascii_lower(a[i]) == ascii_lower(b[i]));
        }
        lemma_trim_back_ignores_case(x, y);
    }
}

proof fn lemma_trim_ignores_case(a: Seq<char>, b: Seq<char>)
    requires
        same_but_case(a, b),
    ensures
        same_but_case(trimmed(a), trimmed(b)),
{
    lemma_trim_front_ignores_case(a, b);
    lemma_trim_back_ignores_case(trim_front(a), trim_front(b));
}

proof fn lemma_blank_front(before: Seq<char>, s: Seq<char>)
    requires
        blank(before),
    ensures
        trim_front(before + s) == trim_front(s),
    decreases before.len(),
{
    if before.len() > 0 {
        assert((before + s)[0] == before[0]);
        assert((before + s).drop_first() =~= before.drop_first() + s);
        assert forall|i: int| 0 <= i < before.drop_first().len() implies white_space(
            #[trigger] before.drop_first()[i],
        ) by {
            assert(before.drop_first()[i] == before[i + 1]);
        }
        lemma_blank_front(before.drop_first(), s);
    } else {
        assert(before + s =~= s);
    }
}

proof fn lemma_blank_back(s: Seq<char>, after: Seq<char>)
    requires
        blank(after),
    ensures
        trim_back(s + after) == trim_back(s),
    decreases after.len(),
{
    if after.len() > 0 {
        assert((s + after).last() == after.last());
        assert((s + after).drop_last() =~= s + after.drop_last());
        lemma_blank_back(s, after.drop_last());
    } else {
        assert(s + after =~= s);
    }
}

proof fn lemma_front_stops(s: Seq<char>, after: Seq<char>)
    requires
        trim_front(s).len() > 0,
    ensures
        trim_front(s + after) == trim_front(s) + after,
    decreases s.len(),
{
    if white_space(s[0]) {
        assert((s + after).drop_first() =~= s.drop_first() + after);
        lemma_front_stops(s.drop_first(), after);
    }
}

proof fn lemma_front_passes(s: Seq<char>, after: Seq<char>)
    requires
        trim_front(s).len() == 0,
    ensures
        trim_front(s + after) == trim_front(after),
    decreases s.len(),
{
    if s.len() > 0 {
        assert((s + after).drop_first() =~= s.drop_first() + after);
        lemma_front_passes(s.drop_first(), after);
    } else {
        assert(s + after =~= after);
    }
}

proof fn lemma_trim_front_head(s: Seq<char>)
    ensures
        trim_front(s).len() > 0 ==> !white_space(trim_front(s)[0]),
    decreases s.len(),
{
    if s.len() > 0 && white_space(s[0]) {
        lemma_trim_front_head(s.drop_first());
    }
}

proof fn lemma_trim_back_ends(s: Seq<char>)
    ensures
        trim_back(s).len() > 0 ==> !white_space(trim_back(s).last()) && trim_back(s)[0] == s[0],
        trim_back(trim_back(s)) == trim_back(s),
    decreases s.len(),
{
    if s.len() > 0 && white_space(s.last()) {
        lemma_trim_back_ends(s.drop_last());
    }
}

} // verus!
