//! Text helpers shared by the handlers: comparing string slices and filling
//! in the `{}` placeholder of a template.

use vstd::prelude::*;
use vstd::std_specs::iter::IteratorSpec;
use vstd::string::StringSliceAdditionalSpecFns;

verus! {

/// Whether two string slices hold the same characters.
pub fn text_eq(a: &str, b: &str) -> (same: bool)
    ensures
        same == (a@ == b@),
{
    let x = a.as_bytes();
    let y = b.as_bytes();
    proof {
        // Equal encodings decode to equal texts.
        vstd::utf8::encode_utf8_decode_utf8(a@);
        vstd::utf8::encode_utf8_decode_utf8(b@);
    }
    if x.len() != y.len() {
        return false;
    }
    let mut i: usize = 0;
    while i < x.len()
        invariant
            x@ == a.spec_bytes(),
            y@ == b.spec_bytes(),
            x@.len() == y@.len(),
            i <= x@.len(),
            forall|j: int| 0 <= j < i ==> x@[j] == y@[j],
        decreases x@.len() - i,
    {
        if x[i] != y[i] {
            return false;
        }
        i += 1;
    }
    assert(x@ =~= y@);
    true
}

/// Whether the placeholder `{}` starts at position `at` of `text`.
pub open spec fn placeholder_at(text: Seq<char>, at: int) -> bool {
    &&& 0 <= at
    &&& at + 1 < text.len()
    &&& text[at] == '{'
    &&& text[at + 1] == '}'
}

/// `template` with every `{}` replaced by `value`, scanning from the left.
pub open spec fn substituted(template: Seq<char>, value: Seq<char>) -> Seq<char>
    decreases template.len(),
{
    if template.len() == 0 {
        Seq::empty()
    } else if placeholder_at(template, 0) {
        value + substituted(template.skip(2), value)
    } else {
        seq![template[0]] + substituted(template.skip(1), value)
    }
}

/// Characters in front of the first placeholder are copied unchanged.
pub proof fn lemma_substituted_copies_run(template: Seq<char>, value: Seq<char>, run: int)
    requires
        0 <= run <= template.len(),
        forall|j: int| 0 <= j < run ==> !placeholder_at(template, j),
    ensures
        substituted(template, value) == template.take(run) + substituted(
            template.skip(run),
            value,
        ),
    decreases run,
{
    if run == 0 {
        assert(template.skip(0) =~= template);
    } else {
        let rest = template.skip(1);
        assert forall|j: int| 0 <= j < run - 1 implies !placeholder_at(rest, j) by {
            assert(!placeholder_at(template, j + 1));
        }
        lemma_substituted_copies_run(rest, value, run - 1);
        assert(rest.skip(run - 1) =~= template.skip(run));
    }
}

/// A template of the form `before{}after`, where `before` holds no
/// placeholder, becomes `before`, the value, and the filled-in `after`.
pub proof fn lemma_substituted_at_placeholder(
    before: Seq<char>,
    after: Seq<char>,
    value: Seq<char>,
)
    requires
        forall|j: int| 0 <= j < before.len() ==> !placeholder_at(before + seq!['{', '}'] + after, j),
    ensures
        substituted(before + seq!['{', '}'] + after, value) == before + value + substituted(
            after,
            value,
        ),
{
    let template = before + seq!['{', '}'] + after;
    let tail = template.skip(before.len() as int);
    lemma_substituted_copies_run(template, value, before.len() as int);
    assert(tail.skip(2) =~= after);
}

/// A template without placeholder is left as it is.
pub proof fn lemma_substituted_without_placeholder(template: Seq<char>, value: Seq<char>)
    requires
        forall|j: int| 0 <= j < template.len() ==> !placeholder_at(template, j),
    ensures
        substituted(template, value) == template,
{
    lemma_substituted_copies_run(template, value, template.len() as int);
}

/// No placeholder starts in front of position `upto` of `text`.
pub open spec fn clear_before(text: Seq<char>, upto: int) -> bool
    decreases upto,
{
    upto <= 0 || (!placeholder_at(text, upto - 1) && clear_before(text, upto - 1))
}

/// `clear_before` speaks of every position in front of `upto`.
pub proof fn lemma_clear_before(text: Seq<char>, upto: int)
    requires
        clear_before(text, upto),
    ensures
        forall|j: int| 0 <= j < upto ==> !placeholder_at(text, j),
    decreases upto,
{
    if upto > 0 {
        lemma_clear_before(text, upto - 1);
    }
}

/// Replaces every `{}` in `template` by `value`.
pub fn substitute(template: &str, value: &str) -> (filled: String)
    ensures
        filled@ == substituted(template@, value@),
{
    let len = template.unicode_len();
    let mut filled = String::new();
    // Start of the run of characters not yet copied to `filled`.
    let mut start: usize = 0;
    // Whether the character just seen is a `{` that may open a placeholder.
    let mut open = false;
    let mut at: usize = 0;
    let mut chars = template.chars();
    proof {
        vstd::string::axiom_spec_iter(template);
        assert(template@.skip(0) =~= template@);
    }
    while at < len
        invariant
            len == template@.len(),
            start <= at <= len,
            chars.remaining() == template@.skip(at as int),
            open ==> start < at && template@[at - 1] == '{',
            forall|j: int| start <= j < at - 1 ==> !placeholder_at(template@, j),
            !open && at > start ==> !placeholder_at(template@, at - 1),
            filled@ + substituted(template@.skip(start as int), value@) == substituted(
                template@,
                value@,
            ),
        decreases len - at,
    {
        proof {
            broadcast use vstd::string::next_postcondition;
        }
        let c = match chars.next() {
            Some(c) => c,
            None => vstd::pervasive::unreached(),
        };
        if open && c == '}' {
            let run = template.substring_char(start, at - 1);
            proof {
                let pending = template@.skip(start as int);
                assert forall|j: int| 0 <= j < at - 1 - start implies !placeholder_at(
                    pending,
                    j,
                ) by {
                    assert(!placeholder_at(template@, start + j));
                }
                lemma_substituted_copies_run(pending, value@, at - 1 - start);
                let tail = pending.skip(at - 1 - start);
                assert(tail.skip(2) =~= template@.skip(at + 1));
            }
            filled.append(run);
            filled.append(value);
            start = at + 1;
            open = false;
        } else {
            open = c == '{';
        }
        at += 1;
    }
    let run = template.substring_char(start, len);
    proof {
        let pending = template@.skip(start as int);
        assert forall|j: int| 0 <= j < pending.len() implies !placeholder_at(pending, j) by {
            if placeholder_at(pending, j) {
                assert(placeholder_at(template@, start + j));
            }
        }
        lemma_substituted_without_placeholder(pending, value@);
    }
    filled.append(run);
    filled
}

} // verus!
