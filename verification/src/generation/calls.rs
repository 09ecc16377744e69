//! Where the text of a method calls the module's allocator and
//! deallocator.
//!
//! A method reaches for the allocator as `this._alloc` and for the
//! deallocator as `this._dealloc`, each time to call it. So a call of the
//! allocator is found where the text spells `._alloc(`, and a call of the
//! deallocator where it spells `._dealloc(`. The names of functions and
//! variables are parts of the text too; they are written without a `.`.

use crate::indented_write::{indent_text, primed_after, spaces};
use vstd::prelude::*;
use vstd::string::*;

verus! {

/// How a call of the allocator is spelled.
pub open spec fn alloc_word() -> Seq<char> {
    "._alloc("@
}

/// How a call of the deallocator is spelled.
pub open spec fn dealloc_word() -> Seq<char> {
    "._dealloc("@
}

/// Whether `word` is fit to be looked for: it begins with `._`, and has
/// no other `.` in it, nor a space or a line break.
pub open spec fn is_call_word(word: Seq<char>) -> bool {
    &&& word.len() >= 3
    &&& word[0] == '.'
    &&& word[1] == '_'
    &&& forall|j: int|
        1 <= j < word.len() ==> word[j] != '.' && word[j] != ' ' && word[j] != '\n'
}

/// Whether `text` spells `word` from position `k` on.
pub open spec fn spells_at(text: Seq<char>, word: Seq<char>, k: int) -> bool {
    &&& 0 <= k
    &&& k + word.len() <= text.len()
    &&& text[k] == word[0]
    &&& text[k + 1] == word[1]
    &&& text[k + 2] == word[2]
    &&& text.subrange(k, k + word.len()) == word
}

/// At how many positions `text` spells `word`.
pub open spec fn spelled(text: Seq<char>, word: Seq<char>) -> nat
    decreases text.len(),
{
    if text.len() == 0 {
        0
    } else if spells_at(text, word, text.len() - word.len()) {
        spelled(text.drop_last(), word) + 1
    } else {
        spelled(text.drop_last(), word)
    }
}

/// How often a text calls the module's allocator.
pub open spec fn allocator_calls(text: Seq<char>) -> nat {
    spelled(text, alloc_word())
}

/// How often a text calls the module's deallocator.
pub open spec fn deallocator_calls(text: Seq<char>) -> nat {
    spelled(text, dealloc_word())
}

/// Whether the last `j` characters of `text` are the first `j` of `word`.
pub open spec fn ends_with_start(text: Seq<char>, word: Seq<char>, j: int) -> bool {
    &&& 1 <= j <= word.len()
    &&& j <= text.len()
    &&& text.subrange(text.len() - j, text.len() as int) == word.take(j)
}

/// Whether `text` stops after the first `j` characters of `word`, in the
/// middle of it.
pub open spec fn stops_within(text: Seq<char>, word: Seq<char>, j: int) -> bool {
    &&& 1 <= j < word.len()
    &&& j <= text.len()
    &&& text[text.len() - j] == word[0]
    &&& (j >= 2 ==> text[text.len() - j + 1] == word[1])
    &&& (j >= 3 ==> text[text.len() - j + 2] == word[2])
    &&& ends_with_start(text, word, j)
}

/// Whether `text` does not stop in the middle of `word`.
#[verifier::opaque]
pub open spec fn closed_end(text: Seq<char>, word: Seq<char>) -> bool {
    forall|j: int| !(#[trigger] stops_within(text, word, j))
}

/// Whether no `.` stands in a text.
pub open spec fn dotless(text: Seq<char>) -> bool {
    forall|k: int| 0 <= k < text.len() ==> text[k] != '.'
}

/// Whether a text calls the allocator `allocs` times and the deallocator
/// `frees` times, and does not stop in the middle of such a call.
pub open spec fn tally(text: Seq<char>, allocs: nat, frees: nat) -> bool {
    &&& allocator_calls(text) == allocs
    &&& deallocator_calls(text) == frees
    &&& closed_end(text, alloc_word())
    &&& closed_end(text, dealloc_word())
}

/// A text that is shorter than a word does not spell it.
pub proof fn lemma_short(text: Seq<char>, word: Seq<char>)
    requires
        text.len() < word.len(),
    ensures
        spelled(text, word) == 0,
    decreases text.len(),
{
    if text.len() > 0 {
        lemma_short(text.drop_last(), word);
    }
}

/// A text that spells a word nowhere spells it no times.
pub proof fn lemma_spelled_nowhere(text: Seq<char>, word: Seq<char>)
    requires
        word.len() >= 3,
        forall|k: int| !spells_at(text, word, k),
    ensures
        spelled(text, word) == 0,
    decreases text.len(),
{
    if text.len() > 0 {
        let before = text.drop_last();
        assert forall|k: int| !spells_at(before, word, k) by {
            if spells_at(before, word, k) {
                assert(text.subrange(k, k + word.len()) =~= before.subrange(k, k + word.len()));
                assert(text[k] == before[k]);
                assert(text[k + 1] == before[k + 1]);
                assert(text[k + 2] == before[k + 2]);
                assert(spells_at(text, word, k));
            }
        }
        lemma_spelled_nowhere(before, word);
    }
}

/// What two texts spell, one behind the other, is what each of them
/// spells, as long as the first does not stop in the middle of the word.
pub proof fn lemma_spelled_concat(a: Seq<char>, b: Seq<char>, word: Seq<char>)
    requires
        is_call_word(word),
        closed_end(a, word),
    ensures
        spelled(a + b, word) == spelled(a, word) + spelled(b, word),
    decreases b.len(),
{
    reveal(closed_end);
    if b.len() == 0 {
        assert(a + b =~= a);
    } else {
        let whole = a + b;
        let start = whole.len() - word.len();
        lemma_spelled_concat(a, b.drop_last(), word);
        assert(whole.drop_last() =~= a + b.drop_last());
        if b.len() >= word.len() {
            let inner = b.len() - word.len();
            assert(whole.subrange(start, whole.len() as int) =~= b.subrange(
                inner,
                b.len() as int,
            ));
            assert(whole[start] == b[inner]);
            assert(whole[start + 1] == b[inner + 1]);
            assert(whole[start + 2] == b[inner + 2]);
            assert(spells_at(whole, word, start) == spells_at(b, word, inner));
        } else {
            assert(!spells_at(b, word, b.len() - word.len()));
            if spells_at(whole, word, start) {
                let j = word.len() - b.len();
                let spelling = whole.subrange(start, whole.len() as int);
                assert(a.subrange(a.len() - j, a.len() as int) =~= word.take(j)) by {
                    assert forall|i: int| 0 <= i < j implies a[a.len() - j + i] == word[i] by {
                        assert(spelling[i] == whole[start + i]);
                    }
                }
                assert(a[a.len() - j] == whole[start]);
                if j >= 2 {
                    assert(a[a.len() - j + 1] == whole[start + 1]);
                }
                if j >= 3 {
                    assert(a[a.len() - j + 2] == whole[start + 2]);
                }
                assert(stops_within(a, word, j));
            }
        }
    }
}

/// Two texts that do not stop in the middle of a word do not do so
/// together.
pub proof fn lemma_closed_end_concat(a: Seq<char>, b: Seq<char>, word: Seq<char>)
    requires
        is_call_word(word),
        closed_end(a, word),
        closed_end(b, word),
    ensures
        closed_end(a + b, word),
{
    reveal(closed_end);
    let whole = a + b;
    assert forall|j: int| !(#[trigger] stops_within(whole, word, j)) by {
        if stops_within(whole, word, j) {
            let tail = whole.subrange(whole.len() - j, whole.len() as int);
            if j <= b.len() {
                assert(b.subrange(b.len() - j, b.len() as int) =~= tail);
                assert(b[b.len() - j] == whole[whole.len() - j]);
                if j >= 2 {
                    assert(b[b.len() - j + 1] == whole[whole.len() - j + 1]);
                }
                if j >= 3 {
                    assert(b[b.len() - j + 2] == whole[whole.len() - j + 2]);
                }
                assert(stops_within(b, word, j));
            } else {
                let m = j - b.len();
                assert(a.subrange(a.len() - m, a.len() as int) =~= word.take(m)) by {
                    assert forall|i: int| 0 <= i < m implies a[a.len() - m + i] == word[i] by {
                        assert(tail[i] == whole[whole.len() - j + i]);
                    }
                }
                assert(a[a.len() - m] == whole[whole.len() - j]);
                if m >= 2 {
                    assert(a[a.len() - m + 1] == whole[whole.len() - j + 1]);
                }
                if m >= 3 {
                    assert(a[a.len() - m + 2] == whole[whole.len() - j + 2]);
                }
                assert(stops_within(a, word, m));
            }
        }
    }
}

/// The shapes of the two words that are looked for.
pub proof fn lemma_word_shapes()
    ensures
        is_call_word(alloc_word()),
        is_call_word(dealloc_word()),
        alloc_word().len() == 8,
        dealloc_word().len() == 10,
        alloc_word()[2] == 'a',
        dealloc_word()[2] == 'd',
        ends_with_bracket(alloc_word()),
        ends_with_bracket(dealloc_word()),
{
    reveal_strlit("._alloc(");
    reveal_strlit("._dealloc(");
}

/// A word that begins with its only `.` does not stop in the middle of
/// itself.
proof fn lemma_word_is_closed(word: Seq<char>)
    requires
        is_call_word(word),
    ensures
        closed_end(word, word),
        spelled(word, word) == 1,
{
    reveal(closed_end);
    assert forall|j: int| !(#[trigger] stops_within(word, word, j)) by {
        if stops_within(word, word, j) {
            assert(word[word.len() - j] != '.');
        }
    }
    lemma_short(word.drop_last(), word);
    assert(word.subrange(0, word.len() as int) =~= word);
    assert(spells_at(word, word, 0));
}

/// A call of the allocator is no call of the deallocator, and a call of
/// the deallocator none of the allocator.
proof fn lemma_words_differ()
    ensures
        spelled(alloc_word(), dealloc_word()) == 0,
        spelled(dealloc_word(), alloc_word()) == 0,
        closed_end(alloc_word(), dealloc_word()),
        closed_end(dealloc_word(), alloc_word()),
{
    reveal(closed_end);
    lemma_word_shapes();
    let a = alloc_word();
    let d = dealloc_word();
    lemma_short(a, d);
    assert forall|k: int| !spells_at(d, a, k) by {
        if spells_at(d, a, k) {
            assert(d[k] == '.');
            assert(k == 0);
        }
    }
    lemma_spelled_nowhere(d, a);
    assert forall|j: int| !(#[trigger] stops_within(a, d, j)) by {
        if stops_within(a, d, j) {
            assert(a[a.len() - j] == '.');
            assert(j == 8);
        }
    }
    assert forall|j: int| !(#[trigger] stops_within(d, a, j)) by {
        if stops_within(d, a, j) {
            assert(d[d.len() - j] == '.');
            assert(j == 10);
        }
    }
}

/// The two words that are looked for: each is one call of its kind, and
/// no text at all is none.
pub proof fn lemma_words()
    ensures
        is_call_word(alloc_word()),
        is_call_word(dealloc_word()),
        alloc_word().len() == 8,
        dealloc_word().len() == 10,
        alloc_word()[2] == 'a',
        dealloc_word()[2] == 'd',
        tally(alloc_word(), 1, 0),
        tally(dealloc_word(), 0, 1),
        tally(Seq::empty(), 0, 0),
{
    lemma_word_shapes();
    lemma_word_is_closed(alloc_word());
    lemma_word_is_closed(dealloc_word());
    lemma_words_differ();
    lemma_tally_dotless(Seq::empty());
}

/// What two texts spell, one behind the other, wherever such a count is
/// asked for.
pub broadcast proof fn lemma_spelled_of_sum(a: Seq<char>, b: Seq<char>, word: Seq<char>)
    ensures
        is_call_word(word) && closed_end(a, word) ==> #[trigger] spelled(a + b, word) == spelled(
            a,
            word,
        ) + spelled(b, word),
{
    if is_call_word(word) && closed_end(a, word) {
        lemma_spelled_concat(a, b, word);
    }
}

/// How two texts end, one behind the other, wherever that is asked for.
pub broadcast proof fn lemma_end_of_sum(a: Seq<char>, b: Seq<char>, word: Seq<char>)
    ensures
        is_call_word(word) && closed_end(a, word) && closed_end(b, word) ==> #[trigger] closed_end(
            a + b,
            word,
        ),
{
    if is_call_word(word) && closed_end(a, word) && closed_end(b, word) {
        lemma_closed_end_concat(a, b, word);
    }
}

pub broadcast group group_sums {
    lemma_spelled_of_sum,
    lemma_end_of_sum,
}

/// Whether a call word ends with its opening bracket and has no other in
/// it, nor a quote.
pub open spec fn ends_with_bracket(word: Seq<char>) -> bool {
    &&& word.len() >= 1
    &&& word[word.len() - 1] == '('
    &&& forall|j: int| 0 <= j < word.len() - 1 ==> word[j] != '('
    &&& forall|j: int| 0 <= j < word.len() ==> word[j] != '\''
}

/// Whether the name of a function spells no call itself, not even with the
/// bracket that follows it in the first line of its method.
pub open spec fn is_plain_name(name: Seq<char>) -> bool {
    allocator_calls(name + "("@) == 0 && deallocator_calls(name + "("@) == 0
}

/// A text that spells a word somewhere spells it at least once.
pub proof fn lemma_spelled_somewhere(text: Seq<char>, word: Seq<char>, k: int)
    requires
        word.len() >= 3,
        spells_at(text, word, k),
    ensures
        spelled(text, word) >= 1,
    decreases text.len(),
{
    if k + word.len() < text.len() {
        let before = text.drop_last();
        assert(before.subrange(k, k + word.len()) =~= text.subrange(k, k + word.len()));
        assert(before[k] == text[k]);
        assert(before[k + 1] == text[k + 1]);
        assert(before[k + 2] == text[k + 2]);
        lemma_spelled_somewhere(before, word, k);
    }
}

/// A text that ends with an opening bracket does not stop in the middle of
/// a word that has its only bracket at its end.
proof fn lemma_closed_by_bracket(text: Seq<char>, word: Seq<char>)
    requires
        is_call_word(word),
        ends_with_bracket(word),
        text.len() >= 1,
        text[text.len() - 1] == '(',
    ensures
        closed_end(text, word),
{
    reveal(closed_end);
    assert forall|j: int| !(#[trigger] stops_within(text, word, j)) by {
        if stops_within(text, word, j) {
            let tail = text.subrange(text.len() - j, text.len() as int);
            assert(tail[j - 1] == text[text.len() - 1]);
            assert(word.take(j)[j - 1] == word[j - 1]);
        }
    }
}

/// A name that spells no word with the bracket behind it spells none with
/// the quote and the brackets behind it that follow it in a call.
proof fn lemma_quoted_name(name: Seq<char>, word: Seq<char>)
    requires
        is_call_word(word),
        ends_with_bracket(word),
        spelled(name + "("@, word) == 0,
    ensures
        spelled(name + "']("@, word) == 0,
        closed_end(name + "("@, word),
        closed_end(name + "']("@, word),
{
    reveal_strlit("(");
    reveal_strlit("'](");
    let bare = name + "("@;
    let quoted = name + "']("@;
    lemma_closed_by_bracket(bare, word);
    lemma_closed_by_bracket(quoted, word);
    assert forall|k: int| !spells_at(quoted, word, k) by {
        if spells_at(quoted, word, k) {
            let spelling = quoted.subrange(k, k + word.len());
            if k + word.len() <= name.len() {
                assert(bare.subrange(k, k + word.len()) =~= spelling);
                assert(bare[k] == quoted[k]);
                assert(bare[k + 1] == quoted[k + 1]);
                assert(bare[k + 2] == quoted[k + 2]);
                lemma_spelled_somewhere(bare, word, k);
            } else if k < name.len() {
                assert(spelling[name.len() - k] == quoted[name.len() as int]);
                assert(quoted[name.len() as int] == '\'');
                assert(false);
            } else {
                assert(quoted[k] == '.');
                assert(false);
            }
        }
    }
    lemma_spelled_nowhere(quoted, word);
}

/// A plain name calls nothing where it is written: neither with the
/// bracket behind it that opens the list of parameters, nor with the quote
/// and brackets behind it that follow it in the call of the function.
pub proof fn lemma_plain_name(name: Seq<char>)
    requires
        is_plain_name(name),
    ensures
        tally(name + "("@, 0, 0),
        tally(name + "']("@, 0, 0),
{
    lemma_word_shapes();
    lemma_quoted_name(name, alloc_word());
    lemma_quoted_name(name, dealloc_word());
}

/// A name without `.` is plain.
pub proof fn lemma_dotless_is_plain(name: Seq<char>)
    requires
        dotless(name),
    ensures
        is_plain_name(name),
{
    reveal_strlit("(");
    lemma_tally_dotless(name + "("@);
}

/// A text without `.` calls nothing.
pub proof fn lemma_tally_dotless(text: Seq<char>)
    requires
        dotless(text),
    ensures
        tally(text, 0, 0),
{
    reveal(closed_end);
    lemma_word_shapes();
    lemma_spelled_nowhere(text, alloc_word());
    lemma_spelled_nowhere(text, dealloc_word());
}

/// A text that spells neither word anywhere, and does not stop in the
/// middle of either, calls nothing.
pub proof fn lemma_tally_quiet(text: Seq<char>)
    requires
        forall|k: int|
            !spells_at(text, alloc_word(), k) && !spells_at(text, dealloc_word(), k),
        forall|j: int|
            !stops_within(text, alloc_word(), j) && !stops_within(text, dealloc_word(), j),
    ensures
        tally(text, 0, 0),
{
    reveal(closed_end);
    lemma_word_shapes();
    lemma_spelled_nowhere(text, alloc_word());
    lemma_spelled_nowhere(text, dealloc_word());
}

proof fn lemma_spelled_spaces(text: Seq<char>, n: nat, word: Seq<char>)
    requires
        is_call_word(word),
    ensures
        spelled(text + spaces(n), word) == spelled(text, word),
    decreases n,
{
    if n == 0 {
        assert(text + spaces(0) =~= text);
    } else {
        let whole = text + spaces(n);
        assert(whole.drop_last() =~= text + spaces((n - 1) as nat));
        lemma_spelled_spaces(text, (n - 1) as nat, word);
        let start = whole.len() - word.len();
        if spells_at(whole, word, start) {
            let spelling = whole.subrange(start, whole.len() as int);
            assert(spelling[word.len() - 1] == whole[whole.len() - 1]);
            assert(whole[whole.len() - 1] == ' ');
            assert(false);
        }
    }
}

/// A text with one more character ends with the start of a word exactly
/// if the character is the next of the word and the text before it ends
/// with what stands before that in the word.
proof fn lemma_ends_with_start_push(text: Seq<char>, c: char, word: Seq<char>, j: int)
    requires
        2 <= j <= word.len(),
    ensures
        ends_with_start(text.push(c), word, j) == (c == word[j - 1] && ends_with_start(
            text,
            word,
            j - 1,
        )),
{
    let more = text.push(c);
    if j <= more.len() {
        let tail = more.subrange(more.len() - j, more.len() as int);
        let short = text.subrange(text.len() - (j - 1), text.len() as int);
        if ends_with_start(more, word, j) {
            assert(tail[j - 1] == c);
            assert(word.take(j)[j - 1] == word[j - 1]);
            assert(short =~= word.take(j - 1)) by {
                assert forall|i: int| 0 <= i < j - 1 implies short[i] == word[i] by {
                    assert(tail[i] == word.take(j)[i]);
                }
            }
        }
        if c == word[j - 1] && ends_with_start(text, word, j - 1) {
            assert(tail =~= word.take(j)) by {
                assert forall|i: int| 0 <= i < j implies tail[i] == word[i] by {
                    if i < j - 1 {
                        assert(short[i] == word.take(j - 1)[i]);
                    }
                }
            }
        }
    }
}

/// An indented text ends with the start of a word exactly if the text
/// itself does.
proof fn lemma_indent_tail(
    text: Seq<char>,
    indent: nat,
    primed: bool,
    word: Seq<char>,
    j: int,
)
    requires
        is_call_word(word),
        1 <= j <= word.len(),
    ensures
        ends_with_start(indent_text(text, indent, primed), word, j) == ends_with_start(
            text,
            word,
            j,
        ),
        text.len() > 0 ==> indent_text(text, indent, primed).len() > 0 && indent_text(
            text,
            indent,
            primed,
        ).last() == text.last(),
        text.len() == 0 ==> indent_text(text, indent, primed).len() == 0,
    decreases j, text.len(),
{
    if text.len() > 0 {
        let before = text.drop_last();
        let last = text.last();
        let done = indent_text(before, indent, primed);
        let out = indent_text(text, indent, primed);
        lemma_indent_tail(before, indent, primed, word, 1);
        assert(text =~= before.push(last));
        if j == 1 {
            assert(out.subrange(out.len() - 1, out.len() as int) =~= seq![out.last()]);
            assert(text.subrange(text.len() - 1, text.len() as int) =~= seq![text.last()]);
            assert(word.take(1) =~= seq![word[0]]);
            assert(seq![out.last()][0] == out.last());
            assert(seq![word[0]][0] == word[0]);
        } else if last != '\n' && primed_after(before, primed) && indent > 0 {
            let padded = done + spaces(indent);
            assert(out == padded.push(last));
            lemma_ends_with_start_push(padded, last, word, j);
            lemma_ends_with_start_push(before, last, word, j);
            if ends_with_start(padded, word, j - 1) {
                let tail = padded.subrange(padded.len() - (j - 1), padded.len() as int);
                assert(tail[j - 2] == padded[padded.len() - 1]);
                assert(padded[padded.len() - 1] == ' ');
                assert(word.take(j - 1)[j - 2] == word[j - 2]);
                assert(false);
            }
            if ends_with_start(before, word, j - 1) {
                let tail = before.subrange(before.len() - (j - 1), before.len() as int);
                assert(tail[j - 2] == before[before.len() - 1]);
                assert(before.last() == '\n');
                assert(word.take(j - 1)[j - 2] == word[j - 2]);
                assert(false);
            }
        } else {
            if last != '\n' && primed_after(before, primed) {
                assert(done + spaces(0) =~= done);
            }
            assert(out == done.push(last));
            lemma_ends_with_start_push(done, last, word, j);
            lemma_ends_with_start_push(before, last, word, j);
            lemma_indent_tail(before, indent, primed, word, j - 1);
        }
    }
}

/// Whether a text spells a word at its very end.
proof fn lemma_spells_at_end(text: Seq<char>, word: Seq<char>)
    requires
        is_call_word(word),
    ensures
        spells_at(text, word, text.len() - word.len()) == ends_with_start(
            text,
            word,
            word.len() as int,
        ),
{
    assert(word.take(word.len() as int) =~= word);
    let start = text.len() - word.len();
    if ends_with_start(text, word, word.len() as int) {
        let tail = text.subrange(start, text.len() as int);
        assert(tail[0] == text[start]);
        assert(tail[1] == text[start + 1]);
        assert(tail[2] == text[start + 2]);
    }
}

/// Indentation neither adds nor takes away what a text spells.
pub proof fn lemma_spelled_indent(text: Seq<char>, indent: nat, primed: bool, word: Seq<char>)
    requires
        is_call_word(word),
    ensures
        spelled(indent_text(text, indent, primed), word) == spelled(text, word),
    decreases text.len(),
{
    if text.len() > 0 {
        let before = text.drop_last();
        let last = text.last();
        let done = indent_text(before, indent, primed);
        let out = indent_text(text, indent, primed);
        lemma_spelled_indent(before, indent, primed, word);
        lemma_indent_tail(text, indent, primed, word, word.len() as int);
        lemma_spells_at_end(text, word);
        lemma_spells_at_end(out, word);
        if last != '\n' && primed_after(before, primed) {
            let padded = done + spaces(indent);
            assert(out == padded.push(last));
            assert(out.drop_last() =~= padded);
            lemma_spelled_spaces(done, indent, word);
        } else {
            assert(out == done.push(last));
            assert(out.drop_last() =~= done);
        }
    }
}

/// An indented text does not stop in the middle of a word if the text
/// itself does not.
proof fn lemma_closed_end_indent(text: Seq<char>, indent: nat, primed: bool, word: Seq<char>)
    requires
        is_call_word(word),
        closed_end(text, word),
    ensures
        closed_end(indent_text(text, indent, primed), word),
{
    reveal(closed_end);
    let out = indent_text(text, indent, primed);
    assert forall|j: int| !(#[trigger] stops_within(out, word, j)) by {
        if stops_within(out, word, j) {
            lemma_indent_tail(text, indent, primed, word, j);
            let tail = text.subrange(text.len() - j, text.len() as int);
            assert(tail[0] == text[text.len() - j]);
            if j >= 2 {
                assert(tail[1] == text[text.len() - j + 1]);
            }
            if j >= 3 {
                assert(tail[2] == text[text.len() - j + 2]);
            }
            assert(stops_within(text, word, j));
        }
    }
}

/// Indentation does not change what a text calls.
pub proof fn lemma_tally_indent(
    text: Seq<char>,
    indent: nat,
    primed: bool,
    allocs: nat,
    frees: nat,
)
    requires
        tally(text, allocs, frees),
    ensures
        tally(indent_text(text, indent, primed), allocs, frees),
{
    lemma_words();
    lemma_spelled_indent(text, indent, primed, alloc_word());
    lemma_spelled_indent(text, indent, primed, dealloc_word());
    lemma_closed_end_indent(text, indent, primed, alloc_word());
    lemma_closed_end_indent(text, indent, primed, dealloc_word());
}

} // verus!
