//! A text writer that indents every line written through it, and that can
//! open further indented scopes inside itself.


use vstd::prelude::*;
use vstd::string::*;

verus! {

/// One scope of indentation.
#[derive(Debug, Clone, Copy, PartialEq, Eq, Structural)]
pub struct Level {
    /// Number of spaces put before each line.
    pub indent: u64,
    /// True if nothing has been written through this scope since the last
    /// line break.
    pub is_primed: bool,
}

/// What a writer is, as far as its callers can tell: the text that has
/// reached the underlying buffer, and the open scopes from the outermost to
/// the innermost.
pub struct WriterState {
    pub out: Seq<char>,
    pub levels: Seq<Level>,
}

/// `n` spaces.
pub open spec fn spaces(n: nat) -> Seq<char> {
    Seq::new(n, |i: int| ' ')
}

/// Whether a scope is at the start of a line after `s` has been written
/// through it.
pub open spec fn primed_after(s: Seq<char>, primed: bool) -> bool {
    if s.len() == 0 {
        primed
    } else {
        s.last() == '\n'
    }
}

/// What one scope turns `s` into: each character in turn, with `indent`
/// spaces before every character that starts a line and is not itself a line
/// break.
pub open spec fn indent_text(s: Seq<char>, indent: nat, primed: bool) -> Seq<char>
    decreases s.len(),
{
    if s.len() == 0 {
        Seq::empty()
    } else {
        let before = s.drop_last();
        let c = s.last();
        if c == '\n' {
            indent_text(before, indent, primed).push(c)
        } else if primed_after(before, primed) {
            (indent_text(before, indent, primed) + spaces(indent)).push(c)
        } else {
            indent_text(before, indent, primed).push(c)
        }
    }
}

/// The text that reaches the buffer when `s` is written into the innermost
/// of `levels`.
pub open spec fn descend(levels: Seq<Level>, s: Seq<char>) -> Seq<char>
    decreases levels.len(),
{
    if levels.len() == 0 {
        s
    } else {
        let top = levels.last();
        descend(levels.drop_last(), indent_text(s, top.indent as nat, top.is_primed))
    }
}

/// The scopes after `s` has been written into the innermost of them.
pub open spec fn settle(levels: Seq<Level>, s: Seq<char>) -> Seq<Level>
    decreases levels.len(),
{
    if levels.len() == 0 {
        levels
    } else {
        let top = levels.last();
        settle(levels.drop_last(), indent_text(s, top.indent as nat, top.is_primed)).push(
            Level { indent: top.indent, is_primed: primed_after(s, top.is_primed) },
        )
    }
}

impl WriterState {
    /// The writer after `s` has been written to it.
    pub open spec fn write(self, s: Seq<char>) -> WriterState {
        WriterState { out: self.out + descend(self.levels, s), levels: settle(self.levels, s) }
    }

    /// The writer with a fresh innermost scope.
    pub open spec fn enter(self, indent: nat) -> WriterState {
        WriterState {
            out: self.out,
            levels: self.levels.push(Level { indent: indent as u64, is_primed: true }),
        }
    }

    /// The writer with its innermost scope closed.
    pub open spec fn leave(self) -> WriterState {
        if self.levels.len() == 0 {
            self
        } else {
            WriterState { out: self.out, levels: self.levels.drop_last() }
        }
    }
}

/// Writing two texts one after the other through one scope is writing their
/// concatenation.
pub proof fn lemma_indent_concat(a: Seq<char>, b: Seq<char>, indent: nat, primed: bool)
    ensures
        indent_text(a + b, indent, primed) == indent_text(a, indent, primed) + indent_text(
            b,
            indent,
            primed_after(a, primed),
        ),
        primed_after(a + b, primed) == primed_after(b, primed_after(a, primed)),
    decreases b.len(),
{
    if b.len() == 0 {
        assert(a + b =~= a);
        assert(indent_text(a, indent, primed) + Seq::<char>::empty() =~= indent_text(
            a,
            indent,
            primed,
        ));
    } else {
        let b0 = b.drop_last();
        lemma_indent_concat(a, b0, indent, primed);
        assert((a + b).drop_last() =~= a + b0);
        assert((a + b).last() == b.last());
        let left = indent_text(a, indent, primed);
        let mid = indent_text(b0, indent, primed_after(a, primed));
        if b.last() == '\n' {
            assert((left + mid).push(b.last()) =~= left + mid.push(b.last()));
        } else if primed_after(b0, primed_after(a, primed)) {
            assert(((left + mid) + spaces(indent)).push(b.last()) =~= left + (mid + spaces(
                indent,
            )).push(b.last()));
        } else {
            assert((left + mid).push(b.last()) =~= left + mid.push(b.last()));
        }
    }
}

/// A scope of no width changes nothing.
pub proof fn lemma_indent_zero(s: Seq<char>, primed: bool)
    ensures
        indent_text(s, 0, primed) == s,
    decreases s.len(),
{
    if s.len() > 0 {
        lemma_indent_zero(s.drop_last(), primed);
        assert(s.drop_last() + spaces(0) =~= s.drop_last());
        assert(s.drop_last().push(s.last()) =~= s);
    }
}

/// Two writes in a row are one write of the concatenation.
pub proof fn lemma_write_concat(st: WriterState, a: Seq<char>, b: Seq<char>)
    ensures
        st.write(a).write(b) == st.write(a + b),
{
    lemma_levels_concat(st.levels, a, b);
    assert(st.out + descend(st.levels, a) + descend(settle(st.levels, a), b) =~= st.out + (descend(
        st.levels,
        a,
    ) + descend(settle(st.levels, a), b)));
}

proof fn lemma_levels_concat(levels: Seq<Level>, a: Seq<char>, b: Seq<char>)
    ensures
        descend(levels, a + b) == descend(levels, a) + descend(settle(levels, a), b),
        settle(levels, a + b) == settle(settle(levels, a), b),
        settle(levels, a).len() == levels.len(),
    decreases levels.len(),
{
    if levels.len() == 0 {
    } else {
        let top = levels.last();
        let rest = levels.drop_last();
        let ia = indent_text(a, top.indent as nat, top.is_primed);
        let ib = indent_text(b, top.indent as nat, primed_after(a, top.is_primed));
        lemma_indent_concat(a, b, top.indent as nat, top.is_primed);
        lemma_levels_concat(rest, ia, ib);
        let after = settle(levels, a);
        assert(after.last() == Level {
            indent: top.indent,
            is_primed: primed_after(a, top.is_primed),
        });
        assert(after.drop_last() =~= settle(rest, ia));
    }
}

/// What is written inside a scope reaches the enclosing writer indented,
/// and closing the scope leaves the enclosing writer as if it had been
/// written that indented text itself.
pub proof fn lemma_scope(st: WriterState, indent: nat, s: Seq<char>)
    requires
        indent <= u64::MAX,
    ensures
        st.enter(indent).write(s).leave() == st.write(indent_text(s, indent, true)),
{
    let top = Level { indent: indent as u64, is_primed: true };
    let inner = st.levels.push(top);
    assert(inner.drop_last() =~= st.levels);
    assert(inner.last() == top);
    let after = settle(inner, s);
    assert(after.drop_last() =~= settle(st.levels, indent_text(s, indent, true)));
}

/// A text, then a scope with a text written inside it, then a text after
/// the scope has been closed: together they are one write of the first
/// text, the indented second one and the third.
pub proof fn lemma_block(
    st: WriterState,
    before: Seq<char>,
    indent: nat,
    inner: Seq<char>,
    after: Seq<char>,
)
    requires
        indent <= u64::MAX,
    ensures
        st.write(before).enter(indent).write(inner).leave().write(after) == st.write(
            before + indent_text(inner, indent, true) + after,
        ),
{
    lemma_scope(st.write(before), indent, inner);
    lemma_write_concat(st, before, indent_text(inner, indent, true));
    lemma_write_concat(st, before + indent_text(inner, indent, true), after);
}

/// Through a single scope of no width, a text reaches the buffer as it is.
pub proof fn lemma_plain(out: Seq<char>, primed: bool, s: Seq<char>)
    ensures
        (WriterState { out, levels: seq![Level { indent: 0, is_primed: primed }] }).write(s).out
            == out + s,
{
    let levels = seq![Level { indent: 0, is_primed: primed }];
    lemma_indent_zero(s, primed);
    assert(levels.drop_last() =~= Seq::<Level>::empty());
    assert(descend(levels, s) == descend(levels.drop_last(), indent_text(s, 0, primed)));
}

/// Writing nothing changes nothing.
pub proof fn lemma_write_empty(st: WriterState)
    ensures
        st.write(Seq::empty()) == st,
    decreases st.levels.len(),
{
    lemma_levels_empty(st.levels);
    assert(st.out + Seq::<char>::empty() =~= st.out);
}

proof fn lemma_levels_empty(levels: Seq<Level>)
    ensures
        descend(levels, Seq::empty()) == Seq::<char>::empty(),
        settle(levels, Seq::empty()) == levels,
    decreases levels.len(),
{
    if levels.len() > 0 {
        lemma_levels_empty(levels.drop_last());
        assert(settle(levels, Seq::empty()) =~= levels);
    }
}

/// A writer over a string buffer. Text written to it passes through every
/// open scope, innermost first, before it reaches the buffer.
pub struct IdentedWriter {
    inner: String,
    levels: Vec<Level>,
}

impl View for IdentedWriter {
    type V = WriterState;

    closed spec fn view(&self) -> WriterState {
        WriterState { out: self.inner@, levels: self.levels@ }
    }
}

/// Appends `n` spaces to `out`.
fn push_spaces(out: &mut String, n: u64)
    ensures
        final(out)@ == old(out)@ + spaces(n as nat),
{
    let mut i: u64 = 0;
    assert(old(out)@ + spaces(0) =~= old(out)@);
    while i < n
        invariant
            i <= n,
            out@ == old(out)@ + spaces(i as nat),
        decreases n - i,
    {
        out.push(' ');
        i = i + 1;
        assert(old(out)@ + spaces(i as nat) =~= (old(out)@ + spaces((i - 1) as nat)).push(' '));
    }
}

/// Passes `s` through one scope and appends the result to `out`.
fn indent_into(out: &mut String, s: &str, level: Level) -> (now: Level)
    ensures
        final(out)@ == old(out)@ + indent_text(s@, level.indent as nat, level.is_primed),
        now == (Level { indent: level.indent, is_primed: primed_after(s@, level.is_primed) }),
{
    let mut primed = level.is_primed;
    assert(old(out)@ + Seq::<char>::empty() =~= old(out)@);
    assert(s@.take(0) =~= Seq::<char>::empty());
    for c in it: s.chars()
        invariant
            it.seq() == s@,
            out@ == old(out)@ + indent_text(
                s@.take(it.index() as int),
                level.indent as nat,
                level.is_primed,
            ),
            primed == primed_after(s@.take(it.index() as int), level.is_primed),
    {
        let ghost before = s@.take(it.index() as int);
        let ghost upto = s@.take(it.index() + 1);
        assert(upto.drop_last() =~= before);
        assert(upto.last() == c);
        let ghost done = indent_text(before, level.indent as nat, level.is_primed);
        if c == '\n' {
            out.push(c);
            primed = true;
            assert(out@ =~= old(out)@ + done.push(c));
        } else {
            if primed {
                push_spaces(out, level.indent);
                primed = false;
                out.push(c);
                assert(out@ =~= old(out)@ + (done + spaces(level.indent as nat)).push(c));
            } else {
                out.push(c);
                assert(out@ =~= old(out)@ + done.push(c));
            }
        }
    }
    assert(s@.take(s@.len() as int) =~= s@);
    Level { indent: level.indent, is_primed: primed }
}

impl IdentedWriter {
    /// A writer over `inner` with one scope of `indent` spaces, at the start
    /// of a line.
    pub fn new(inner: String, indent: u32) -> (w: Self)
        ensures
            w@ == (WriterState {
                out: inner@,
                levels: seq![Level { indent: indent as u64, is_primed: true }],
            }),
    {
        let mut levels: Vec<Level> = Vec::new();
        levels.push(Level { indent: indent as u64, is_primed: true });
        assert(levels@ =~= seq![Level { indent: indent as u64, is_primed: true }]);
        IdentedWriter { inner, levels }
    }

    /// Gives the buffer back, with everything that was written.
    pub fn into_inner(self) -> (s: String)
        ensures
            s@ == self@.out,
    {
        self.inner
    }

    /// Writes `s` into the innermost scope.
    pub fn write_str(&mut self, s: &str)
        ensures
            final(self)@ == old(self)@.write(s@),
    {
        let mut text: String = s.to_owned();
        let mut i: usize = self.levels.len();
        let ghost start = self.levels@;
        let ghost all = settle(start, s@);
        proof {
            lemma_settle_len(start, s@);
            assert(start.take(i as int) =~= start);
            assert(all.take(i as int) =~= all);
            assert(self.levels@.skip(i as int) =~= all.skip(i as int));
        }
        while i > 0
            invariant
                i <= start.len(),
                self.levels.len() == start.len(),
                all == settle(start, s@),
                all.len() == start.len(),
                self.inner@ == old(self).inner@,
                descend(start, s@) == descend(start.take(i as int), text@),
                self.levels@.take(i as int) == start.take(i as int),
                self.levels@.skip(i as int) == all.skip(i as int),
                all.take(i as int) == settle(start.take(i as int), text@),
            decreases i,
        {
            let ghost upper = start.take(i as int);
            let ghost levels_before = self.levels@;
            i = i - 1;
            let level = self.levels[i];
            let mut next = String::new();
            let now = indent_into(&mut next, text.as_str(), level);
            self.levels.set(i, now);
            proof {
                assert(levels_before[i as int] == levels_before.take(i + 1)[i as int]);
                assert(upper.last() == level);
                assert(upper.drop_last() =~= start.take(i as int));
                assert(next@ =~= indent_text(text@, level.indent as nat, level.is_primed));
                lemma_settle_len(start.take(i as int), next@);
                assert(settle(upper, text@) == settle(start.take(i as int), next@).push(now));
                assert(descend(upper, text@) == descend(start.take(i as int), next@));
                assert(all[i as int] == all.take(i + 1)[i as int]);
                assert(all.take(i as int) =~= all.take(i + 1).drop_last());
                assert(self.levels@.take(i as int) =~= levels_before.take(i + 1).take(i as int));
                assert(start.take(i as int) =~= upper.take(i as int));
                assert(self.levels@.skip(i as int) =~= seq![now] + levels_before.skip(i + 1));
                assert(all.skip(i as int) =~= seq![now] + all.skip(i + 1));
            }
            text = next;
        }
        self.inner.append(text.as_str());
        proof {
            assert(start.take(0) =~= Seq::<Level>::empty());
            assert(self.levels@ =~= self.levels@.skip(0));
            assert(all =~= all.skip(0));
        }
    }
}

proof fn lemma_settle_len(levels: Seq<Level>, s: Seq<char>)
    ensures
        settle(levels, s).len() == levels.len(),
    decreases levels.len(),
{
    if levels.len() > 0 {
        let top = levels.last();
        lemma_settle_len(levels.drop_last(), indent_text(s, top.indent as nat, top.is_primed));
    }
}

/// Opening and closing indented scopes on a writer.
pub trait WriteExt {
    /// The writer's state.
    spec fn state(&self) -> WriterState;

    /// Opens a scope of `indent` spaces inside the innermost scope. The new
    /// scope starts out at the start of a line, whatever has been written so
    /// far.
    fn indented(&mut self, indent: u64)
        ensures
            final(self).state() == old(self).state().enter(indent as nat),
    ;

    /// Closes the innermost scope, if there is one.
    fn dedented(&mut self)
        ensures
            final(self).state() == old(self).state().leave(),
    ;
}

impl WriteExt for IdentedWriter {
    open spec fn state(&self) -> WriterState {
        self@
    }

    fn indented(&mut self, indent: u64) {
        self.levels.push(Level { indent, is_primed: true });
    }

    fn dedented(&mut self) {
        let _ = self.levels.pop();
        proof {
            if old(self).levels@.len() == 0 {
                assert(self.levels@ =~= old(self).levels@);
            }
        }
    }
}

} // verus!
