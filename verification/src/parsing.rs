//! Finds the declarations inside one invocation of the declaring macro.
//!
//! A declaration is either written out, `fn a(..) { .. }`, or points to a
//! function that exists, `fn a(..) => path::to::function;`.

use crate::error::MacroError;
use vstd::prelude::*;

verus! {

/// What is read of one token tree inside the invocation.
#[derive(Debug, Copy, Clone, PartialEq, Eq, Structural)]
pub enum TokenKind {
    /// `=>`
    FatArrow,
    /// `;`
    Semi,
    /// A group in braces.
    BraceGroup,
    /// Any other token or group.
    Other,
}

/// One token tree of the invocation itself.
#[derive(Debug, PartialEq, Eq)]
pub enum MacToken {
    /// A single token.
    Token,
    /// A delimited group, with the kinds of the token trees inside it.
    Delimited(Vec<TokenKind>),
}

/// Where one declaration lies among the token trees, by positions. The
/// signature is `head_start..head_end`, the body `body_start..body_end`.
#[derive(Debug, Copy, Clone, PartialEq, Eq, Structural)]
pub struct ItemSpan {
    pub head_start: usize,
    pub head_end: usize,
    pub body_start: usize,
    pub body_end: usize,
    /// True if the body is what follows `=>`, and is to be put in braces
    /// to stand as the body of a function.
    pub wrapped: bool,
}

/// Where one declaration lies among the token trees.
pub struct Span {
    pub head_start: int,
    pub head_end: int,
    pub body_start: int,
    pub body_end: int,
    pub wrapped: bool,
}

impl View for ItemSpan {
    type V = Span;

    open spec fn view(&self) -> Span {
        Span {
            head_start: self.head_start as int,
            head_end: self.head_end as int,
            body_start: self.body_start as int,
            body_end: self.body_end as int,
            wrapped: self.wrapped,
        }
    }
}

/// The spans of a list.
pub open spec fn span_views(items: Seq<ItemSpan>) -> Seq<Span> {
    Seq::new(items.len(), |i: int| items[i]@)
}

/// The declaration that points elsewhere: its signature from `start` to
/// the `=>` at `arrow`, its body from behind the arrow to `end`.
pub open spec fn pointing(start: int, arrow: int, end: int) -> Span {
    Span { head_start: start, head_end: arrow, body_start: arrow + 1, body_end: end, wrapped: true }
}

/// The declaration that is written out: its signature from `start` to the
/// group in braces at `body`, which is its body.
pub open spec fn written_out(start: int, body: int) -> Span {
    Span { head_start: start, head_end: body, body_start: body, body_end: body + 1, wrapped: false }
}

/// The declarations that are found from `pos` on. The current one began at
/// `start`; `arrow` is where its `=>` stood, if it has been passed. Before
/// an arrow, a group in braces ends a declaration that is written out.
/// Behind an arrow everything up to the next `;`, or to the end, is the
/// body.
pub open spec fn scan(kinds: Seq<TokenKind>, start: int, arrow: Option<int>, pos: int) -> Seq<Span>
    decreases kinds.len() - pos,
{
    if pos < 0 || pos >= kinds.len() {
        match arrow {
            Some(a) => seq![pointing(start, a, kinds.len() as int)],
            None => Seq::empty(),
        }
    } else {
        match arrow {
            Some(a) => if kinds[pos] == TokenKind::Semi {
                seq![pointing(start, a, pos)] + scan(kinds, pos + 1, None, pos + 1)
            } else {
                scan(kinds, start, arrow, pos + 1)
            },
            None => if kinds[pos] == TokenKind::FatArrow {
                scan(kinds, start, Some(pos), pos + 1)
            } else if kinds[pos] == TokenKind::BraceGroup {
                seq![written_out(start, pos)] + scan(kinds, pos + 1, None, pos + 1)
            } else {
                scan(kinds, start, None, pos + 1)
            },
        }
    }
}

/// Where the token trees begin that are left over behind the last whole
/// declaration; the number of token trees where none are.
pub open spec fn leftover(kinds: Seq<TokenKind>, start: int, arrow: Option<int>, pos: int) -> int
    decreases kinds.len() - pos,
{
    if pos < 0 || pos >= kinds.len() {
        match arrow {
            Some(_) => kinds.len() as int,
            None => start,
        }
    } else {
        match arrow {
            Some(_) => if kinds[pos] == TokenKind::Semi {
                leftover(kinds, pos + 1, None, pos + 1)
            } else {
                leftover(kinds, start, arrow, pos + 1)
            },
            None => if kinds[pos] == TokenKind::FatArrow {
                leftover(kinds, start, Some(pos), pos + 1)
            } else if kinds[pos] == TokenKind::BraceGroup {
                leftover(kinds, pos + 1, None, pos + 1)
            } else {
                leftover(kinds, start, None, pos + 1)
            },
        }
    }
}

/// Whether the token trees of an invocation make whole declarations and
/// nothing else.
pub open spec fn is_complete(kinds: Seq<TokenKind>) -> bool {
    leftover(kinds, 0, None, 0) >= kinds.len()
}

/// Whether `e` says that the token trees from position `at` on are left
/// over.
pub open spec fn reports_leftover(e: MacroError, at: int) -> bool {
    match e {
        MacroError::UnexpectedEndOfMacroInvocation { from } => from == at,
        _ => false,
    }
}

/// Finds the declarations among the token trees of an invocation. Token
/// trees behind the last whole declaration are an error, which says where
/// they begin.
pub fn transform_macro_input_to_items(tts: &Vec<TokenKind>) -> (found: Result<
    Vec<ItemSpan>,
    MacroError,
>)
    ensures
        match found {
            Ok(items) => is_complete(tts@) && span_views(items@) == scan(tts@, 0, None, 0),
            Err(e) => !is_complete(tts@) && reports_leftover(e, leftover(tts@, 0, None, 0)),
        },
{
    let mut found_full: Vec<ItemSpan> = Vec::new();
    let mut start: usize = 0;
    let mut arrow: Option<usize> = None;
    let mut pos: usize = 0;
    let n = tts.len();
    let ghost kinds = tts@;
    proof {
        assert(span_views(found_full@) + scan(kinds, 0, None, 0) =~= scan(kinds, 0, None, 0));
    }
    while pos < n
        invariant
            n == kinds.len(),
            kinds == tts@,
            start <= pos <= n,
            arrow matches Some(a) ==> start <= a < pos,
            span_views(found_full@) + scan(kinds, start as int, arrow_at(arrow), pos as int)
                == scan(kinds, 0, None, 0),
            leftover(kinds, start as int, arrow_at(arrow), pos as int) == leftover(
                kinds,
                0,
                None,
                0,
            ),
        decreases n - pos,
    {
        let ghost before = span_views(found_full@);
        let ghost rest = scan(kinds, pos + 1, None, pos + 1);
        match arrow {
            Some(a) => {
                match tts[pos] {
                    TokenKind::Semi => {
                        let item = ItemSpan {
                            head_start: start,
                            head_end: a,
                            body_start: a + 1,
                            body_end: pos,
                            wrapped: true,
                        };
                        found_full.push(item);
                        proof {
                            assert(span_views(found_full@) =~= before.push(item@));
                            assert(before + (seq![item@] + rest) =~= before.push(item@) + rest);
                        }
                        start = pos + 1;
                        arrow = None;
                    },
                    _ => {},
                }
            },
            None => {
                match tts[pos] {
                    TokenKind::FatArrow => {
                        arrow = Some(pos);
                    },
                    TokenKind::BraceGroup => {
                        let item = ItemSpan {
                            head_start: start,
                            head_end: pos,
                            body_start: pos,
                            body_end: pos + 1,
                            wrapped: false,
                        };
                        found_full.push(item);
                        proof {
                            assert(span_views(found_full@) =~= before.push(item@));
                            assert(before + (seq![item@] + rest) =~= before.push(item@) + rest);
                        }
                        start = pos + 1;
                    },
                    _ => {},
                }
            },
        }
        pos = pos + 1;
    }
    match arrow {
        Some(a) => {
            let ghost before = span_views(found_full@);
            let item = ItemSpan {
                head_start: start,
                head_end: a,
                body_start: a + 1,
                body_end: n,
                wrapped: true,
            };
            found_full.push(item);
            proof {
                assert(span_views(found_full@) =~= before + seq![item@]);
            }
            Ok(found_full)
        },
        None => {
            proof {
                assert(span_views(found_full@) + Seq::<Span>::empty() =~= span_views(found_full@));
            }
            if start < n {
                Err(MacroError::UnexpectedEndOfMacroInvocation { from: start })
            } else {
                Ok(found_full)
            }
        },
    }
}

/// The position of the arrow as the scan keeps it.
pub open spec fn arrow_at(arrow: Option<usize>) -> Option<int> {
    match arrow {
        Some(a) => Some(a as int),
        None => None,
    }
}

/// Finds the declarations in an invocation, which has to consist of one
/// delimited group.
pub fn transform_mac_to_items(source: &Vec<MacToken>) -> (found: Result<Vec<ItemSpan>, MacroError>)
    ensures
        source@.len() != 1 ==> found == Err::<Vec<ItemSpan>, MacroError>(
            MacroError::UnexpectedMultiTokenMacro { count: source@.len() as usize },
        ),
        source@.len() == 1 ==> match source@[0] {
            MacToken::Token => found == Err::<Vec<ItemSpan>, MacroError>(
                MacroError::UnexpectedSingleToken,
            ),
            MacToken::Delimited(kinds) => match found {
                Ok(items) => is_complete(kinds@) && span_views(items@) == scan(kinds@, 0, None, 0),
                Err(e) => !is_complete(kinds@) && reports_leftover(
                    e,
                    leftover(kinds@, 0, None, 0),
                ),
            },
        },
{
    if source.len() != 1 {
        return Err(MacroError::UnexpectedMultiTokenMacro { count: source.len() });
    }
    match &source[0] {
        MacToken::Delimited(kinds) => transform_macro_input_to_items(kinds),
        MacToken::Token => Err(MacroError::UnexpectedSingleToken),
    }
}

} // verus!
