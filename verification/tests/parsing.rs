use wasm_wrapper_gen::error::MacroError;
use wasm_wrapper_gen::parsing::{
    transform_mac_to_items, transform_macro_input_to_items, ItemSpan, MacToken, TokenKind,
};

const O: TokenKind = TokenKind::Other;
const B: TokenKind = TokenKind::BraceGroup;
const A: TokenKind = TokenKind::FatArrow;
const S: TokenKind = TokenKind::Semi;

fn written_out(start: usize, body: usize) -> ItemSpan {
    ItemSpan { head_start: start, head_end: body, body_start: body, body_end: body + 1, wrapped: false }
}

fn pointing(start: usize, arrow: usize, end: usize) -> ItemSpan {
    ItemSpan { head_start: start, head_end: arrow, body_start: arrow + 1, body_end: end, wrapped: true }
}

#[test]
fn nothing_holds_no_declarations() {
    assert_eq!(transform_macro_input_to_items(&Vec::new()), Ok(Vec::new()));
}

#[test]
fn a_declaration_that_is_written_out_ends_with_its_braces() {
    // fn a ( ) { .. }
    assert_eq!(transform_macro_input_to_items(&vec![O, O, O, B]), Ok(vec![written_out(0, 3)]));
    // fn a ( ) -> u8 { .. } fn b ( ) { .. }
    assert_eq!(
        transform_macro_input_to_items(&vec![O, O, O, O, O, B, O, O, O, B]),
        Ok(vec![written_out(0, 5), written_out(6, 9)])
    );
    assert_eq!(transform_macro_input_to_items(&vec![B]), Ok(vec![written_out(0, 0)]));
}

#[test]
fn a_declaration_that_points_elsewhere_ends_with_a_semicolon() {
    // fn a ( ) => m :: f ;
    assert_eq!(
        transform_macro_input_to_items(&vec![O, O, O, A, O, O, O, S]),
        Ok(vec![pointing(0, 3, 7)])
    );
    // the semicolon may be missing at the end
    assert_eq!(
        transform_macro_input_to_items(&vec![O, O, O, A, O, O, O]),
        Ok(vec![pointing(0, 3, 7)])
    );
    assert_eq!(transform_macro_input_to_items(&vec![A]), Ok(vec![pointing(0, 0, 1)]));
    assert_eq!(transform_macro_input_to_items(&vec![A, S]), Ok(vec![pointing(0, 0, 1)]));
}

#[test]
fn behind_an_arrow_everything_is_body() {
    // fn a ( ) => { x } => y ; fn b ( ) { }
    assert_eq!(
        transform_macro_input_to_items(&vec![O, O, O, A, B, A, O, S, O, O, O, B]),
        Ok(vec![pointing(0, 3, 7), written_out(8, 11)])
    );
}

#[test]
fn both_forms_may_be_mixed() {
    // fn a ( ) { } fn b ( ) => f ; fn c ( ) { }
    assert_eq!(
        transform_macro_input_to_items(&vec![O, O, O, B, O, O, O, A, O, S, O, O, O, B]),
        Ok(vec![written_out(0, 3), pointing(4, 7, 9), written_out(10, 13)])
    );
}

#[test]
fn tokens_behind_the_last_declaration_are_an_error() {
    assert_eq!(
        transform_macro_input_to_items(&vec![O, O, O, B, O, O]),
        Err(MacroError::UnexpectedEndOfMacroInvocation { from: 4 })
    );
    assert_eq!(
        transform_macro_input_to_items(&vec![O]),
        Err(MacroError::UnexpectedEndOfMacroInvocation { from: 0 })
    );
    assert_eq!(
        transform_macro_input_to_items(&vec![O, A, O, S, S]),
        Err(MacroError::UnexpectedEndOfMacroInvocation { from: 4 })
    );
}

#[test]
fn an_invocation_is_one_delimited_group() {
    assert_eq!(
        transform_mac_to_items(&vec![MacToken::Delimited(vec![O, O, O, B])]),
        Ok(vec![written_out(0, 3)])
    );
    assert_eq!(
        transform_mac_to_items(&vec![MacToken::Delimited(vec![O, O])]),
        Err(MacroError::UnexpectedEndOfMacroInvocation { from: 0 })
    );
}

#[test]
fn an_invocation_of_several_token_trees_is_refused() {
    assert_eq!(
        transform_mac_to_items(&vec![MacToken::Delimited(vec![B]), MacToken::Token]),
        Err(MacroError::UnexpectedMultiTokenMacro { count: 2 })
    );
    assert_eq!(
        transform_mac_to_items(&Vec::new()),
        Err(MacroError::UnexpectedMultiTokenMacro { count: 0 })
    );
}

#[test]
fn an_invocation_of_one_token_is_refused() {
    assert_eq!(transform_mac_to_items(&vec![MacToken::Token]), Err(MacroError::UnexpectedSingleToken));
}

#[test]
fn a_failed_reading_carries_its_message() {
    let e = MacroError::UnexpectedReparseFailure { err_msg: "expected item".to_string() };
    assert_eq!(e, MacroError::UnexpectedReparseFailure { err_msg: "expected item".to_string() });
    assert_ne!(e, MacroError::UnexpectedSingleToken);
}
