use stacks_parser::error::ParserError;
use stacks_parser::ffi::{
    item_reply, num_items_reply, parse_tx_t, parser_context_t, parser_init, parser_init_context,
    read_reply,
};

fn ctx() -> parser_context_t {
    parser_context_t { buffer: 0x1234, bufferLen: 9, offset: 5 }
}

#[test]
fn init_context_with_buffer() {
    let mut c = ctx();
    assert_eq!(parser_init_context(&mut c, 0x4000, 32), ParserError::parser_ok);
    assert_eq!(c, parser_context_t { buffer: 0x4000, bufferLen: 32, offset: 0 });
}

#[test]
fn init_context_empty_or_null() {
    let mut c = ctx();
    assert_eq!(parser_init_context(&mut c, 0x4000, 0), ParserError::parser_init_context_empty);
    assert_eq!(c, parser_context_t { buffer: 0, bufferLen: 0, offset: 0 });
    let mut c = ctx();
    assert_eq!(parser_init_context(&mut c, 0, 10), ParserError::parser_init_context_empty);
    assert_eq!(c, parser_context_t { buffer: 0, bufferLen: 0, offset: 0 });
}

#[test]
fn parser_init_reports_state_size() {
    let mut c = ctx();
    let mut alloc = Some(0u16);
    assert_eq!(parser_init(&mut c, 0x10, 4, &mut alloc, 300), 0);
    assert_eq!(alloc, Some(300));
    assert_eq!(c, parser_context_t { buffer: 0x10, bufferLen: 4, offset: 0 });
    let mut c = ctx();
    let mut alloc = Some(0u16);
    assert_eq!(parser_init(&mut c, 0, 4, &mut alloc, 300), 2);
    assert_eq!(alloc, Some(300));
}

#[test]
fn parser_init_without_alloc_size() {
    let mut c = ctx();
    let mut alloc = None;
    assert_eq!(parser_init(&mut c, 0x10, 4, &mut alloc, 300), ParserError::parser_no_memory_for_state.code());
    assert_eq!(alloc, None);
    assert_eq!(c, ctx());
}

#[test]
fn replies() {
    assert_eq!(read_reply(None), 6);
    assert_eq!(read_reply(Some(Ok(()))), 0);
    assert_eq!(read_reply(Some(Err(ParserError::parser_unexpected_buffer_end))), 19);
    assert_eq!(item_reply(None), (7, 0));
    assert_eq!(item_reply(Some(Ok(3))), (0, 3));
    assert_eq!(item_reply(Some(Err(ParserError::parser_display_idx_out_of_range))), (3, 0));
    let empty = parse_tx_t::new(0, 0);
    let full = parse_tx_t::new(0x20, 64);
    assert!(!empty.has_state());
    assert!(full.has_state());
    assert_eq!(full.state(), 0x20);
    assert_eq!(full.len(), 64);
    assert_eq!(num_items_reply(&empty, 9), 0);
    assert_eq!(num_items_reply(&full, 9), 9);
}

#[test]
fn error_codes_follow_declaration() {
    assert_eq!(ParserError::parser_ok.code(), 0);
    assert_eq!(ParserError::parser_unexpected_error.code(), 5);
    assert_eq!(ParserError::parser_invalid_contract_name.code(), 14);
    assert_eq!(ParserError::parser_invalid_asset_name.code(), 15);
    assert_eq!(ParserError::parser_stacks_string_too_long.code(), 17);
    assert_eq!(ParserError::parser_value_out_of_range.code(), 24);
}

#[test]
fn validate_always_accepts() {
    assert_eq!(stacks_parser::ffi::validate_reply(), ParserError::parser_ok.code());
}
