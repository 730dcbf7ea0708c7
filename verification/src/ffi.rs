//! The decisions behind the C interface, on plain values. A pointer is held
//! as its address, with 0 standing for the null pointer; the C entry points
//! convert to and from these types.
use vstd::prelude::*;

use crate::error::ParserError;

verus! {

/// The buffer that the parser reads: its address (0 when null), its length
/// and the offset at which reading goes on.
#[allow(non_camel_case_types)]
#[derive(Debug, Clone, Copy, PartialEq, Eq, Structural)]
pub struct parser_context_t {
    pub buffer: usize,
    pub bufferLen: u16,
    pub offset: u16,
}

/// The transaction state that the caller allocated: its address (0 when
/// null) and its length.
#[allow(non_camel_case_types)]
#[derive(Debug, Clone, Copy, PartialEq, Eq, Structural)]
pub struct parse_tx_t {
    state: usize,
    len: u16,
}

impl parse_tx_t {
    pub fn new(state: usize, len: u16) -> (t: parse_tx_t)
        ensures
            t.spec_state() == state,
            t.spec_len() == len,
    {
        parse_tx_t { state, len }
    }

    pub closed spec fn spec_state(self) -> usize {
        self.state
    }

    pub closed spec fn spec_len(self) -> u16 {
        self.len
    }

    /// The address of the transaction state (0 when null).
    pub fn state(&self) -> (s: usize)
        ensures
            s == self.spec_state(),
    {
        self.state
    }

    /// The length of the transaction state.
    pub fn len(&self) -> (l: u16)
        ensures
            l == self.spec_len(),
    {
        self.len
    }

    /// Whether there is a transaction state to work on.
    pub fn has_state(&self) -> (b: bool)
        ensures
            b == (self.spec_state() != 0),
    {
        self.state != 0
    }
}

/// Points the context at the buffer, from its start. An empty or null buffer
/// leaves the context empty (null, of length 0) and is reported as
/// `parser_init_context_empty`.
pub fn parser_init_context(ctx: &mut parser_context_t, buffer: usize, bufferSize: u16) -> (r:
    ParserError)
    ensures
        final(ctx).offset == 0,
        bufferSize == 0 || buffer == 0 ==> final(ctx).buffer == 0 && final(ctx).bufferLen == 0
            && r == ParserError::parser_init_context_empty,
        bufferSize != 0 && buffer != 0 ==> final(ctx).buffer == buffer && final(ctx).bufferLen
            == bufferSize && r == ParserError::parser_ok,
{
    ctx.offset = 0;
    if bufferSize == 0 || buffer == 0 {
        ctx.buffer = 0;
        ctx.bufferLen = 0;
        return ParserError::parser_init_context_empty;
    }
    ctx.buffer = buffer;
    ctx.bufferLen = bufferSize;
    ParserError::parser_ok
}

/// Starts a parse: tells the caller, through `alloc_size`, how many bytes the
/// transaction state needs (`state_size`), then points the context at the
/// buffer. `alloc_size` is `None` when the caller passed a null pointer for
/// it; then nothing is written and `parser_no_memory_for_state` is reported.
pub fn parser_init(
    ctx: &mut parser_context_t,
    buffer: usize,
    bufferSize: u16,
    alloc_size: &mut Option<u16>,
    state_size: u16,
) -> (code: u32)
    ensures
        *old(alloc_size) is None ==> code == ParserError::parser_no_memory_for_state.spec_code()
            && *final(ctx) == *old(ctx) && *final(alloc_size) == *old(alloc_size),
        *old(alloc_size) is Some ==> *final(alloc_size) == Some(state_size) && final(ctx).offset == 0
            && (if bufferSize == 0 || buffer == 0 {
            final(ctx).buffer == 0 && final(ctx).bufferLen == 0 && code
                == ParserError::parser_init_context_empty.spec_code()
        } else {
            final(ctx).buffer == buffer && final(ctx).bufferLen == bufferSize && code
                == ParserError::parser_ok.spec_code()
        }),
{
    if alloc_size.is_none() {
        return ParserError::parser_no_memory_for_state.code();
    }
    *alloc_size = Some(state_size);
    parser_init_context(ctx, buffer, bufferSize).code()
}

/// The answer to a request to read the transaction. `outcome` is `None` when
/// there is no transaction state to read into, and otherwise what reading
/// the buffer into it gave.
pub fn read_reply(outcome: Option<Result<(), ParserError>>) -> (code: u32)
    ensures
        code == match outcome {
            None => ParserError::parser_no_memory_for_state.spec_code(),
            Some(Ok(())) => ParserError::parser_ok.spec_code(),
            Some(Err(e)) => e.spec_code(),
        },
{
    match outcome {
        Some(Ok(())) => ParserError::parser_ok.code(),
        Some(Err(e)) => e.code(),
        None => ParserError::parser_no_memory_for_state.code(),
    }
}

/// The answer to a request for one display item: the code and the page
/// count to write back. `outcome` is `None` when there is no transaction
/// state, and otherwise what rendering the item gave (its number of pages,
/// or an error). The page count is 0 unless the item was rendered.
pub fn item_reply(outcome: Option<Result<u8, ParserError>>) -> (reply: (u32, u8))
    ensures
        reply == match outcome {
            None => (ParserError::parser_context_mismatch.spec_code(), 0u8),
            Some(Ok(pages)) => (ParserError::parser_ok.spec_code(), pages),
            Some(Err(e)) => (e.spec_code(), 0u8),
        },
{
    let mut page_count: u8 = 0;
    let code = match outcome {
        None => ParserError::parser_context_mismatch.code(),
        Some(Ok(page)) => {
            page_count = page;
            ParserError::parser_ok.code()
        },
        Some(Err(e)) => e.code(),
    };
    (code, page_count)
}

/// The answer to a request for the number of display items: 0 when there is
/// no transaction state, otherwise the number that the transaction reports.
pub fn num_items_reply(tx: &parse_tx_t, num_items: u8) -> (n: u8)
    ensures
        n == if tx.spec_state() == 0 {
            0
        } else {
            num_items
        },
{
    if !tx.has_state() {
        return 0;
    }
    num_items
}

/// The answer to a request to validate the parsed transaction: validation
/// accepts every transaction, so the answer is always `parser_ok`.
pub fn validate_reply() -> (code: u32)
    ensures
        code == ParserError::parser_ok.spec_code(),
{
    ParserError::parser_ok.code()
}

} // verus!
