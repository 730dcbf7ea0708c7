use vstd::prelude::*;

verus! {

/// Errors reported by the parser. The numeric code that crosses the C
/// boundary is given by [`ParserError::code`], in declaration order.
#[allow(non_camel_case_types)]
#[derive(Debug, Clone, Copy, PartialEq, Eq, Structural)]
pub enum ParserError {
    // Generic errors
    parser_ok,
    parser_no_data,
    parser_init_context_empty,
    parser_display_idx_out_of_range,
    parser_display_page_out_of_range,
    parser_unexpected_error,
    parser_no_memory_for_state,
    // Context related errors
    parser_context_mismatch,
    parser_context_unexpected_size,
    parser_context_invalid_chars,
    parser_context_unknown_prefix,
    // Required fields
    parser_required_nonce,
    parser_required_method,
    // Coin specific
    parser_post_condition_failed,
    parser_invalid_contract_name,
    parser_invalid_asset_name,
    parser_invalid_address_version,
    parser_stacks_string_too_long,
    parser_unexpected_type,
    parser_unexpected_buffer_end,
    parser_unexpected_value,
    parser_unexpected_number_items,
    parser_unexpected_characters,
    parser_unexpected_field,
    parser_value_out_of_range,
}

impl ParserError {
    /// The code of each error as it is reported through the C interface.
    pub open spec fn spec_code(self) -> u32 {
        match self {
            ParserError::parser_ok => 0,
            ParserError::parser_no_data => 1,
            ParserError::parser_init_context_empty => 2,
            ParserError::parser_display_idx_out_of_range => 3,
            ParserError::parser_display_page_out_of_range => 4,
            ParserError::parser_unexpected_error => 5,
            ParserError::parser_no_memory_for_state => 6,
            ParserError::parser_context_mismatch => 7,
            ParserError::parser_context_unexpected_size => 8,
            ParserError::parser_context_invalid_chars => 9,
            ParserError::parser_context_unknown_prefix => 10,
            ParserError::parser_required_nonce => 11,
            ParserError::parser_required_method => 12,
            ParserError::parser_post_condition_failed => 13,
            ParserError::parser_invalid_contract_name => 14,
            ParserError::parser_invalid_asset_name => 15,
            ParserError::parser_invalid_address_version => 16,
            ParserError::parser_stacks_string_too_long => 17,
            ParserError::parser_unexpected_type => 18,
            ParserError::parser_unexpected_buffer_end => 19,
            ParserError::parser_unexpected_value => 20,
            ParserError::parser_unexpected_number_items => 21,
            ParserError::parser_unexpected_characters => 22,
            ParserError::parser_unexpected_field => 23,
            ParserError::parser_value_out_of_range => 24,
        }
    }

    /// The numeric code of this error (its position in the declaration).
    pub fn code(self) -> (c: u32)
        ensures
            c == self.spec_code(),
    {
        match self {
            ParserError::parser_ok => 0,
            ParserError::parser_no_data => 1,
            ParserError::parser_init_context_empty => 2,
            ParserError::parser_display_idx_out_of_range => 3,
            ParserError::parser_display_page_out_of_range => 4,
            ParserError::parser_unexpected_error => 5,
            ParserError::parser_no_memory_for_state => 6,
            ParserError::parser_context_mismatch => 7,
            ParserError::parser_context_unexpected_size => 8,
            ParserError::parser_context_invalid_chars => 9,
            ParserError::parser_context_unknown_prefix => 10,
            ParserError::parser_required_nonce => 11,
            ParserError::parser_required_method => 12,
            ParserError::parser_post_condition_failed => 13,
            ParserError::parser_invalid_contract_name => 14,
            ParserError::parser_invalid_asset_name => 15,
            ParserError::parser_invalid_address_version => 16,
            ParserError::parser_stacks_string_too_long => 17,
            ParserError::parser_unexpected_type => 18,
            ParserError::parser_unexpected_buffer_end => 19,
            ParserError::parser_unexpected_value => 20,
            ParserError::parser_unexpected_number_items => 21,
            ParserError::parser_unexpected_characters => 22,
            ParserError::parser_unexpected_field => 23,
            ParserError::parser_value_out_of_range => 24,
        }
    }
}

/// Distinct errors have distinct codes.
pub proof fn law_error_codes_distinct(a: ParserError, b: ParserError)
    ensures
        a.spec_code() == b.spec_code() <==> a == b,
{
}

} // verus!
