//! Memory and structure features read from the text format of a module.
use vstd::prelude::*;

use crate::bindings::{
    first_group, group_per_match, optional_text, print_wasm, regex_first_group,
    regex_group_per_match, wasm_text,
};
use crate::text::{
    chars_of, count_lines_opening, count_lines_opening_with, numeral_value, parse_numeral,
};

verus! {

/// Bytes in one page of linear memory.
pub const PAGE_BYTES: u64 = 65536;

/// First linear memory declaration; group 1 is its page count.
pub const MEMORY_PATTERN: &'static str = "\\(memory.*?(\\d+)\\)";

/// First stack pointer initializer; group 1 is its offset in bytes.
pub const STACK_POINTER_PATTERN: &'static str = "stack_pointer.*?i32\\.const\\s+(\\d+)";

/// Each function-reference table declaration; group 1 is its declared size. An index
/// comment such as `(;0;)` and a `$name` may come before the size, a maximum after it.
pub const TABLE_PATTERN: &'static str =
    "\\(table(?:\\s+\\(;\\d+;\\))?(?:\\s+\\$[^\\s()]+)?\\s+(\\d+)(?:\\s+\\d+)?\\s+funcref\\)";

/// Opening of a line that defines a function.
pub const FUNC_KEYWORD: &'static str = "(func ";

/// Opening of a line that declares a data segment.
pub const DATA_KEYWORD: &'static str = "(data ";

/// Opening of a line that defines a global.
pub const GLOBAL_KEYWORD: &'static str = "(global ";

/// The bytes do not decode as a WebAssembly module or component.
#[derive(Debug, Clone, Copy, PartialEq, Eq, Structural)]
pub struct DisassemblyError;

/// The text format of a WebAssembly binary, from which the features are read.
pub fn convert_wasm_to_wat(wasm: &[u8]) -> (r: Result<String, DisassemblyError>)
    ensures
        match r {
            Ok(t) => wasm_text(wasm@) == Some(t@),
            Err(_) => wasm_text(wasm@) is None,
        },
{
    match print_wasm(wasm) {
        Some(t) => Ok(t),
        None => Err(DisassemblyError),
    }
}

/// Which captured numeral could not be read.
#[derive(Debug, Clone, Copy, PartialEq, Eq, Structural)]
pub enum ParseError {
    MemoryPages,
    StackPointerOffset,
    TableSize,
}

/// What the text format of one module shows of its memory and structure.
#[derive(Debug, Clone)]
pub struct StaticFeatureSet {
    pub linear_memory_pages: u32,
    pub linear_memory_bytes: u64,
    pub stack_pointer_offset_bytes: u64,
    pub function_table_sizes: Vec<u32>,
    pub total_function_references: u128,
    pub function_count: usize,
    pub data_section_count: usize,
    pub global_count: usize,
}

/// Sum of a sequence of table sizes.
pub open spec fn sum_sizes(s: Seq<u32>) -> int
    decreases s.len(),
{
    if s.len() == 0 {
        0
    } else {
        sum_sizes(s.drop_last()) + s.last()
    }
}

proof fn lemma_sum_sizes_bound(s: Seq<u32>)
    ensures
        0 <= sum_sizes(s) <= s.len() * 0xffff_ffff,
    decreases s.len(),
{
    if s.len() > 0 {
        lemma_sum_sizes_bound(s.drop_last());
    }
}

impl StaticFeatureSet {
    /// The derived fields agree with the ones they derive from.
    pub open spec fn wf(&self) -> bool {
        &&& self.linear_memory_bytes == self.linear_memory_pages * PAGE_BYTES
        &&& self.total_function_references == sum_sizes(self.function_table_sizes@)
    }

    /// Every feature at its zero default: what a text in which no pattern occurs yields.
    pub fn new() -> (r: StaticFeatureSet)
        ensures
            r.wf(),
            r.linear_memory_pages == 0,
            r.stack_pointer_offset_bytes == 0,
            r.function_table_sizes@.len() == 0,
            r.function_count == 0,
            r.data_section_count == 0,
            r.global_count == 0,
    {
        StaticFeatureSet {
            linear_memory_pages: 0,
            linear_memory_bytes: 0,
            stack_pointer_offset_bytes: 0,
            function_table_sizes: Vec::new(),
            total_function_references: 0,
            function_count: 0,
            data_section_count: 0,
            global_count: 0,
        }
    }
}

/// In every well-formed feature set the linear memory bytes are exactly the page count
/// times the page size.
pub proof fn lemma_linear_memory_bytes(f: StaticFeatureSet)
    requires
        f.wf(),
    ensures
        f.linear_memory_bytes == f.linear_memory_pages as int * 65536,
{
}

/// Bytes of linear memory in `pages` pages.
pub fn pages_to_bytes(pages: u32) -> (r: u64)
    ensures
        r == pages * PAGE_BYTES,
{
    pages as u64 * PAGE_BYTES
}

/// Value of an optional captured numeral: zero when nothing was captured, `None` when the
/// capture is not a numeral of at most `max`.
pub open spec fn captured_value(capture: Option<Seq<char>>, max: int) -> Option<int> {
    match capture {
        None => Some(0),
        Some(c) => numeral_value(c, max),
    }
}

/// Size of one table: its captured group 1 read as a `u32`.
pub open spec fn table_size(group: Option<Seq<char>>) -> Option<int> {
    match group {
        None => None,
        Some(g) => numeral_value(g, 0xffff_ffff),
    }
}

pub open spec fn memory_capture(text: Seq<char>) -> Option<Seq<char>> {
    regex_first_group(MEMORY_PATTERN@, text)
}

pub open spec fn stack_capture(text: Seq<char>) -> Option<Seq<char>> {
    regex_first_group(STACK_POINTER_PATTERN@, text)
}

pub open spec fn table_groups(text: Seq<char>) -> Seq<Option<Seq<char>>> {
    regex_group_per_match(TABLE_PATTERN@, text)
}

/// The error that reading the captures stops at, if any: the page count, the stack offset
/// and the table sizes are read in that order.
pub open spec fn capture_error(
    memory: Option<Seq<char>>,
    stack: Option<Seq<char>>,
    tables: Seq<Option<Seq<char>>>,
) -> Option<ParseError> {
    if captured_value(memory, 0xffff_ffff) is None {
        Some(ParseError::MemoryPages)
    } else if captured_value(stack, 0xffff_ffff_ffff_ffff) is None {
        Some(ParseError::StackPointerOffset)
    } else if exists|i: int| 0 <= i < tables.len() && (#[trigger] table_size(tables[i])) is None {
        Some(ParseError::TableSize)
    } else {
        None
    }
}

/// `f` holds exactly the features that these captures and the lines of `text` give.
pub open spec fn features_from(
    f: StaticFeatureSet,
    memory: Option<Seq<char>>,
    stack: Option<Seq<char>>,
    tables: Seq<Option<Seq<char>>>,
    text: Seq<char>,
) -> bool {
    &&& f.wf()
    &&& Some(f.linear_memory_pages as int) == captured_value(memory, 0xffff_ffff)
    &&& Some(f.stack_pointer_offset_bytes as int) == captured_value(stack, 0xffff_ffff_ffff_ffff)
    &&& f.function_table_sizes@.len() == tables.len()
    &&& forall|i: int|
        0 <= i < f.function_table_sizes@.len() ==> Some(
            #[trigger] f.function_table_sizes@[i] as int,
        ) == table_size(tables[i])
    &&& f.function_count == count_lines_opening(text, FUNC_KEYWORD@)
    &&& f.data_section_count == count_lines_opening(text, DATA_KEYWORD@)
    &&& f.global_count == count_lines_opening(text, GLOBAL_KEYWORD@)
}

/// The error that extraction from `text` stops at, if any.
pub open spec fn extraction_error(text: Seq<char>) -> Option<ParseError> {
    capture_error(memory_capture(text), stack_capture(text), table_groups(text))
}

/// `f` holds exactly the features that `text` shows.
pub open spec fn features_of(f: StaticFeatureSet, text: Seq<char>) -> bool {
    features_from(f, memory_capture(text), stack_capture(text), table_groups(text), text)
}

pub open spec fn optional_texts(v: Seq<Option<String>>) -> Seq<Option<Seq<char>>> {
    v.map_values(|o: Option<String>| optional_text(o))
}

/// Reads an optional captured numeral of at most `max`; nothing captured reads as zero.
fn read_capture(capture: &Option<String>, max: u64) -> (r: Option<u64>)
    ensures
        match r {
            Some(v) => captured_value(optional_text(*capture), max as int) == Some(v as int),
            None => captured_value(optional_text(*capture), max as int) is None,
        },
{
    match capture {
        None => Some(0),
        Some(c) => parse_numeral(&chars_of(c.as_str()), max),
    }
}

/// Sum of the table sizes, which cannot overflow a `u128`.
fn total_of(sizes: &Vec<u32>) -> (r: u128)
    ensures
        r == sum_sizes(sizes@),
{
    let mut total: u128 = 0;
    let mut i: usize = 0;
    while i < sizes.len()
        invariant
            i <= sizes@.len(),
            total == sum_sizes(sizes@.subrange(0, i as int)),
        decreases sizes@.len() - i,
    {
        let ghost p = sizes@.subrange(0, i + 1);
        assert(p.drop_last() =~= sizes@.subrange(0, i as int));
        proof {
            lemma_sum_sizes_bound(p);
            assert(p.len() * 0xffff_ffff <= 0xffff_ffff_ffff_ffff * 0xffff_ffffint)
                by (nonlinear_arith)
                requires
                    p.len() <= 0xffff_ffff_ffff_ffff,
            ;
        }
        total = total + sizes[i] as u128;
        i = i + 1;
    }
    assert(sizes@.subrange(0, i as int) =~= sizes@);
    total
}

/// Builds the feature set from what the patterns captured in `text` (the page count, the
/// stack pointer offset, and group 1 of each table declaration) and from the lines of
/// `text`. A missing capture reads as zero; a capture that is no numeral of its field's
/// width fails.
pub fn features_from_captures(
    memory: &Option<String>,
    stack: &Option<String>,
    tables: &Vec<Option<String>>,
    text: &str,
) -> (r: Result<StaticFeatureSet, ParseError>)
    ensures
        match r {
            Ok(f) => {
                &&& capture_error(
                    optional_text(*memory),
                    optional_text(*stack),
                    optional_texts(tables@),
                ) is None
                &&& features_from(
                    f,
                    optional_text(*memory),
                    optional_text(*stack),
                    optional_texts(tables@),
                    text@,
                )
            },
            Err(e) => capture_error(
                optional_text(*memory),
                optional_text(*stack),
                optional_texts(tables@),
            ) == Some(e),
        },
{
    let pages = match read_capture(memory, 0xffff_ffff) {
        Some(v) => v as u32,
        None => return Err(ParseError::MemoryPages),
    };
    let stack_offset = match read_capture(stack, 0xffff_ffff_ffff_ffff) {
        Some(v) => v,
        None => return Err(ParseError::StackPointerOffset),
    };
    let ghost expected = optional_texts(tables@);
    let mut sizes: Vec<u32> = Vec::new();
    let mut i: usize = 0;
    while i < tables.len()
        invariant
            i <= tables@.len(),
            expected == optional_texts(tables@),
            captured_value(optional_text(*memory), 0xffff_ffff) == Some(pages as int),
            captured_value(optional_text(*stack), 0xffff_ffff_ffff_ffff) == Some(
                stack_offset as int,
            ),
            sizes@.len() == i,
            forall|k: int|
                0 <= k < i ==> Some(#[trigger] sizes@[k] as int) == table_size(expected[k]),
        decreases tables@.len() - i,
    {
        let size = match &tables[i] {
            Some(g) => parse_numeral(&chars_of(g.as_str()), 0xffff_ffff),
            None => None,
        };
        assert(expected[i as int] == optional_text(tables@[i as int]));
        match size {
            Some(v) => sizes.push(v as u32),
            None => {
                assert(table_size(expected[i as int]) is None);
                return Err(ParseError::TableSize);
            },
        }
        i = i + 1;
    }
    assert forall|k: int| 0 <= k < expected.len() implies (#[trigger] table_size(
        expected[k],
    )) is Some by {
        assert(Some(sizes@[k] as int) == table_size(expected[k]));
    }
    let total = total_of(&sizes);
    let chars = chars_of(text);
    let function_count = count_lines_opening_with(&chars, &chars_of(FUNC_KEYWORD));
    let data_section_count = count_lines_opening_with(&chars, &chars_of(DATA_KEYWORD));
    let global_count = count_lines_opening_with(&chars, &chars_of(GLOBAL_KEYWORD));
    Ok(
        StaticFeatureSet {
            linear_memory_pages: pages,
            linear_memory_bytes: pages_to_bytes(pages),
            stack_pointer_offset_bytes: stack_offset,
            function_table_sizes: sizes,
            total_function_references: total,
            function_count,
            data_section_count,
            global_count,
        },
    )
}

/// Scans the text format of a module for its memory pages, stack pointer offset, function
/// table sizes and counts of function, data segment and global definitions. A pattern that
/// does not occur leaves its feature at zero; a captured numeral that cannot be read fails
/// the whole extraction.
pub fn extract_features(text: &str) -> (r: Result<StaticFeatureSet, ParseError>)
    ensures
        match r {
            Ok(f) => extraction_error(text@) is None && features_of(f, text@),
            Err(e) => extraction_error(text@) == Some(e),
        },
{
    let memory = first_group(MEMORY_PATTERN, text);
    let stack = first_group(STACK_POINTER_PATTERN, text);
    let tables = group_per_match(TABLE_PATTERN, text);
    assert(optional_texts(tables@) =~= table_groups(text@));
    features_from_captures(&memory, &stack, &tables, text)
}

} // verus!
