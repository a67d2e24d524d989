//! The execution report that the prover host appends to a CSV file after each
//! proved block: the report's settings, its header row, and its record rows.

use vstd::prelude::*;
use vstd::string::StringExecFns;
use std::path::PathBuf;

verus! {

#[verifier::external_type_specification]
#[verifier::external_body]
pub struct ExPathBuf(std::path::PathBuf);

/// Settings of the CSV execution report.
#[derive(Debug)]
pub struct PersistExecutionReport {
    chain_id: u64,
    report_path: PathBuf,
    precompile_tracking: bool,
    opcode_tracking: bool,
}

/// The character of decimal digit `d`.
pub open spec fn digit_char(d: nat) -> char {
    (d + 48) as char
}

/// The decimal notation of `n`, without leading zeros (`"0"` for zero).
pub open spec fn decimal(n: nat) -> Seq<char>
    decreases n,
{
    if n < 10 {
        seq![digit_char(n)]
    } else {
        decimal(n / 10).push(digit_char(n % 10))
    }
}

/// The header row of the report.
pub open spec fn is_header_row(fields: Seq<String>) -> bool {
    &&& fields.len() == 3
    &&& fields[0]@ == "block_number"@
    &&& fields[1]@ == "proving_time"@
    &&& fields[2]@ == "proving_cycles"@
}

fn digit_text(d: u64) -> (text: &'static str)
    requires
        d < 10,
    ensures
        text@ == seq![digit_char(d as nat)],
{
    proof {
        reveal_strlit("0");
        reveal_strlit("1");
        reveal_strlit("2");
        reveal_strlit("3");
        reveal_strlit("4");
        reveal_strlit("5");
        reveal_strlit("6");
        reveal_strlit("7");
        reveal_strlit("8");
        reveal_strlit("9");
    }
    match d {
        0 => "0",
        1 => "1",
        2 => "2",
        3 => "3",
        4 => "4",
        5 => "5",
        6 => "6",
        7 => "7",
        8 => "8",
        _ => "9",
    }
}

fn append_decimal(text: &mut String, n: u64)
    ensures
        final(text)@ == old(text)@ + decimal(n as nat),
    decreases n,
{
    if n >= 10 {
        append_decimal(text, n / 10);
    }
    text.append(digit_text(n % 10));
    assert(decimal(n as nat) == if n < 10 {
        seq![digit_char(n as nat)]
    } else {
        decimal((n / 10) as nat).push(digit_char((n % 10) as nat))
    });
}

/// The decimal notation of `n`.
pub fn decimal_text(n: u64) -> (text: String)
    ensures
        text@ == decimal(n as nat),
{
    let mut text = String::new();
    append_decimal(&mut text, n);
    assert(text@ =~= decimal(n as nat));
    text
}

impl PersistExecutionReport {
    /// A report for chain `chain_id`, written to `report_path`.
    pub fn new(
        chain_id: u64,
        report_path: PathBuf,
        precompile_tracking: bool,
        opcode_tracking: bool,
    ) -> (report: Self)
        ensures
            report.chain_id() == chain_id,
            report.report_path_spec() == report_path,
            report.precompile_tracking() == precompile_tracking,
            report.opcode_tracking() == opcode_tracking,
    {
        Self { chain_id, report_path, precompile_tracking, opcode_tracking }
    }

    /// The chain the report is about.
    pub closed spec fn chain_id(&self) -> u64 {
        self.chain_id
    }

    /// The file the report is written to.
    pub closed spec fn report_path_spec(&self) -> PathBuf {
        self.report_path
    }

    /// Whether precompile use is tracked.
    pub closed spec fn precompile_tracking(&self) -> bool {
        self.precompile_tracking
    }

    /// Whether opcode use is tracked.
    pub closed spec fn opcode_tracking(&self) -> bool {
        self.opcode_tracking
    }

    /// The file the report is written to.
    pub fn report_path(&self) -> (path: &PathBuf)
        ensures
            *path == self.report_path_spec(),
    {
        &self.report_path
    }

    /// The header row of the report.
    pub fn header_fields(&self) -> (fields: Vec<String>)
        ensures
            is_header_row(fields@),
    {
        let fields = vec![
            "block_number".to_owned(),
            "proving_time".to_owned(),
            "proving_cycles".to_owned(),
        ];
        fields
    }

    /// The header row to write before the next record: the header when the
    /// report file is still empty (holds `file_len == 0` bytes), nothing
    /// otherwise.
    pub fn header_to_write(&self, file_len: u64) -> (header: Option<Vec<String>>)
        ensures
            header is Some <==> file_len == 0,
            header matches Some(fields) ==> is_header_row(fields@),
    {
        if file_len == 0 {
            Some(self.header_fields())
        } else {
            None
        }
    }

    /// The record row for a proved block: the block number and the executed
    /// instruction count in decimal, then the proving time as already
    /// rendered by the caller.
    pub fn record_fields(&self, block_number: u64, instruction_count: u64, proving_time: String) -> (fields: Vec<String>)
        ensures
            fields.len() == 3,
            fields[0]@ == decimal(block_number as nat),
            fields[1]@ == decimal(instruction_count as nat),
            fields[2]@ == proving_time@,
    {
        let mut fields: Vec<String> = Vec::new();
        fields.push(decimal_text(block_number));
        fields.push(decimal_text(instruction_count));
        fields.push(proving_time);
        fields
    }
}

} // verus!
