//! The command layer's data: the parsed arguments and the one record they
//! produce. Parsing itself is argument-handling glue and lives outside the
//! library; the library holds the parsed value and what is logged for it.

use vstd::prelude::*;

verus! {

/// The greeting logged when no placeholder is given.
pub open spec fn default_placeholder() -> Seq<u8> {
    seq![119u8, 101u8, 108u8, 99u8, 111u8, 109u8, 101u8]
}

/// The parsed command-line arguments.
pub struct Cli {
    /// Placeholder argument; logged once at startup.
    pub placeholder: Vec<u8>,
}

impl Cli {
    /// Runs the command: yields the one record to log, the placeholder
    /// itself.
    pub fn run(&self) -> (record: Vec<u8>)
        ensures
            record@ == self.placeholder@,
    {
        let mut record: Vec<u8> = Vec::new();
        crate::bytes::push_all(&mut record, &self.placeholder);
        proof {
            assert(record@ =~= self.placeholder@);
        }
        record
    }
}

impl Default for Cli {
    /// The arguments as parsed when none are given: the default greeting.
    fn default() -> (c: Cli)
        ensures
            c.placeholder@ == default_placeholder(),
    {
        let mut placeholder: Vec<u8> = Vec::new();
        placeholder.push(119);
        placeholder.push(101);
        placeholder.push(108);
        placeholder.push(99);
        placeholder.push(111);
        placeholder.push(109);
        placeholder.push(101);
        proof {
            assert(placeholder@ =~= default_placeholder());
        }
        Cli { placeholder }
    }
}

} // verus!
