//! The KDB implementation of the database abstraction.

use vstd::prelude::*;

use vstd::string::StringExecFns;
use vstd::string::StringSliceAdditionalSpecFns;

use crate::api;
use crate::api::PasswordDatabase;
use crate::parser;
use crate::parser::KdbFile;

verus! {

/// A successfully opened KDB database.
#[derive(Debug)]
pub struct KdbDatabase {
    pub file: KdbFile,
}

impl PasswordDatabase for KdbDatabase {
    open spec fn wf(&self) -> bool {
        self.file.wf()
    }

    open spec fn spec_entry_count(&self) -> u32 {
        self.file.header.entry_count
    }

    fn get_entry_count(&self) -> (n: u32) {
        self.file.entries.len() as u32
    }
}

/// Open a database from file bytes already in memory: the pure half of
/// opening a file. Reading the bytes belongs to the caller, and a read
/// failure there is its own error; nothing of a failed parse is retained.
pub fn open_bytes(buffer: &[u8], password: &str) -> (r: Result<KdbDatabase, api::Error>)
    ensures
        match r {
            Ok(db) => ({
                &&& parser::spec_parse_kdb(buffer@, password.spec_bytes()) matches Ok(f)
                    && db.file@ == f
                &&& db.wf()
            }),
            Err(e) => ({
                &&& parser::spec_parse_kdb(buffer@, password.spec_bytes()) matches Err(pe)
                    && e.desc@ == "Failed to parse file: "@ + parser::spec_describe(pe)
            }),
        },
{
    let kdb_file = match parser::parse_kdb_file(buffer, password) {
        Ok(f) => f,
        Err(e) => {
            let mut desc = String::new();
            desc.append("Failed to parse file: ");
            let detail = e.describe();
            desc.append(detail.as_str());
            proof {
                assert(desc@ =~= "Failed to parse file: "@ + parser::spec_describe(e));
            }
            return Err(api::Error { desc });
        },
    };
    Ok(KdbDatabase { file: kdb_file })
}

} // verus!
