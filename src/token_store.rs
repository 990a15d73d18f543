use vstd::prelude::*;

use crate::toxic_service::{append_decimal, decimal};

verus! {

#[verifier::external_type_specification]
#[verifier::external_body]
pub struct ExPathBuf(std::path::PathBuf);

/// Relies on std's `DefaultHasher::new()` fed the scope list through `Hash`:
/// a number that keys the token of these scopes. It depends on the platform
/// (word size, byte order), so nothing is stated of it.
#[verifier::external_body]
fn scopes_hash(scopes: &[&str]) -> u64 {
    let mut hasher = std::collections::hash_map::DefaultHasher::new();
    std::hash::Hash::hash(scopes, &mut hasher);
    std::hash::Hasher::finish(&hasher)
}

/// Relies on std::path::Path::join: the file name placed in the directory,
/// with the platform's separator.
#[verifier::external_body]
fn join_path(dir: &str, file: &str) -> std::path::PathBuf {
    std::path::Path::new(dir).join(file)
}

/// Name of the token file of a program for a scope hash:
/// `<program>-token-<hash>.json`.
pub open spec fn token_file_name_of(program_name: Seq<char>, hash: u64) -> Seq<char> {
    program_name + "-token-"@ + decimal(hash as nat) + ".json"@
}

/// Builds the token file name of a program for a scope hash.
pub fn token_file_name(program_name: &String, hash: u64) -> (r: String)
    ensures
        r@ == token_file_name_of(program_name@, hash),
{
    let mut name = program_name.clone();
    name.append("-token-");
    append_decimal(&mut name, hash);
    name.append(".json");
    name
}

/// Keeps OAuth tokens as JSON files in a directory, one per scope list.
pub struct JsonTokenStore {
    program_name: String,
    db_dir: String,
}

impl JsonTokenStore {
    /// The name that prefixes the token files.
    pub closed spec fn program_name_spec(&self) -> Seq<char> {
        self.program_name@
    }

    /// The directory of the token files.
    pub closed spec fn db_dir_spec(&self) -> Seq<char> {
        self.db_dir@
    }

    pub fn new(program_name: String, db_dir: String) -> (r: JsonTokenStore)
        ensures
            r.program_name_spec() == program_name@,
            r.db_dir_spec() == db_dir@,
    {
        JsonTokenStore { program_name, db_dir }
    }

    /// The token file for a scope list: `<program>-token-<hash>.json` in the
    /// store's directory, the hash being that of the scope list.
    pub fn path(&self, scopes: &[&str]) -> std::path::PathBuf {
        let name = token_file_name(&self.program_name, scopes_hash(scopes));
        join_path(self.db_dir.as_str(), name.as_str())
    }
}

} // verus!
