//! Planning where extracted files are materialized on disk.
//!
//! Each dependency gets its own directory under `target/nuget`, keyed by the
//! dependency's name, so two dependencies never write into each other's
//! directory. The writes themselves are the caller's file-system glue; the
//! destination is decided here.

use vstd::prelude::*;
use vstd::string::StringExecFns;
use vstd::string::StringSliceAdditionalSpecFns;

verus! {

/// The directory a dependency's files are written into: `target/nuget/`
/// followed by the dependency's name.
pub open spec fn dep_dir_spec(name: Seq<char>) -> Seq<char> {
    "target/nuget/"@ + name
}

/// The destination directory for the dependency called `name`. Disjoint
/// directories for distinct names, so materializing one dependency never
/// touches another's files.
pub fn dep_directory(name: &String) -> (r: String)
    ensures
        r@ == dep_dir_spec(name@),
{
    let mut s: String = "target/nuget/".to_owned();
    s.append(name.as_str());
    s
}

/// The full destination path of one extracted file, in UTF-8 bytes: the
/// dependency's directory, a `/` separator, and the file's bare name.
pub fn file_destination(dir: &str, file: &Vec<u8>) -> (r: Vec<u8>)
    ensures
        r@ == dir.spec_bytes() + seq![47u8] + file@,
{
    let db = dir.as_bytes();
    let n = db.len();
    let mut out: Vec<u8> = Vec::new();
    let mut k: usize = 0;
    while k < n
        invariant
            n == db@.len(),
            db@ == dir.spec_bytes(),
            0 <= k <= n,
            out@ == db@.subrange(0, k as int),
        decreases n - k,
    {
        out.push(db[k]);
        proof {
            assert(db@.subrange(0, k + 1) =~= db@.subrange(0, k as int).push(db@[k as int]));
        }
        k = k + 1;
    }
    proof {
        assert(out@ =~= db@);
    }
    out.push(47);
    let m = file.len();
    let mut k2: usize = 0;
    while k2 < m
        invariant
            m == file@.len(),
            out@ == dir.spec_bytes() + seq![47u8] + file@.subrange(0, k2 as int),
            0 <= k2 <= m,
        decreases m - k2,
    {
        out.push(file[k2]);
        proof {
            assert(file@.subrange(0, k2 + 1) =~= file@.subrange(0, k2 as int).push(
                file@[k2 as int],
            ));
            assert(dir.spec_bytes() + seq![47u8] + file@.subrange(0, k2 + 1) =~= (dir.spec_bytes()
                + seq![47u8] + file@.subrange(0, k2 as int)).push(file@[k2 as int]));
        }
        k2 = k2 + 1;
    }
    proof {
        assert(dir.spec_bytes() + seq![47u8] + file@.subrange(0, m as int) =~= dir.spec_bytes()
            + seq![47u8] + file@);
    }
    out
}

/// The `install` subcommand: fetch every declared dependency and materialize
/// its payload files.
pub struct Install {}

} // verus!
