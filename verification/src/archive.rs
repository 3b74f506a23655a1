//! Trusted boundary around the `zip` crate: opening a package archive and
//! reading its entries.
//!
//! An archive is a collection of named, independently compressed entries,
//! and everything the `zip` crate computes here is a deterministic function
//! of the archive's bytes. Verified code sees those results through named
//! spec functions — whether the container opens, each entry's name bytes,
//! each entry's fully decompressed contents, and whether reading or
//! decompressing an entry succeeds — and through the wrappers below, whose
//! contracts say exactly which name each call returns.

use vstd::prelude::*;

verus! {

#[verifier::external_type_specification]
#[verifier::external_body]
#[verifier::reject_recursive_types(R)]
pub struct ExZipArchive<R>(zip::read::ZipArchive<R>);

#[verifier::external_type_specification]
#[verifier::external_body]
#[verifier::reject_recursive_types(T)]
pub struct ExCursor<T>(std::io::Cursor<T>);

/// Whether `zip::ZipArchive::new` opens `bytes` as an archive container.
pub uninterp spec fn zip_opens(bytes: Seq<u8>) -> bool;

/// The UTF-8 bytes of each entry's name in the archive held in `bytes`, in
/// central-directory order.
pub uninterp spec fn zip_names(bytes: Seq<u8>) -> Seq<Seq<u8>>;

/// The fully decompressed contents of each entry of the archive held in
/// `bytes`, in central-directory order.
pub uninterp spec fn zip_datas(bytes: Seq<u8>) -> Seq<Seq<u8>>;

/// Whether entry `i` of the archive held in `bytes` can be opened for
/// reading (`zip::ZipArchive::by_index` succeeds on it).
pub uninterp spec fn zip_entry_readable(bytes: Seq<u8>, i: int) -> bool;

/// Whether entry `i` of the archive held in `bytes` decompresses to
/// completion (reading it to the end succeeds).
pub uninterp spec fn zip_entry_ok(bytes: Seq<u8>, i: int) -> bool;

/// The bytes an open archive value was parsed from.
pub uninterp spec fn archive_bytes(a: zip::ZipArchive<std::io::Cursor<Vec<u8>>>) -> Seq<u8>;

/// Relies on zip's `ZipArchive::new`: parses the central directory of the
/// archive held in `bytes`. Succeeds exactly when the container opens;
/// `Err` carries the reader's description of the cause (corrupt header,
/// unsupported format).
#[verifier::external_body]
pub(crate) fn archive_open(bytes: &Vec<u8>) -> (r: Result<
    zip::ZipArchive<std::io::Cursor<Vec<u8>>>,
    String,
>)
    ensures
        r is Ok <==> zip_opens(bytes@),
        r matches Ok(a) ==> archive_bytes(a) == bytes@ && zip_names(bytes@).len() == zip_datas(
            bytes@,
        ).len(),
{
    match zip::ZipArchive::new(std::io::Cursor::new(bytes.clone())) {
        Ok(a) => Ok(a),
        Err(e) => Err(format!("{}", e)),
    }
}

/// Relies on zip's `ZipArchive::len`: the number of entries the central
/// directory lists.
#[verifier::external_body]
pub(crate) fn archive_len(a: &zip::ZipArchive<std::io::Cursor<Vec<u8>>>) -> (n: usize)
    ensures
        n == zip_names(archive_bytes(*a)).len(),
        n == zip_datas(archive_bytes(*a)).len(),
{
    a.len()
}

/// Relies on zip's `ZipArchive::by_index` and `ZipFile::name`: the name
/// recorded for entry `i`. Succeeds exactly when the index is in range and
/// the entry can be opened for reading.
#[verifier::external_body]
pub(crate) fn archive_entry_name(a: &mut zip::ZipArchive<std::io::Cursor<Vec<u8>>>, i: usize) -> (r:
    Option<Vec<u8>>)
    ensures
        archive_bytes(*final(a)) == archive_bytes(*old(a)),
        r is Some <==> i < zip_names(archive_bytes(*old(a))).len() && zip_entry_readable(
            archive_bytes(*old(a)),
            i as int,
        ),
        r matches Some(nm) ==> nm@ == zip_names(archive_bytes(*old(a)))[i as int],
{
    match a.by_index(i) {
        Ok(f) => Some(f.name().as_bytes().to_vec()),
        Err(_) => None,
    }
}

/// Relies on zip's `ZipArchive::by_index` and the `Read` impl of `ZipFile`:
/// decompresses entry `i` to completion, whatever length its header
/// advertised. Succeeds exactly when the index is in range and the entry
/// decompresses (a per-entry condition; other entries stay readable).
#[verifier::external_body]
pub(crate) fn archive_entry_data(a: &mut zip::ZipArchive<std::io::Cursor<Vec<u8>>>, i: usize) -> (r:
    Option<Vec<u8>>)
    ensures
        archive_bytes(*final(a)) == archive_bytes(*old(a)),
        r is Some <==> i < zip_datas(archive_bytes(*old(a))).len() && zip_entry_ok(
            archive_bytes(*old(a)),
            i as int,
        ),
        r matches Some(d) ==> d@ == zip_datas(archive_bytes(*old(a)))[i as int],
{
    let mut f = match a.by_index(i) {
        Ok(f) => f,
        Err(_) => return None,
    };
    // The entry's declared uncompressed size comes straight from the archive
    // bytes and is no reliable bound (a crafted size would make a sized
    // pre-allocation abort), so the buffer grows as the read proceeds.
    let mut contents: Vec<u8> = Vec::new();
    match std::io::Read::read_to_end(&mut f, &mut contents) {
        Ok(_) => Some(contents),
        Err(_) => None,
    }
}

} // verus!
