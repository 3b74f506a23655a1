//! Selecting payload files out of a package archive.
//!
//! An entry is wanted exactly when it is a `.winmd` file sitting directly in
//! the archive's `lib/uap10.0` directory (either path separator accepted).
//! Everything else in the archive — documentation, other platforms' binaries
//! — is silently skipped. A selected entry that cannot be decompressed is a
//! per-entry condition: it is dropped and extraction goes on.

use vstd::prelude::*;

use crate::archive::archive_bytes;
use crate::archive::archive_entry_data;
use crate::archive::archive_entry_name;
use crate::archive::archive_len;
use crate::archive::archive_open;
use crate::archive::zip_datas;
use crate::archive::zip_entry_ok;
use crate::archive::zip_entry_readable;
use crate::archive::zip_names;
use crate::archive::zip_opens;
use crate::errors::Error;
use crate::fetch::DownloadedDependency;

verus! {

/// One extracted payload file: its bare name (no directory) and its
/// decompressed contents.
pub struct Winmd {
    pub name: Vec<u8>,
    pub contents: Vec<u8>,
}

/// A path separator byte: `/` or `\`.
pub open spec fn is_sep(c: u8) -> bool {
    c == 47 || c == 92
}

/// `\` normalized to `/`; every other byte unchanged.
pub open spec fn norm_sep(c: u8) -> u8 {
    if c == 92 {
        47
    } else {
        c
    }
}

/// The bytes of `lib/uap10.0`, the directory payload files live under.
pub open spec fn target_dir() -> Seq<u8> {
    seq![108u8, 105u8, 98u8, 47u8, 117u8, 97u8, 112u8, 49u8, 48u8, 46u8, 48u8]
}

/// The bytes of `.winmd`, the extension payload files carry.
pub open spec fn winmd_suffix() -> Seq<u8> {
    seq![46u8, 119u8, 105u8, 110u8, 109u8, 100u8]
}

/// `f` is a bare `.winmd` file name: no separator, the target extension,
/// and a non-empty stem before it.
pub open spec fn winmd_file_name(f: Seq<u8>) -> bool {
    &&& f.len() > winmd_suffix().len()
    &&& forall|k: int| 0 <= k < f.len() ==> !is_sep(#[trigger] f[k])
    &&& forall|k: int|
        0 <= k < winmd_suffix().len() ==> f[f.len() - winmd_suffix().len() + k]
            == #[trigger] winmd_suffix()[k]
}

/// The entry named `path` is wanted: its containing directory is exactly
/// `lib/uap10.0` (separators normalized) and its bare name is a `.winmd`
/// file name.
pub open spec fn selected(path: Seq<u8>) -> bool {
    &&& path.len() > target_dir().len() + 1
    &&& forall|k: int|
        0 <= k < target_dir().len() ==> norm_sep(path[k]) == #[trigger] target_dir()[k]
    &&& is_sep(path[target_dir().len() as int])
    &&& winmd_file_name(file_part(path))
}

/// The bare file name of a selected path: everything after `lib/uap10.0`
/// and its separator.
pub open spec fn file_part(path: Seq<u8>) -> Seq<u8> {
    path.subrange(target_dir().len() as int + 1, path.len() as int)
}

/// Whether `name` is a wanted entry path. Mirrors [`selected`] exactly.
pub fn is_selected(name: &Vec<u8>) -> (b: bool)
    ensures
        b == selected(name@),
{
    if name.len() < 19 {
        // target dir (11), separator, stem (at least 1), extension (6)
        return false;
    }
    let mut k: usize = 0;
    while k < 11
        invariant
            name@.len() >= 19,
            0 <= k <= 11,
            forall|k2: int| 0 <= k2 < k ==> norm_sep(name@[k2]) == #[trigger] target_dir()[k2],
        decreases 11 - k,
    {
        let c = name[k];
        let c = if c == 92 {
            47
        } else {
            c
        };
        if c != target_dir_byte(k) {
            return false;
        }
        k = k + 1;
    }
    let sep = name[11];
    if !(sep == 47 || sep == 92) {
        return false;
    }
    let n = name.len();
    let mut k: usize = 12;
    while k < n
        invariant
            n == name@.len(),
            12 <= k <= n,
            forall|k2: int| 12 <= k2 < k ==> !is_sep(#[trigger] name@[k2]),
        decreases n - k,
    {
        let c = name[k];
        if c == 47 || c == 92 {
            proof {
                assert(file_part(name@)[k as int - 12] == name@[k as int]);
            }
            return false;
        }
        k = k + 1;
    }
    let mut k: usize = 0;
    while k < 6
        invariant
            n == name@.len(),
            n >= 19,
            0 <= k <= 6,
            forall|k2: int|
                0 <= k2 < k ==> name@[n - 6 + k2] == #[trigger] winmd_suffix()[k2],
        decreases 6 - k,
    {
        if name[n - 6 + k] != winmd_suffix_byte(k) {
            return false;
        }
        k = k + 1;
    }
    proof {
        let f = file_part(name@);
        assert forall|k2: int| 0 <= k2 < f.len() implies !is_sep(#[trigger] f[k2]) by {
            assert(f[k2] == name@[k2 + 12]);
        }
        assert forall|k2: int|
            0 <= k2 < winmd_suffix().len() implies f[f.len() - winmd_suffix().len() + k2]
            == #[trigger] winmd_suffix()[k2] by {
            assert(f[f.len() - 6 + k2] == name@[n - 6 + k2]);
        }
    }
    true
}

/// Byte `k` of `lib/uap10.0`.
fn target_dir_byte(k: usize) -> (b: u8)
    requires
        k < 11,
    ensures
        b == target_dir()[k as int],
{
    if k == 0 {
        108
    } else if k == 1 {
        105
    } else if k == 2 {
        98
    } else if k == 3 {
        47
    } else if k == 4 {
        117
    } else if k == 5 {
        97
    } else if k == 6 {
        112
    } else if k == 7 {
        49
    } else if k == 8 {
        48
    } else if k == 9 {
        46
    } else {
        48
    }
}

/// Byte `k` of `.winmd`.
fn winmd_suffix_byte(k: usize) -> (b: u8)
    requires
        k < 6,
    ensures
        b == winmd_suffix()[k as int],
{
    if k == 0 {
        46
    } else if k == 1 {
        119
    } else if k == 2 {
        105
    } else if k == 3 {
        110
    } else if k == 4 {
        109
    } else {
        100
    }
}

/// The bare file name of the entry path `name`, assuming it is selected.
fn file_name_of(name: &Vec<u8>) -> (r: Vec<u8>)
    requires
        selected(name@),
    ensures
        r@ == file_part(name@),
{
    let n = name.len();
    let mut out: Vec<u8> = Vec::new();
    let mut k: usize = 12;
    while k < n
        invariant
            n == name@.len(),
            n >= 12,
            12 <= k <= n,
            out@ == name@.subrange(12, k as int),
        decreases n - k,
    {
        out.push(name[k]);
        proof {
            assert(name@.subrange(12, k + 1) =~= name@.subrange(12, k as int).push(
                name@[k as int],
            ));
        }
        k = k + 1;
    }
    proof {
        assert(out@ =~= file_part(name@));
    }
    out
}

/// Entry `i` of the archive held in `bytes` is one the extractor must
/// produce: the index is in range, the entry can be opened, its path is
/// selected, and it decompresses to completion.
pub open spec fn wanted(bytes: Seq<u8>, i: int) -> bool {
    &&& 0 <= i < zip_names(bytes).len()
    &&& zip_entry_readable(bytes, i)
    &&& selected(zip_names(bytes)[i])
    &&& zip_entry_ok(bytes, i)
}

/// Soundness of an extraction, justified by the entry indices `picks`: the
/// picked indices are strictly increasing and each extracted file carries a
/// wanted entry's bare name and decompressed contents.
pub open spec fn extraction_sound(bytes: Seq<u8>, files: Seq<Winmd>, picks: Seq<int>) -> bool {
    &&& picks.len() == files.len()
    &&& forall|k: int| 0 <= k < picks.len() - 1 ==> #[trigger] picks[k] < picks[k + 1]
    &&& forall|k: int|
        0 <= k < files.len() ==> wanted(bytes, #[trigger] picks[k]) && files[k].name@ == file_part(
            zip_names(bytes)[picks[k]],
        ) && files[k].contents@ == zip_datas(bytes)[picks[k]]
}

/// Completeness of an extraction over the first `n` entries: every wanted
/// entry below `n` was picked.
pub open spec fn extraction_complete_upto(bytes: Seq<u8>, picks: Seq<int>, n: int) -> bool {
    forall|i: int| i < n && #[trigger] wanted(bytes, i) ==> picks.contains(i)
}

/// `files` is exactly the extraction of the archive held in `bytes`: one
/// file per wanted entry, in archive order, with that entry's bare name and
/// decompressed contents — nothing else, and nothing missing.
pub open spec fn extraction_exact(bytes: Seq<u8>, files: Seq<Winmd>, picks: Seq<int>) -> bool {
    &&& extraction_sound(bytes, files, picks)
    &&& extraction_complete_upto(bytes, picks, zip_names(bytes).len() as int)
}

/// Some sequence of entry indices justifies `files` as exactly the
/// extraction of the archive held in `bytes`.
pub open spec fn extraction_result(bytes: Seq<u8>, files: Seq<Winmd>) -> bool {
    exists|picks: Seq<int>| extraction_exact(bytes, files, picks)
}

/// Walks every entry of an open archive and extracts the wanted ones, in
/// archive order: every `.winmd` directly under `lib/uap10.0` that can be
/// read and decompressed, each with its exact contents, and nothing else.
/// An entry that cannot be read or decompressed is skipped; the rest of the
/// archive is kept.
pub fn extract_entries(a: &mut zip::ZipArchive<std::io::Cursor<Vec<u8>>>) -> (r: Vec<Winmd>)
    ensures
        archive_bytes(*final(a)) == archive_bytes(*old(a)),
        extraction_result(archive_bytes(*old(a)), r@),
{
    let ghost bts = archive_bytes(*a);
    let n = archive_len(a);
    let mut out: Vec<Winmd> = Vec::new();
    let ghost mut picks: Seq<int> = Seq::empty();
    let mut i: usize = 0;
    while i < n
        invariant
            archive_bytes(*a) == bts,
            n == zip_names(bts).len(),
            zip_names(bts).len() == zip_datas(bts).len(),
            0 <= i <= n,
            extraction_sound(bts, out@, picks),
            extraction_complete_upto(bts, picks, i as int),
            forall|k: int| 0 <= k < picks.len() ==> #[trigger] picks[k] < i,
        decreases n - i,
    {
        let mut picked = false;
        match archive_entry_name(a, i) {
            Some(nm) => {
                if is_selected(&nm) {
                    match archive_entry_data(a, i) {
                        Some(contents) => {
                            let bare = file_name_of(&nm);
                            let ghost prev = out@;
                            let ghost prev_picks = picks;
                            out.push(Winmd { name: bare, contents });
                            picked = true;
                            proof {
                                picks = picks.push(i as int);
                                assert forall|k: int|
                                    0 <= k < picks.len() - 1 implies #[trigger] picks[k] < picks[k
                                    + 1] by {
                                    assert(picks[k] == prev_picks[k]);
                                    if k + 1 < picks.len() - 1 {
                                        assert(picks[k + 1] == prev_picks[k + 1]);
                                    }
                                }
                                assert forall|k: int|
                                    0 <= k < out@.len() implies wanted(
                                    bts,
                                    #[trigger] picks[k],
                                ) && out@[k].name@ == file_part(zip_names(bts)[picks[k]])
                                    && out@[k].contents@ == zip_datas(bts)[picks[k]] by {
                                    if k < prev.len() {
                                        assert(out@[k] == prev[k]);
                                        assert(picks[k] == prev_picks[k]);
                                    } else {
                                        assert(wanted(bts, i as int));
                                    }
                                }
                                assert forall|i2: int|
                                    i2 < i + 1 && #[trigger] wanted(bts, i2) implies picks.contains(
                                    i2,
                                ) by {
                                    if i2 < i {
                                        let k = choose|k: int|
                                            0 <= k < prev_picks.len() && prev_picks[k] == i2;
                                        assert(picks[k] == i2);
                                    } else {
                                        assert(picks[picks.len() - 1] == i2);
                                    }
                                }
                            }
                        },
                        None => {
                            // The entry is wanted by its path but cannot be
                            // decompressed: drop it and keep the rest.
                        },
                    }
                }
            },
            None => {
                // The entry cannot be opened for reading: nothing to select
                // it by.
            },
        }
        proof {
            if !picked {
                assert forall|i2: int|
                    i2 < i + 1 && #[trigger] wanted(bts, i2) implies picks.contains(i2) by {}
            }
        }
        i = i + 1;
    }
    proof {
        assert(extraction_exact(bts, out@, picks));
        assert(extraction_result(bts, out@));
    }
    out
}

impl DownloadedDependency {
    /// Opens this dependency's downloaded archive and extracts its payload
    /// files: exactly one per wanted entry, as `extraction_exact` states.
    /// Fails exactly when the archive container itself cannot be opened;
    /// then the error names this dependency and carries the reader's
    /// description of the cause.
    pub fn winmds(&self) -> (r: Result<Vec<Winmd>, Error>)
        ensures
            r is Ok <==> zip_opens(self.bytes@),
            r matches Err(e) ==> (e matches Error::ExtractionError(nm, _) && nm@
                == self.dependency.name@),
            r matches Ok(v) ==> extraction_result(self.bytes@, v@),
    {
        let mut archive = match archive_open(&self.bytes) {
            Ok(archive) => archive,
            Err(cause) => {
                return Err(Error::ExtractionError(self.dependency.name.clone(), cause));
            },
        };
        let files = extract_entries(&mut archive);
        proof {
            assert(extraction_result(self.bytes@, files@));
        }
        Ok(files)
    }
}

} // verus!
