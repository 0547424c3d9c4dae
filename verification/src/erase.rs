//! The secure-erase verifier: device-family dispatch and classification of
//! the textual output of the family-specific status tool.
//!
//! The caller invokes the vendor tool (`hdparm` for SATA devices, `nvme`
//! for NVMe ones) and hands its captured output here; this module holds the
//! verified decision logic: which family a device path belongs to, and
//! whether the output carries that family's success marker.

use vstd::prelude::*;

verus! {

/// Holds iff `needle` occurs in `hay` starting at position `i`.
pub open spec fn matches_at(hay: Seq<char>, needle: Seq<char>, i: int) -> bool {
    &&& 0 <= i
    &&& i + needle.len() <= hay.len()
    &&& hay.subrange(i, i + needle.len() as int) == needle
}

/// Holds iff `needle` occurs somewhere in `hay` as a contiguous run.
pub open spec fn contains_seq(hay: Seq<char>, needle: Seq<char>) -> bool {
    exists|i: int| matches_at(hay, needle, i)
}

/// The characters of a string, with constant-time indexing.
fn chars_of(s: &str) -> (v: Vec<char>)
    ensures
        v@ == s@,
{
    let n = s.unicode_len();
    let mut v: Vec<char> = Vec::new();
    let mut i: usize = 0;
    while i < n
        invariant
            n == s@.len(),
            i <= n,
            v@ == s@.subrange(0, i as int),
        decreases n - i,
    {
        v.push(s.get_char(i));
        i = i + 1;
        proof {
            assert(v@ =~= s@.subrange(0, i as int));
        }
    }
    proof {
        assert(v@ =~= s@);
    }
    v
}

/// Returns whether `needle` occurs in `hay` starting exactly at `i`.
fn match_at_index(hay: &Vec<char>, needle: &Vec<char>, i: usize) -> (r: bool)
    requires
        i + needle@.len() <= hay@.len(),
    ensures
        r == matches_at(hay@, needle@, i as int),
{
    let nn = needle.len();
    let hn = hay.len();
    let mut j: usize = 0;
    while j < nn
        invariant
            nn == needle@.len(),
            hn == hay@.len(),
            i + nn <= hn,
            j <= nn,
            forall|k: int| 0 <= k < j ==> hay@[i + k] == needle@[k],
        decreases nn - j,
    {
        if hay[i + j] != needle[j] {
            proof {
                if matches_at(hay@, needle@, i as int) {
                    assert(hay@.subrange(i as int, i as int + nn as int)[j as int] == needle@[
                        j as int]);
                    assert(hay@.subrange(i as int, i as int + nn as int)[j as int] == hay@[
                        i as int + j as int]);
                }
            }
            return false;
        }
        j = j + 1;
    }
    proof {
        assert(hay@.subrange(i as int, i as int + nn as int) =~= needle@);
    }
    true
}

/// Returns whether `needle` occurs anywhere in `hay` as a contiguous run.
fn contains_chars(hay: &Vec<char>, needle: &Vec<char>) -> (r: bool)
    ensures
        r == contains_seq(hay@, needle@),
{
    let hn = hay.len();
    let nn = needle.len();
    if nn > hn {
        proof {
            assert(forall|i: int| !matches_at(hay@, needle@, i));
        }
        return false;
    }
    if nn == 0 {
        proof {
            assert(hay@.subrange(0, 0) =~= needle@);
            assert(matches_at(hay@, needle@, 0));
        }
        return true;
    }
    let last = hn - nn;
    let mut i: usize = 0;
    while i <= last
        invariant
            hn == hay@.len(),
            nn == needle@.len(),
            1 <= nn <= hn,
            last == hn - nn,
            i <= last + 1,
            forall|k: int| 0 <= k < i ==> !matches_at(hay@, needle@, k),
        decreases last + 1 - i,
    {
        if match_at_index(hay, needle, i) {
            return true;
        }
        i = i + 1;
    }
    proof {
        assert(forall|k: int| k > last ==> !matches_at(hay@, needle@, k));
    }
    false
}

/// Returns whether `needle` occurs in `hay` as a contiguous run of
/// characters.
pub fn contains_str(hay: &str, needle: &str) -> (r: bool)
    ensures
        r == contains_seq(hay@, needle@),
{
    let h = chars_of(hay);
    let n = chars_of(needle);
    contains_chars(&h, &n)
}

/// The two device families the verifier can query, each through its own
/// vendor status tool.
#[derive(Clone, Copy, Debug, PartialEq, Eq, Structural)]
pub enum DeviceFamily {
    Nvme,
    Sata,
}

/// Whether the vendor-reported secure-erase status was confirmed.
#[derive(Clone, Copy, Debug, PartialEq, Eq, Structural)]
pub enum EraseVerdict {
    Verified,
    NotVerified,
}

/// The status query could not be performed: the vendor tool failed to run.
#[derive(Clone, Copy, Debug, PartialEq, Eq, Structural)]
pub enum CollaboratorError {
    QueryFailed,
}

/// The substring of a device path that marks it as an NVMe device.
pub open spec fn nvme_name_tag() -> Seq<char> {
    "nvme"@
}

/// The success marker of the SATA status tool's output.
pub open spec fn sata_marker() -> Seq<char> {
    "supported: enhanced erase"@
}

/// The success marker of the NVMe status tool's output.
pub open spec fn nvme_marker() -> Seq<char> {
    "completed"@
}

/// The family a path is dispatched to: paths with an NVMe-style name go to
/// the NVMe query, all others to the SATA one.
pub open spec fn family_of(path: Seq<char>) -> DeviceFamily {
    if contains_seq(path, nvme_name_tag()) {
        DeviceFamily::Nvme
    } else {
        DeviceFamily::Sata
    }
}

/// The success marker expected from the given family's status tool.
pub open spec fn family_marker(f: DeviceFamily) -> Seq<char> {
    match f {
        DeviceFamily::Nvme => nvme_marker(),
        DeviceFamily::Sata => sata_marker(),
    }
}

/// Holds iff `output`, captured from the status tool of the family the path
/// dispatches to, carries that family's success marker.
pub open spec fn erase_confirmed(path: Seq<char>, output: Seq<char>) -> bool {
    contains_seq(output, family_marker(family_of(path)))
}

/// Decides which family's status tool a device path is dispatched to.
pub fn device_family(path: &str) -> (f: DeviceFamily)
    ensures
        f == family_of(path@),
{
    if contains_str(path, "nvme") {
        DeviceFamily::Nvme
    } else {
        DeviceFamily::Sata
    }
}

/// Classifies the captured output of a family's status tool: `Verified`
/// exactly when the family's success marker occurs in it.
pub fn classify_output(family: DeviceFamily, output: &str) -> (v: EraseVerdict)
    ensures
        v == EraseVerdict::Verified <==> contains_seq(output@, family_marker(family)),
{
    let marker: &str = match family {
        DeviceFamily::Nvme => "completed",
        DeviceFamily::Sata => "supported: enhanced erase",
    };
    if contains_str(output, marker) {
        EraseVerdict::Verified
    } else {
        EraseVerdict::NotVerified
    }
}

/// The secure-erase decision for one device. `query` is the outcome of
/// invoking the status tool of the device's family: its captured output, or
/// `None` where the tool could not be run. A failed invocation is an error
/// of its own, distinct from a run whose output merely lacks the marker.
pub fn verify_erase(device: &str, query: Option<&str>) -> (r: Result<
    EraseVerdict,
    CollaboratorError,
>)
    ensures
        r is Err <==> query is None,
        r is Err ==> r == Err::<EraseVerdict, CollaboratorError>(CollaboratorError::QueryFailed),
        query matches Some(out) ==> r == Ok::<EraseVerdict, CollaboratorError>(
            if erase_confirmed(device@, out@) {
                EraseVerdict::Verified
            } else {
                EraseVerdict::NotVerified
            },
        ),
{
    match query {
        None => Err(CollaboratorError::QueryFailed),
        Some(out) => {
            let fam = device_family(device);
            Ok(classify_output(fam, out))
        },
    }
}

/// The boolean collapse of the secure-erase decision: true exactly when the
/// family's status tool ran and its output carries the family's marker; a
/// failed invocation collapses to false.
pub fn check_ssd(device: &str, query: Option<&str>) -> (r: bool)
    ensures
        r <==> (query matches Some(out) && erase_confirmed(device@, out@)),
{
    match verify_erase(device, query) {
        Ok(EraseVerdict::Verified) => true,
        _ => false,
    }
}

/// Law: the verdict of a device is decided by one family's marker alone. A
/// path with an NVMe-style name is confirmed exactly by the NVMe marker,
/// every other path exactly by the SATA marker; neither family's verdict
/// consults the other family's marker.
pub proof fn lemma_family_dispatch(path: Seq<char>, output: Seq<char>)
    ensures
        contains_seq(path, nvme_name_tag()) ==> (erase_confirmed(path, output) <==> contains_seq(
            output,
            nvme_marker(),
        )),
        !contains_seq(path, nvme_name_tag()) ==> (erase_confirmed(path, output) <==> contains_seq(
            output,
            sata_marker(),
        )),
{
}

} // verus!
