//! The device-state prober and the integrity monitor: best-effort text
//! scans over the output of the external inventory commands.  The
//! caller runs the command and hands the captured text in; the scans
//! themselves are verified against substring and token specifications.

use vstd::prelude::*;

verus! {

use vstd::string::StrSliceExecFns;
use vstd::string::StringExecFns;
use crate::text::contains_seq;
use crate::text::lex_lt;
use crate::text::remove_char;
use crate::text::remove_pair;
use crate::text::split_on;
use crate::text::split_string;
use crate::text::str_contains;
use crate::text::str_eq;
use crate::text::str_lex_ge;
use crate::text::string_remove_char;
use crate::text::string_remove_pair;

/// A block-device token after stripping newlines and the tree-drawing
/// prefix glyphs of the listing.
pub open spec fn cleaned_token(t: Seq<char>) -> Seq<char> {
    remove_pair(remove_char(t, '\n'), '└', '─')
}

/// Some space-separated token of the listing, once cleaned, equals the
/// name.
pub open spec fn lsblk_lists_name(listing: Seq<char>, name: Seq<char>) -> bool {
    exists|k: int|
        0 <= k < split_on(listing, ' ').len() && cleaned_token(
            #[trigger] split_on(listing, ' ')[k],
        ) == name
}

/// Whether `name` appears as a block device in the given listing (the
/// captured output of the block-device inventory command).
pub fn check_lsblk(name: &str, listing: &str) -> (r: bool)
    ensures
        r == lsblk_lists_name(listing@, name@),
{
    let tokens = split_string(listing, ' ');
    let ghost toks = tokens.deep_view();
    let mut k: usize = 0;
    while k < tokens.len()
        invariant
            0 <= k <= tokens.len(),
            toks == tokens.deep_view(),
            toks == split_on(listing@, ' '),
            forall|j: int| 0 <= j < k ==> cleaned_token(#[trigger] toks[j]) != name@,
        decreases tokens.len() - k,
    {
        proof {
            assert(tokens[k as int]@ == toks[k as int]);
        }
        let no_newline = string_remove_char(tokens[k].as_str(), '\n');
        let cleaned = string_remove_pair(no_newline.as_str(), '└', '─');
        if str_eq(cleaned.as_str(), name) {
            proof {
                assert(cleaned_token(split_on(listing@, ' ')[k as int]) == name@);
            }
            return true;
        }
        k = k + 1;
    }
    false
}

/// Some line of the listing holds the namespace followed by a space.
pub open spec fn mapper_line_for(listing: Seq<char>, ns: Seq<char>) -> bool {
    exists|k: int|
        0 <= k < split_on(listing, '\n').len() && contains_seq(
            #[trigger] split_on(listing, '\n')[k],
            ns + seq![' '],
        )
}

/// Whether the container is mounted: a mapper-device listing line
/// (the captured output of listing the mapper directory) holds
/// `namespace` followed by a space.
pub fn check_container_mounted(namespace: &str, listing: &str) -> (r: bool)
    ensures
        r == mapper_line_for(listing@, namespace@),
{
    let pattern = namespace.to_owned().concat(" ");
    proof {
        reveal_strlit(" ");
        assert(" "@ =~= seq![' ']);
    }
    let lines = split_string(listing, '\n');
    let ghost lseq = lines.deep_view();
    let mut k: usize = 0;
    while k < lines.len()
        invariant
            0 <= k <= lines.len(),
            lseq == lines.deep_view(),
            lseq == split_on(listing@, '\n'),
            pattern@ == namespace@ + seq![' '],
            forall|j: int| 0 <= j < k ==> !contains_seq(#[trigger] lseq[j], namespace@ + seq![' ']),
        decreases lines.len() - k,
    {
        proof {
            assert(lines[k as int]@ == lseq[k as int]);
        }
        if str_contains(lines[k].as_str(), pattern.as_str()) {
            proof {
                assert(contains_seq(split_on(listing@, '\n')[k as int], namespace@ + seq![' ']));
            }
            return true;
        }
        k = k + 1;
    }
    false
}

/// Some line of the listing holds the namespace followed by a space and
/// the encrypted-mapping type marker.
pub open spec fn crypt_line_for(listing: Seq<char>, ns: Seq<char>) -> bool {
    exists|k: int|
        0 <= k < split_on(listing, '\n').len() && contains_seq(
            #[trigger] split_on(listing, '\n')[k],
            ns + seq![' '],
        ) && contains_seq(split_on(listing, '\n')[k], "crypt"@)
}

/// Whether the container is unlocked: a row of the detailed
/// block-device listing names `namespace` and carries the
/// encrypted-mapping type marker.
pub fn check_container_open(namespace: &str, listing: &str) -> (r: bool)
    ensures
        r == crypt_line_for(listing@, namespace@),
{
    let pattern = namespace.to_owned().concat(" ");
    proof {
        reveal_strlit(" ");
        assert(" "@ =~= seq![' ']);
    }
    let lines = split_string(listing, '\n');
    let ghost lseq = lines.deep_view();
    let mut k: usize = 0;
    while k < lines.len()
        invariant
            0 <= k <= lines.len(),
            lseq == lines.deep_view(),
            lseq == split_on(listing@, '\n'),
            pattern@ == namespace@ + seq![' '],
            forall|j: int|
                0 <= j < k ==> !(contains_seq(#[trigger] lseq[j], namespace@ + seq![' '])
                    && contains_seq(lseq[j], "crypt"@)),
        decreases lines.len() - k,
    {
        proof {
            assert(lines[k as int]@ == lseq[k as int]);
        }
        if str_contains(lines[k].as_str(), pattern.as_str()) && str_contains(
            lines[k].as_str(),
            "crypt",
        ) {
            proof {
                assert(contains_seq(split_on(listing@, '\n')[k as int], namespace@ + seq![' ']));
                assert(contains_seq(split_on(listing@, '\n')[k as int], "crypt"@));
            }
            return true;
        }
        k = k + 1;
    }
    false
}

/// The leading timestamp token of a log line: the first space-separated
/// token, cut at its first comma.
pub open spec fn fault_time_token(line: Seq<char>) -> Seq<char> {
    split_on(split_on(line, ' ')[0], ',')[0]
}

/// Some log line reports an authenticated-encryption integrity fault
/// whose leading timestamp is not lexicographically below `since`.
pub open spec fn integrity_fault_since(log: Seq<char>, since: Seq<char>) -> bool {
    exists|k: int|
        0 <= k < split_on(log, '\n').len() && contains_seq(
            #[trigger] split_on(log, '\n')[k],
            "INTEGRITY AEAD ERROR"@,
        ) && !lex_lt(fault_time_token(split_on(log, '\n')[k]), since)
}

/// Scans the kernel log text for integrity faults stamped at or after
/// `current_time` (both sides in the same sortable date-time format).
/// Returns true when the log is clean of such faults.
pub fn check_integrity(current_time: &str, log: &str) -> (r: bool)
    ensures
        r == !integrity_fault_since(log@, current_time@),
{
    let lines = split_string(log, '\n');
    let ghost lseq = lines.deep_view();
    let mut k: usize = 0;
    while k < lines.len()
        invariant
            0 <= k <= lines.len(),
            lseq == lines.deep_view(),
            lseq == split_on(log@, '\n'),
            forall|j: int|
                0 <= j < k ==> !(contains_seq(#[trigger] lseq[j], "INTEGRITY AEAD ERROR"@)
                    && !lex_lt(fault_time_token(lseq[j]), current_time@)),
        decreases lines.len() - k,
    {
        proof {
            assert(lines[k as int]@ == lseq[k as int]);
        }
        if str_contains(lines[k].as_str(), "INTEGRITY AEAD ERROR") {
            let space_tokens = split_string(lines[k].as_str(), ' ');
            proof {
                assert(space_tokens[0]@ == split_on(lseq[k as int], ' ')[0]);
            }
            let comma_tokens = split_string(space_tokens[0].as_str(), ',');
            proof {
                assert(comma_tokens[0]@ == fault_time_token(lseq[k as int]));
            }
            if str_lex_ge(comma_tokens[0].as_str(), current_time) {
                proof {
                    assert(contains_seq(split_on(log@, '\n')[k as int], "INTEGRITY AEAD ERROR"@));
                    assert(!lex_lt(fault_time_token(split_on(log@, '\n')[k as int]),
                        current_time@));
                }
                return false;
            }
        }
        k = k + 1;
    }
    true
}

/// The diagnostic with which the kernel reports that it lacks a
/// self-test for the authenticated-encryption algorithm the containers
/// are formatted with.
pub open spec fn integrity_unsupported_marker() -> Seq<char> {
    "alg: No test for authenc(hmac(sha256),xts(aes)) (authenc(hmac(sha256-avx2),xts-aes-aesni))"@
}

/// Some log line carries the missing-self-test diagnostic.
pub open spec fn integrity_unsupported(log: Seq<char>) -> bool {
    exists|k: int|
        0 <= k < split_on(log, '\n').len() && contains_seq(
            #[trigger] split_on(log, '\n')[k],
            integrity_unsupported_marker(),
        )
}

/// Whether the operating system supports the integrity check: true
/// unless the kernel log text carries the missing-self-test diagnostic.
/// Used only to emit a non-fatal warning at create time.
pub fn check_functionality_of_integrity(log: &str) -> (r: bool)
    ensures
        r == !integrity_unsupported(log@),
{
    let lines = split_string(log, '\n');
    let ghost lseq = lines.deep_view();
    let mut k: usize = 0;
    while k < lines.len()
        invariant
            0 <= k <= lines.len(),
            lseq == lines.deep_view(),
            lseq == split_on(log@, '\n'),
            forall|j: int|
                0 <= j < k ==> !contains_seq(#[trigger] lseq[j], integrity_unsupported_marker()),
        decreases lines.len() - k,
    {
        proof {
            assert(lines[k as int]@ == lseq[k as int]);
        }
        if str_contains(
            lines[k].as_str(),
            "alg: No test for authenc(hmac(sha256),xts(aes)) (authenc(hmac(sha256-avx2),xts-aes-aesni))",
        ) {
            proof {
                assert(contains_seq(
                    split_on(log@, '\n')[k as int],
                    integrity_unsupported_marker(),
                ));
            }
            return false;
        }
        k = k + 1;
    }
    true
}

} // verus!
