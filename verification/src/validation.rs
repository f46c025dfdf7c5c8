//! Input validation: pure predicate checks on size, mount point, path,
//! namespace and id.  Each parameter is independently optional, so one
//! validator serves every container operation; the first failing check,
//! in a fixed precedence order, decides the error.

use vstd::prelude::*;

verus! {

use vstd::utf8::is_ascii_chars;
use crate::errors::SecureContainerErr;
use crate::text::contains_char;
use crate::text::str_contains_char;
use crate::fs::check_if_dir_exists;
use crate::fs::check_if_file_exists;
use vstd::string::StrSliceExecFns;

/// A namespace is valid when it is pure ASCII and free of the pipe
/// character the registry uses as a reserved delimiter.
pub open spec fn valid_namespace(ns: Seq<char>) -> bool {
    is_ascii_chars(ns) && !contains_char(ns, '|')
}

/// An id is valid when it is pure ASCII, pipe-free and shorter than 8
/// characters (the key-derivation input consumes at most 8 bytes).
pub open spec fn valid_id(id: Seq<char>) -> bool {
    is_ascii_chars(id) && !contains_char(id, '|') && id.len() < 8
}

/// A path is textually valid when it is pure ASCII and pipe-free.
pub open spec fn valid_path_chars(p: Seq<char>) -> bool {
    is_ascii_chars(p) && !contains_char(p, '|')
}

/// The view of an optional string.
pub open spec fn view_opt(s: Option<&str>) -> Option<Seq<char>> {
    match s {
        Some(v) => Some(v@),
        None => None,
    }
}

/// What the validator returns, given the field values and the outcomes
/// of the three environment probes.  The first failing check wins:
/// size, mount point, namespace, id, path text, path existence, path
/// container probe.
pub open spec fn validate_spec(
    size: Option<i32>,
    mount_point_is_dir: Option<bool>,
    path: Option<Seq<char>>,
    path_is_file: bool,
    path_is_container: bool,
    namespace: Option<Seq<char>>,
    id: Option<Seq<char>>,
) -> Result<(), SecureContainerErr> {
    if size is Some && size->0 < 16 {
        Err(SecureContainerErr::SizeToSmall)
    } else if mount_point_is_dir == Some(false) {
        Err(SecureContainerErr::MountPointNotExists)
    } else if namespace is Some && !valid_namespace(namespace->0) {
        Err(SecureContainerErr::NamespaceNotValid)
    } else if id is Some && !valid_id(id->0) {
        Err(SecureContainerErr::IdNotValid)
    } else if path is Some && !valid_path_chars(path->0) {
        Err(SecureContainerErr::PathNotValid)
    } else if path is Some && !path_is_file {
        Err(SecureContainerErr::PathNotExists)
    } else if path is Some && !path_is_container {
        Err(SecureContainerErr::PathNotLuksContainer)
    } else {
        Ok(())
    }
}

/// The validator on plain values: the caller supplies what the
/// environment probes answered, and the result is pinned down for every
/// combination of inputs.
pub fn check_fields(
    size: Option<i32>,
    mount_point_is_dir: Option<bool>,
    path: Option<&str>,
    path_is_file: bool,
    path_is_container: bool,
    namespace: Option<&str>,
    id: Option<&str>,
) -> (r: Result<(), SecureContainerErr>)
    ensures
        r == validate_spec(
            size,
            mount_point_is_dir,
            view_opt(path),
            path_is_file,
            path_is_container,
            view_opt(namespace),
            view_opt(id),
        ),
{
    if let Some(s) = size {
        if s < 16 {
            return Err(SecureContainerErr::SizeToSmall);
        }
    }
    if let Some(d) = mount_point_is_dir {
        if !d {
            return Err(SecureContainerErr::MountPointNotExists);
        }
    }
    if let Some(ns) = namespace {
        if !ns.is_ascii() || str_contains_char(ns, '|') {
            return Err(SecureContainerErr::NamespaceNotValid);
        }
    }
    if let Some(i) = id {
        if !i.is_ascii() || str_contains_char(i, '|') || i.unicode_len() >= 8 {
            return Err(SecureContainerErr::IdNotValid);
        }
    }
    if let Some(p) = path {
        if !p.is_ascii() || str_contains_char(p, '|') {
            return Err(SecureContainerErr::PathNotValid);
        }
        if !path_is_file {
            return Err(SecureContainerErr::PathNotExists);
        }
        if !path_is_container {
            return Err(SecureContainerErr::PathNotLuksContainer);
        }
    }
    Ok(())
}

/// Checks the given inputs, probing the file system for the mount point
/// and the path.  The result of the external "is this a valid encrypted
/// container" probe is passed in by the caller as `path_is_container`.
///
/// The file-system probes depend on the disk, so the contract says the
/// result is the one `validate_spec` owes for some answer of those
/// probes; `check_fields` pins the result for each answer.
pub fn check_input(
    size: Option<i32>,
    mount_point: Option<&str>,
    path: Option<&str>,
    namespace: Option<&str>,
    id: Option<&str>,
    path_is_container: bool,
) -> (r: Result<(), SecureContainerErr>)
    ensures
        exists|mp_dir: bool, p_file: bool|
            r == #[trigger] validate_spec(
                size,
                probe_answer(mount_point is Some, mp_dir),
                view_opt(path),
                p_file,
                path_is_container,
                view_opt(namespace),
                view_opt(id),
            ),
{
    let mount_point_is_dir: Option<bool> = match mount_point {
        Some(mp) => Some(check_if_dir_exists(mp)),
        None => None,
    };
    let path_is_file: bool = match path {
        Some(p) => check_if_file_exists(p),
        None => true,
    };
    let r = check_fields(
        size,
        mount_point_is_dir,
        path,
        path_is_file,
        path_is_container,
        namespace,
        id,
    );
    proof {
        let mp_wit: bool = match mount_point_is_dir {
            Some(b) => b,
            None => true,
        };
        assert(r == validate_spec(
            size,
            probe_answer(mount_point is Some, mp_wit),
            view_opt(path),
            path_is_file,
            path_is_container,
            view_opt(namespace),
            view_opt(id),
        ));
    }
    r
}

/// The probe answer for an optional field: absent fields are not probed.
pub open spec fn probe_answer(present: bool, answer: bool) -> Option<bool> {
    if present {
        Some(answer)
    } else {
        None
    }
}

} // verus!
