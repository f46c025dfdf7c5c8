//! The unified error taxonomy: every operation entry point reports one of
//! these kinds, so a single error-to-message and message-to-exit-code
//! mapping serves every boundary.

use vstd::prelude::*;

verus! {

use vstd::string::StringExecFns;
use crate::text::str_eq;

/// Every error the container operations can surface, plus `OK`, the
/// display string of which marks success.
#[derive(Debug, PartialEq, Eq, Clone)]
pub enum SecureContainerErr {
    SizeToSmall,
    MountPointNotExists,
    PathNotExists,
    NamespaceNotValid,
    IdNotValid,
    LsblkError(String),
    ReadingStdoutError(String),
    UmountError(String),
    MountError(String),
    MkfsError(String),
    LsError(String),
    CryptsetupError(String),
    StdinError(String),
    FileCreationError(String),
    FileWriteError(String),
    LibutaDeriveKeyError(String),
    FileReadError(String),
    FileOpenError(String),
    IntegrityError,
    ContainerMounted,
    ContainerOpen,
    ContainerNameExists,
    FileExists,
    SecertError,
    PathNotLuksContainer,
    PathNotValid,
    IsNotLuks(String),
    OK,
}

/// The display string of each error kind.
pub open spec fn message_spec(e: SecureContainerErr) -> Seq<char> {
    match e {
        SecureContainerErr::SizeToSmall => "Size of container to small"@,
        SecureContainerErr::MountPointNotExists => "Mountpoint wrong"@,
        SecureContainerErr::PathNotExists => "Not valid path"@,
        SecureContainerErr::NamespaceNotValid => "Not valid namespace"@,
        SecureContainerErr::IdNotValid => "Not valid id"@,
        SecureContainerErr::LsblkError(s) => "Lsblk error: "@ + s@,
        SecureContainerErr::ReadingStdoutError(s) => "Reading stdout error: "@ + s@,
        SecureContainerErr::UmountError(s) => "Umount error: "@ + s@,
        SecureContainerErr::MountError(s) => "Mount error: "@ + s@,
        SecureContainerErr::MkfsError(s) => "Mkfs error: "@ + s@,
        SecureContainerErr::LsError(s) => "Ls error: "@ + s@,
        SecureContainerErr::CryptsetupError(s) => "Cryptsetup error: "@ + s@,
        SecureContainerErr::StdinError(s) => "Stdin error: "@ + s@,
        SecureContainerErr::FileCreationError(s) => "File creation error: "@ + s@,
        SecureContainerErr::FileWriteError(s) => "File write error: "@ + s@,
        SecureContainerErr::LibutaDeriveKeyError(s) => "Libuta derive key error: "@ + s@,
        SecureContainerErr::FileReadError(s) => "File read error: "@ + s@,
        SecureContainerErr::FileOpenError(s) => "File open error: "@ + s@,
        SecureContainerErr::IntegrityError => "Integrity error"@,
        SecureContainerErr::ContainerMounted => "Container mounted"@,
        SecureContainerErr::ContainerOpen => "Container open"@,
        SecureContainerErr::ContainerNameExists => "Container with that name already exists"@,
        SecureContainerErr::FileExists => "File already exists"@,
        SecureContainerErr::SecertError => "Secret not valid"@,
        SecureContainerErr::PathNotLuksContainer => "Path is not a luks container"@,
        SecureContainerErr::PathNotValid => "Path not valid"@,
        SecureContainerErr::IsNotLuks(s) => "Path is not a luks divice: "@ + s@,
        SecureContainerErr::OK => "OK"@,
    }
}

impl SecureContainerErr {
    /// Renders the error as its display string.
    pub fn message(&self) -> (r: String)
        ensures
            r@ == message_spec(*self),
    {
        match self {
            SecureContainerErr::SizeToSmall => "Size of container to small".to_owned(),
            SecureContainerErr::MountPointNotExists => "Mountpoint wrong".to_owned(),
            SecureContainerErr::PathNotExists => "Not valid path".to_owned(),
            SecureContainerErr::NamespaceNotValid => "Not valid namespace".to_owned(),
            SecureContainerErr::IdNotValid => "Not valid id".to_owned(),
            SecureContainerErr::LsblkError(s) => "Lsblk error: ".to_owned().concat(s.as_str()),
            SecureContainerErr::ReadingStdoutError(s) => "Reading stdout error: ".to_owned()
                .concat(s.as_str()),
            SecureContainerErr::UmountError(s) => "Umount error: ".to_owned().concat(s.as_str()),
            SecureContainerErr::MountError(s) => "Mount error: ".to_owned().concat(s.as_str()),
            SecureContainerErr::MkfsError(s) => "Mkfs error: ".to_owned().concat(s.as_str()),
            SecureContainerErr::LsError(s) => "Ls error: ".to_owned().concat(s.as_str()),
            SecureContainerErr::CryptsetupError(s) => "Cryptsetup error: ".to_owned().concat(
                s.as_str(),
            ),
            SecureContainerErr::StdinError(s) => "Stdin error: ".to_owned().concat(s.as_str()),
            SecureContainerErr::FileCreationError(s) => "File creation error: ".to_owned().concat(
                s.as_str(),
            ),
            SecureContainerErr::FileWriteError(s) => "File write error: ".to_owned().concat(
                s.as_str(),
            ),
            SecureContainerErr::LibutaDeriveKeyError(s) => "Libuta derive key error: ".to_owned()
                .concat(s.as_str()),
            SecureContainerErr::FileReadError(s) => "File read error: ".to_owned().concat(
                s.as_str(),
            ),
            SecureContainerErr::FileOpenError(s) => "File open error: ".to_owned().concat(
                s.as_str(),
            ),
            SecureContainerErr::IntegrityError => "Integrity error".to_owned(),
            SecureContainerErr::ContainerMounted => "Container mounted".to_owned(),
            SecureContainerErr::ContainerOpen => "Container open".to_owned(),
            SecureContainerErr::ContainerNameExists =>
                "Container with that name already exists".to_owned(),
            SecureContainerErr::FileExists => "File already exists".to_owned(),
            SecureContainerErr::SecertError => "Secret not valid".to_owned(),
            SecureContainerErr::PathNotLuksContainer => "Path is not a luks container".to_owned(),
            SecureContainerErr::PathNotValid => "Path not valid".to_owned(),
            SecureContainerErr::IsNotLuks(s) => "Path is not a luks divice: ".to_owned().concat(
                s.as_str(),
            ),
            SecureContainerErr::OK => "OK".to_owned(),
        }
    }
}

/// The exit code owed to each display string; unrecognised text maps to
/// the catch-all code 28.
pub open spec fn exit_code_spec(s: Seq<char>) -> int {
    if s == "Size of container to small"@ {
        1
    } else if s == "Mountpoint wrong"@ {
        2
    } else if s == "Not valid path"@ {
        3
    } else if s == "Not valid namespace"@ {
        4
    } else if s == "Not valid id"@ {
        5
    } else if s == "Lsblk error"@ {
        6
    } else if s == "Reading stdout error"@ {
        7
    } else if s == "Umount error"@ {
        8
    } else if s == "Mount error"@ {
        9
    } else if s == "Mkfs error"@ {
        10
    } else if s == "Ls error"@ {
        11
    } else if s == "Cryptsetup error"@ {
        12
    } else if s == "Stdin error"@ {
        13
    } else if s == "File creation error"@ {
        14
    } else if s == "File write error"@ {
        15
    } else if s == "Libuta derive key error"@ {
        16
    } else if s == "File read error"@ {
        17
    } else if s == "File open error"@ {
        18
    } else if s == "Integrity error"@ {
        19
    } else if s == "Container mounted"@ {
        20
    } else if s == "Container open"@ {
        21
    } else if s == "Container with that name already exists"@ {
        22
    } else if s == "File already exists"@ {
        23
    } else if s == "Secret not valid"@ {
        24
    } else if s == "Path is not a luks container"@ {
        25
    } else if s == "Path not valid"@ {
        26
    } else if s == "Path is not a luks divice"@ {
        27
    } else if s == "OK"@ {
        0
    } else {
        28
    }
}

/// Maps an error's display string to the process exit code.
pub fn error_to_exit_code(err: String) -> (r: i32)
    ensures
        r as int == exit_code_spec(err@),
{
    let e = err.as_str();
    if str_eq(e, "Size of container to small") {
        1
    } else if str_eq(e, "Mountpoint wrong") {
        2
    } else if str_eq(e, "Not valid path") {
        3
    } else if str_eq(e, "Not valid namespace") {
        4
    } else if str_eq(e, "Not valid id") {
        5
    } else if str_eq(e, "Lsblk error") {
        6
    } else if str_eq(e, "Reading stdout error") {
        7
    } else if str_eq(e, "Umount error") {
        8
    } else if str_eq(e, "Mount error") {
        9
    } else if str_eq(e, "Mkfs error") {
        10
    } else if str_eq(e, "Ls error") {
        11
    } else if str_eq(e, "Cryptsetup error") {
        12
    } else if str_eq(e, "Stdin error") {
        13
    } else if str_eq(e, "File creation error") {
        14
    } else if str_eq(e, "File write error") {
        15
    } else if str_eq(e, "Libuta derive key error") {
        16
    } else if str_eq(e, "File read error") {
        17
    } else if str_eq(e, "File open error") {
        18
    } else if str_eq(e, "Integrity error") {
        19
    } else if str_eq(e, "Container mounted") {
        20
    } else if str_eq(e, "Container open") {
        21
    } else if str_eq(e, "Container with that name already exists") {
        22
    } else if str_eq(e, "File already exists") {
        23
    } else if str_eq(e, "Secret not valid") {
        24
    } else if str_eq(e, "Path is not a luks container") {
        25
    } else if str_eq(e, "Path not valid") {
        26
    } else if str_eq(e, "Path is not a luks divice") {
        27
    } else if str_eq(e, "OK") {
        0
    } else {
        28
    }
}

} // verus!
