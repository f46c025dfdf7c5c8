//! The request types of the container service: one struct per
//! operation, the subcommand selector, and the top-level request the
//! command-line front end fills in.

use vstd::prelude::*;

verus! {

/// Create a new container.
#[derive(Debug, Clone)]
pub struct Create {
    /// Size of the container in MB (at least 16)
    pub size: i32,
    /// Mount point of the container (must already exist)
    pub mount_point: String,
    /// Directory the backing file is created in (must already exist)
    pub path: String,
    /// Name of the container, and of its unlocked mapping
    pub namespace: String,
    /// Id of the container (shorter than 8 characters)
    pub id: String,
    /// Whether to register the container for automatic opening
    pub auto_open: bool,
}

/// Open an existing container.
#[derive(Debug, Clone)]
pub struct Open {
    pub mount_point: String,
    pub path: String,
    pub namespace: String,
    pub id: String,
}

/// Close an open container.
#[derive(Debug, Clone)]
pub struct Close {
    pub mount_point: String,
    pub namespace: String,
}

/// Export a closed container for transfer to another system.
#[derive(Debug, Clone)]
pub struct Export {
    pub path: String,
    pub namespace: String,
    pub id: String,
    /// The transfer secret the importing side must present
    pub secret: String,
}

/// Import a container exported on another system.
#[derive(Debug, Clone)]
pub struct Import {
    pub path: String,
    pub namespace: String,
    pub id: String,
    /// The transfer secret the exporting side chose
    pub secret: String,
}

/// Register a container for automatic opening at startup.
#[derive(Debug, Clone)]
pub struct AddAutoOpen {
    pub mount_point: String,
    pub path: String,
    pub namespace: String,
    pub id: String,
}

/// Remove a container from the automatic-opening registry.
#[derive(Debug, Clone)]
pub struct RemoveAutoOpen {
    pub mount_point: String,
    pub path: String,
    pub namespace: String,
    pub id: String,
}

/// The operation a request selects.
#[derive(Debug, Clone)]
pub enum SubCommand {
    Create(Create),
    Open(Open),
    Close(Close),
    Export(Export),
    Import(Import),
    AddAutoOpen(AddAutoOpen),
    RemoveAutoOpen(RemoveAutoOpen),
}

/// A whole request, as the command-line front end hands it over.
#[derive(Debug, Clone)]
pub struct SecureContainerCli {
    pub subcmd: SubCommand,
}

} // verus!
