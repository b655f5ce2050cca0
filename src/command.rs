//! The subcommands, as plain values: what each one was asked to do.

use crate::error::SkrdError;
use crate::registry::{name_from_path_spec, registry_name_from_path};
use vstd::prelude::*;

verus! {

/// The name that `create` and `mirror` give a registry: the one asked for,
/// else the last component of its path.
pub open spec fn chosen_name_spec(name: Option<String>, path: Seq<char>) -> Option<Seq<char>> {
    match name {
        Some(n) => Some(n@),
        None => name_from_path_spec(path),
    }
}

fn chosen_name(name: &Option<String>, path: &str) -> (r: Result<String, SkrdError>)
    ensures
        match chosen_name_spec(*name, path@) {
            Some(n) => r matches Ok(s) && s@ == n,
            None => r is Err,
        },
{
    match name {
        Some(n) => Ok(n.clone()),
        None => registry_name_from_path(path),
    }
}

/// `create <path> [--name N]`: make an empty private registry.
#[derive(Debug, Clone)]
pub struct Create {
    pub name: Option<String>,
    pub path: String,
}

impl Create {
    /// The name of the registry to create.
    pub fn registry_name(&self) -> (r: Result<String, SkrdError>)
        ensures
            match chosen_name_spec(self.name, self.path@) {
                Some(n) => r matches Ok(s) && s@ == n,
                None => r is Err,
            },
    {
        chosen_name(&self.name, self.path.as_str())
    }
}

/// `mirror <path> <source> [--name N]`: make a registry that mirrors `source`.
#[derive(Debug, Clone)]
pub struct Mirror {
    pub name: Option<String>,
    pub path: String,
    pub source: String,
}

impl Mirror {
    /// The name of the mirror to create.
    pub fn registry_name(&self) -> (r: Result<String, SkrdError>)
        ensures
            match chosen_name_spec(self.name, self.path@) {
                Some(n) => r matches Ok(s) && s@ == n,
                None => r is Err,
            },
    {
        chosen_name(&self.name, self.path.as_str())
    }
}

/// `update [<path>]`: fetch the index and download what is missing.
#[derive(Debug, Clone)]
pub struct Update {
    pub registry: Option<String>,
}

/// `serve [<path>]`: start the HTTP(S) server.
#[derive(Debug, Clone)]
pub struct Serve {
    pub registry: Option<String>,
}

/// `package`: reserved.
#[derive(Debug, Clone)]
pub struct Package {}

/// `exec -f <toml>`: reserved.
#[derive(Debug, Clone)]
pub struct Execute {
    pub toml: String,
}

/// `new`: reserved.
#[derive(Debug, Clone)]
pub struct New {}

/// Every subcommand.
#[derive(Debug, Clone)]
pub enum Command {
    Create(Create),
    Mirror(Mirror),
    Update(Update),
    Serve(Serve),
    Package(Package),
    Execute(Execute),
}

impl Command {
    /// The error of a reserved subcommand; `None` for one that runs.
    pub fn reserved_error(&self) -> (r: Option<SkrdError>)
        ensures
            r is Some <==> (self is Package || self is Execute),
            self is Package ==> (r matches Some(SkrdError::StaticCustom(m)) && m@
                == "Subcommand pack is unimplemented!"@),
            self is Execute ==> (r matches Some(SkrdError::StaticCustom(m)) && m@
                == "Subcommand exec is unimplemented"@),
    {
        match self {
            Command::Package(_) => Some(SkrdError::StaticCustom("Subcommand pack is unimplemented!")),
            Command::Execute(_) => Some(SkrdError::StaticCustom("Subcommand exec is unimplemented")),
            _ => None,
        }
    }
}

} // verus!
