//! Process settings with their defaults.

use vstd::prelude::*;
use crate::id::UNCONFIGURED_MACHINE;

verus! {

#[derive(Clone, Debug, Default)]
pub struct Setting {
    pub core_setting: CoreSetting,
    pub database: DatabaseSetting,
}

impl Setting {
    pub fn core_setting(&self) -> (r: &CoreSetting)
        ensures
            *r == self.core_setting,
    {
        &self.core_setting
    }

    pub fn database(&self) -> (r: &DatabaseSetting)
        ensures
            *r == self.database,
    {
        &self.database
    }
}

#[derive(Clone, Debug)]
pub struct CoreSetting {
    pub bind: BindSetting,
    pub log: String,
    pub workers: usize,
    pub blocking_threads: usize,
    pub machine_id: Option<u64>,
}

impl CoreSetting {
    pub fn bind(&self) -> (r: &BindSetting)
        ensures
            *r == self.bind,
    {
        &self.bind
    }

    pub fn log(&self) -> (r: &str)
        ensures
            r@ == self.log@,
    {
        self.log.as_str()
    }

    pub fn workers(&self) -> (r: usize)
        ensures
            r == self.workers,
    {
        self.workers
    }

    pub fn blocking_threads(&self) -> (r: usize)
        ensures
            r == self.blocking_threads,
    {
        self.blocking_threads
    }

    /// The configured machine identifier, or `0xFFFF` when none is configured.
    pub fn machine_id(&self) -> (r: u64)
        ensures
            r == match self.machine_id {
                Some(m) => m,
                None => UNCONFIGURED_MACHINE,
            },
    {
        match self.machine_id {
            Some(m) => m,
            None => UNCONFIGURED_MACHINE,
        }
    }
}

impl Default for CoreSetting {
    fn default() -> (r: CoreSetting)
        ensures
            r.bind.api@ == "0.0.0.0:8080"@,
            r.log@ == "info"@,
            r.workers == 2,
            r.blocking_threads == 512,
            r.machine_id is None,
    {
        CoreSetting {
            bind: BindSetting::default(),
            log: String::from_str("info"),
            workers: 2,
            blocking_threads: 512,
            machine_id: None,
        }
    }
}

#[derive(Clone, Debug)]
pub struct BindSetting {
    pub api: String,
}

impl BindSetting {
    pub fn api(&self) -> (r: &str)
        ensures
            r@ == self.api@,
    {
        self.api.as_str()
    }
}

impl Default for BindSetting {
    fn default() -> (r: BindSetting)
        ensures
            r.api@ == "0.0.0.0:8080"@,
    {
        BindSetting { api: String::from_str("0.0.0.0:8080") }
    }
}

#[derive(Clone, Debug)]
pub struct DatabaseSetting {
    pub uri: String,
}

impl DatabaseSetting {
    pub fn uri(&self) -> (r: &str)
        ensures
            r@ == self.uri@,
    {
        self.uri.as_str()
    }
}

impl Default for DatabaseSetting {
    fn default() -> (r: DatabaseSetting)
        ensures
            r.uri@ == "sqlite::memory:"@,
    {
        DatabaseSetting { uri: String::from_str("sqlite::memory:") }
    }
}

/// Command-line arguments: an optional settings file.
#[derive(Clone, Debug, Default)]
pub struct Cli {
    pub config: Option<String>,
}

} // verus!
