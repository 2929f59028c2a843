//! Use cases over the settings repository: thin verified entry points
//! that wrap repository failures into the use-case error.

use vstd::prelude::*;

use crate::repository::{DieselSettingsRepositoryError, SettingsRepository};
use crate::settings::Settings;

verus! {

#[derive(Debug, Clone, PartialEq)]
pub enum SettingsError {
    DieselSettingsRepository(DieselSettingsRepositoryError),
}

/// Reads the settings record through the repository.
pub fn get_setting<R: SettingsRepository>(repo: &mut R) -> (r: Result<
    Option<Settings>,
    SettingsError,
>)
    ensures
        r matches Err(e) ==> e matches SettingsError::DieselSettingsRepository(_),
{
    match repo.get() {
        Ok(s) => Ok(s),
        Err(e) => Err(SettingsError::DieselSettingsRepository(e)),
    }
}

/// Writes the settings record through the repository.
pub fn set_setting<R: SettingsRepository>(repo: &mut R, setting: Settings) -> (r: Result<
    (),
    SettingsError,
>)
    ensures
        r matches Err(e) ==> e matches SettingsError::DieselSettingsRepository(_),
{
    match repo.set(setting) {
        Ok(()) => Ok(()),
        Err(e) => Err(SettingsError::DieselSettingsRepository(e)),
    }
}

} // verus!
