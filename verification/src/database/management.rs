//! Management functions, e.g. for destroying and reparing a database.
use crate::database::engine::Call;
use crate::database::options::{c_options, Options};
use vstd::prelude::*;

verus! {

/// destroy a database. You shouldn't hold a handle on the database anywhere at that time.
///
/// What the engine does to a database that is open is undefined. The status
/// that the engine answers goes to `Error::from_status`.
pub fn destroy<'a>(name: &'a str, options: &Options) -> (call: Call<'a>)
    ensures
        call matches Call::DestroyDb { name: n, settings } && n == name && settings@
            == crate::database::options::native_options(*options, None),
{
    Call::DestroyDb { name, settings: c_options(options, None) }
}

/// repair the database. The database should be closed at this moment.
///
/// What the engine does to a database that is open is undefined. The status
/// that the engine answers goes to `Error::from_status`.
pub fn repair<'a>(name: &'a str, options: &Options) -> (call: Call<'a>)
    ensures
        call matches Call::RepairDb { name: n, settings } && n == name && settings@
            == crate::database::options::native_options(*options, None),
{
    Call::RepairDb { name, settings: c_options(options, None) }
}

} // verus!
