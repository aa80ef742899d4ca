use vstd::prelude::*;

verus! {

/// Menu and command identifiers chosen by the application are small integers
/// in `0 ..= MAX_APP_ID`. Before one is handed to the operating system it is
/// moved into a reserved range by adding `APP_ID_OFFSET`; a command
/// notification carries the reserved value, and the reverse mapping subtracts
/// the offset again.
pub const APP_ID_OFFSET: u16 = 0xF001;

/// The largest application-chosen identifier whose reserved counterpart still
/// fits in the native 16-bit identifier space.
pub const MAX_APP_ID: u16 = 4094;

/// The reserved native identifier that stands for the application identifier
/// `id` (meaningful for `id <= MAX_APP_ID`).
pub open spec fn reserved_of(id: u16) -> u32 {
    (id + APP_ID_OFFSET) as u32
}

/// The application identifier recovered from a native identifier, or `None`
/// for a native identifier below the reserved range, which was never issued
/// by this library.
pub open spec fn app_id_of(native_id: u16) -> Option<u16> {
    if native_id >= APP_ID_OFFSET {
        Some((native_id - APP_ID_OFFSET) as u16)
    } else {
        None
    }
}

/// Translate an application identifier into the reserved native range.
/// Identifiers up to `MAX_APP_ID` are translated exactly; larger ones are
/// rejected with a descriptive error before any native call could see them.
pub fn internalize_id(id: u16) -> (r: Result<u32, String>)
    ensures
        id <= MAX_APP_ID ==> r == Ok::<u32, String>(reserved_of(id)),
        r is Err <==> id > MAX_APP_ID,
{
    match id.checked_add(APP_ID_OFFSET) {
        Some(wid) => Ok(wid as u32),
        None => Err("identifier out of range, 4094 is the maximum value".to_string()),
    }
}

/// The reverse mapping applied to an incoming command notification: recover
/// the application identifier from a native one, or `None` if the native
/// identifier is below the reserved range.
pub fn externalize_id(native_id: u16) -> (r: Option<u16>)
    ensures
        r == app_id_of(native_id),
{
    native_id.checked_sub(APP_ID_OFFSET)
}

/// Identifier round trip: every application identifier that the translation
/// accepts is recovered exactly by the reverse mapping applied to its
/// reserved counterpart.
pub proof fn lemma_id_round_trip(id: u16)
    requires
        id <= MAX_APP_ID,
    ensures
        reserved_of(id) <= u16::MAX,
        app_id_of(reserved_of(id) as u16) == Some(id),
{
}

} // verus!
