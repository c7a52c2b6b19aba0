//! Small helpers of the graphics core: names of extensions, and text that comes
//! from the driver.

use vstd::prelude::*;
use vstd::slice::slice_subrange;
use vstd::string::StringSliceAdditionalSpecFns;
use vstd::utf8::valid_utf8;
use crate::logs::{filled, validate_msg};
use crate::text::{decimal, decimal_string};

verus! {

/// A windowing backend that a surface can be bound to.
#[derive(Debug, Clone, Copy, PartialEq, Eq, Structural)]
pub enum Platform {
    Xlib,
    Win32,
}

pub const SURFACE_EXTENSION: &'static str = "VK_KHR_surface";

pub const XLIB_SURFACE_EXTENSION: &'static str = "VK_KHR_xlib_surface";

pub const WIN32_SURFACE_EXTENSION: &'static str = "VK_KHR_win32_surface";

pub const DEBUG_UTILS_EXTENSION: &'static str = "VK_EXT_debug_utils";

/// The names of the instance extensions the engine needs on a platform: the
/// surface, the surface of the platform, and the debug utilities.
pub fn required_extension_names(platform: Platform) -> (names: Vec<&'static str>)
    ensures
        names@ == seq![
            SURFACE_EXTENSION,
            match platform {
                Platform::Xlib => XLIB_SURFACE_EXTENSION,
                Platform::Win32 => WIN32_SURFACE_EXTENSION,
            },
            DEBUG_UTILS_EXTENSION,
        ],
{
    let mut names: Vec<&'static str> = Vec::new();
    names.push(SURFACE_EXTENSION);
    match platform {
        Platform::Xlib => names.push(XLIB_SURFACE_EXTENSION),
        Platform::Win32 => names.push(WIN32_SURFACE_EXTENSION),
    }
    names.push(DEBUG_UTILS_EXTENSION);
    assert(names@ =~= seq![
        SURFACE_EXTENSION,
        match platform {
            Platform::Xlib => XLIB_SURFACE_EXTENSION,
            Platform::Win32 => WIN32_SURFACE_EXTENSION,
        },
        DEBUG_UTILS_EXTENSION,
    ]);
    names
}

/// The bytes of a text the driver wrote into an array: those before the first
/// zero byte, or all of them where there is none.
pub open spec fn text_bytes(raw: Seq<u8>) -> Seq<u8> {
    if exists|k: int| is_first_zero(raw, k) {
        raw.take(choose|k: int| is_first_zero(raw, k))
    } else {
        raw
    }
}

/// The first zero byte of the array stands at position `k`.
pub open spec fn is_first_zero(raw: Seq<u8>, k: int) -> bool {
    &&& 0 <= k < raw.len()
    &&& raw[k] == 0
    &&& forall|j: int| 0 <= j < k ==> raw[j] != 0
}

/// Calls `std::str::from_utf8`, which, as the standard library documents it, gives
/// the bytes back as a string slice where they are valid UTF-8, and an error where
/// they are not.
#[verifier::external_body]
fn str_from_utf8(bytes: &[u8]) -> (r: Option<&str>)
    ensures
        match r {
            Some(s) => valid_utf8(bytes@) && s.spec_bytes() == bytes@,
            None => !valid_utf8(bytes@),
        },
{
    match std::str::from_utf8(bytes) {
        Ok(s) => Some(s),
        Err(_) => None,
    }
}

/// Reads the text that the driver wrote into an array of bytes: the text ends
/// before the first zero byte. Where the bytes are no valid text, the text is
/// empty, and the caller is told so that it can log the loss.
pub fn vk_to_string(raw_string_array: &[u8]) -> (r: (&str, bool))
    ensures
        r.1 == valid_utf8(text_bytes(raw_string_array@)),
        r.1 ==> r.0.spec_bytes() == text_bytes(raw_string_array@),
        !r.1 ==> r.0@.len() == 0,
{
    let mut end: usize = 0;
    while end < raw_string_array.len() && raw_string_array[end] != 0
        invariant
            end <= raw_string_array@.len(),
            forall|j: int| 0 <= j < end ==> raw_string_array@[j] != 0,
        decreases raw_string_array@.len() - end,
    {
        end += 1;
    }
    proof {
        if end < raw_string_array@.len() {
            assert(is_first_zero(raw_string_array@, end as int));
            let k = choose|k: int| is_first_zero(raw_string_array@, k);
            if k < end {
                assert(raw_string_array@[k] != 0);
            } else if end < k {
                assert(raw_string_array@[end as int] == 0);
            }
        } else {
            assert(raw_string_array@.take(end as int) =~= raw_string_array@);
            assert forall|k: int| !is_first_zero(raw_string_array@, k) by {
                if 0 <= k < raw_string_array@.len() {
                    assert(raw_string_array@[k] != 0);
                }
            }
        }
    }
    let text = slice_subrange(raw_string_array, 0, end);
    assert(text@ =~= text_bytes(raw_string_array@));
    match str_from_utf8(text) {
        Some(s) => (s, true),
        None => {
            let empty: &'static str = "";
            proof {
                reveal_strlit("");
            }
            (empty, false)
        },
    }
}

/// The words that introduce a physical device in the log; each pair of brackets
/// stands for one of its properties.
pub const PDEVICE_DEBUG_INFO: &'static str = "Physical Device: {}\n\tid: {}\n\tdriver version: {}";

/// Words the properties of a physical device for the log: its name, its id and
/// the version of its driver.
pub fn log_pdevice_debug_info(device_name: &str, device_id: u32, driver_version: u32) -> (r: String)
    ensures
        r@ == filled(
            PDEVICE_DEBUG_INFO@,
            seq![device_name@, decimal(device_id as nat), decimal(driver_version as nat)],
        ),
{
    let dev_id = decimal_string(device_id as u64);
    let driver_ver = decimal_string(driver_version as u64);
    let args: [&str; 3] = [device_name, dev_id.as_str(), driver_ver.as_str()];
    let r = validate_msg(PDEVICE_DEBUG_INFO, args.as_slice());
    assert(crate::logs::texts_of(args@) =~= seq![
        device_name@,
        decimal(device_id as nat),
        decimal(driver_version as nat),
    ]);
    r
}

} // verus!
