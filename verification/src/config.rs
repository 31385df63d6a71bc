//! The buffer-configuration policy of the binding path: the attribute list
//! the compositing side hands to the native configuration negotiation. The
//! default policy asks for 8-bit red, green, blue, and alpha channels and
//! constrains nothing else.

use vstd::prelude::*;

verus! {

/// Native attribute token naming the red channel's bit depth.
pub const RED_SIZE: i32 = 0x3024;

/// Native attribute token naming the green channel's bit depth.
pub const GREEN_SIZE: i32 = 0x3023;

/// Native attribute token naming the blue channel's bit depth.
pub const BLUE_SIZE: i32 = 0x3022;

/// Native attribute token naming the alpha channel's bit depth.
pub const ALPHA_SIZE: i32 = 0x3021;

/// Terminator every native attribute list ends with.
pub const ATTRIB_LIST_END: i32 = 0x3038;

/// The default configuration request: each of the four channels eight bits
/// deep, then the terminator.
pub open spec fn spec_rgba8_config_request() -> Seq<i32> {
    seq![RED_SIZE, 8, GREEN_SIZE, 8, BLUE_SIZE, 8, ALPHA_SIZE, 8, ATTRIB_LIST_END]
}

/// Builds the attribute list of the default policy, exactly as
/// `spec_rgba8_config_request` lays it out.
pub fn rgba8_config_request() -> (r: Vec<i32>)
    ensures
        r@ == spec_rgba8_config_request(),
{
    let mut request: Vec<i32> = Vec::new();
    request.push(RED_SIZE);
    request.push(8);
    request.push(GREEN_SIZE);
    request.push(8);
    request.push(BLUE_SIZE);
    request.push(8);
    request.push(ALPHA_SIZE);
    request.push(8);
    request.push(ATTRIB_LIST_END);
    proof {
        assert(request@ =~= spec_rgba8_config_request());
    }
    request
}

} // verus!
