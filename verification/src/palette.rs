//! The reference palette of 32 colours that a fixture has unless it says otherwise.

use crate::color::RGBA;
use vstd::prelude::*;

verus! {

/// The 32 colours of the reference palette, in order.
pub open spec fn arne32_colors() -> Seq<RGBA> {
    seq![
        RGBA(0x00000000),
        RGBA(0x9D9D9DFF),
        RGBA(0xFFFFFFFF),
        RGBA(0xBE2633FF),
        RGBA(0xE06F8BFF),
        RGBA(0x493C2BFF),
        RGBA(0xA46422FF),
        RGBA(0xEB8931FF),
        RGBA(0xF7E26BFF),
        RGBA(0x2F484EFF),
        RGBA(0x44891AFF),
        RGBA(0xA3CE27FF),
        RGBA(0x1B2632FF),
        RGBA(0x005784FF),
        RGBA(0x31A2F2FF),
        RGBA(0xB2DCEFFF),
        RGBA(0x342A97FF),
        RGBA(0x656D71FF),
        RGBA(0xCCCCCCFF),
        RGBA(0x732930FF),
        RGBA(0xCB43A7FF),
        RGBA(0x524F40FF),
        RGBA(0xAD9D33FF),
        RGBA(0xEC4700FF),
        RGBA(0xFAB40BFF),
        RGBA(0x115E33FF),
        RGBA(0x14807EFF),
        RGBA(0x15C2A5FF),
        RGBA(0x225AF6FF),
        RGBA(0x9964F9FF),
        RGBA(0xF78ED6FF),
        RGBA(0xF4B990FF),
    ]
}

/// The reference palette.
pub fn arne32() -> (palette: &'static [RGBA])
    ensures
        palette@ == arne32_colors(),
{
    let palette: &'static [RGBA; 32] = &[
        RGBA(0x00000000),
        RGBA(0x9D9D9DFF),
        RGBA(0xFFFFFFFF),
        RGBA(0xBE2633FF),
        RGBA(0xE06F8BFF),
        RGBA(0x493C2BFF),
        RGBA(0xA46422FF),
        RGBA(0xEB8931FF),
        RGBA(0xF7E26BFF),
        RGBA(0x2F484EFF),
        RGBA(0x44891AFF),
        RGBA(0xA3CE27FF),
        RGBA(0x1B2632FF),
        RGBA(0x005784FF),
        RGBA(0x31A2F2FF),
        RGBA(0xB2DCEFFF),
        RGBA(0x342A97FF),
        RGBA(0x656D71FF),
        RGBA(0xCCCCCCFF),
        RGBA(0x732930FF),
        RGBA(0xCB43A7FF),
        RGBA(0x524F40FF),
        RGBA(0xAD9D33FF),
        RGBA(0xEC4700FF),
        RGBA(0xFAB40BFF),
        RGBA(0x115E33FF),
        RGBA(0x14807EFF),
        RGBA(0x15C2A5FF),
        RGBA(0x225AF6FF),
        RGBA(0x9964F9FF),
        RGBA(0xF78ED6FF),
        RGBA(0xF4B990FF),
    ];
    palette
}

} // verus!
