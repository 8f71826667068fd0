//! The channel-layout bitrate estimator's classification step: map a
//! stream's channel-layout bitmask and raw channel count to an equivalent
//! channel value, kept in tenths of a channel so that surround notation
//! such as 5.1 stays exact.

use vstd::prelude::*;

use crate::media::StreamInfo;

verus! {

// Individual channel bits, as containers store them.
pub const CH_FRONT_LEFT: u64 = 0x1;
pub const CH_FRONT_RIGHT: u64 = 0x2;
pub const CH_FRONT_CENTER: u64 = 0x4;
pub const CH_LOW_FREQUENCY: u64 = 0x8;
pub const CH_BACK_LEFT: u64 = 0x10;
pub const CH_BACK_RIGHT: u64 = 0x20;
pub const CH_FRONT_LEFT_OF_CENTER: u64 = 0x40;
pub const CH_FRONT_RIGHT_OF_CENTER: u64 = 0x80;
pub const CH_BACK_CENTER: u64 = 0x100;
pub const CH_SIDE_LEFT: u64 = 0x200;
pub const CH_SIDE_RIGHT: u64 = 0x400;
pub const CH_TOP_FRONT_LEFT: u64 = 0x1000;
pub const CH_TOP_FRONT_CENTER: u64 = 0x2000;
pub const CH_TOP_FRONT_RIGHT: u64 = 0x4000;
pub const CH_TOP_BACK_LEFT: u64 = 0x8000;
pub const CH_TOP_BACK_CENTER: u64 = 0x10000;
pub const CH_TOP_BACK_RIGHT: u64 = 0x20000;
pub const CH_STEREO_LEFT: u64 = 0x20000000;
pub const CH_STEREO_RIGHT: u64 = 0x40000000;
pub const CH_WIDE_LEFT: u64 = 0x80000000;
pub const CH_WIDE_RIGHT: u64 = 0x100000000;

// The named layouts: each is the union of its channel bits.
pub const LAYOUT_MONO: u64 = CH_FRONT_CENTER;
pub const LAYOUT_STEREO: u64 = CH_FRONT_LEFT | CH_FRONT_RIGHT;
pub const LAYOUT_2POINT1: u64 = LAYOUT_STEREO | CH_LOW_FREQUENCY;
pub const LAYOUT_2_1: u64 = LAYOUT_STEREO | CH_BACK_CENTER;
pub const LAYOUT_SURROUND: u64 = LAYOUT_STEREO | CH_FRONT_CENTER;
pub const LAYOUT_3POINT1: u64 = LAYOUT_SURROUND | CH_LOW_FREQUENCY;
pub const LAYOUT_4POINT0: u64 = LAYOUT_SURROUND | CH_BACK_CENTER;
pub const LAYOUT_4POINT1: u64 = LAYOUT_4POINT0 | CH_LOW_FREQUENCY;
pub const LAYOUT_2_2: u64 = LAYOUT_STEREO | CH_SIDE_LEFT | CH_SIDE_RIGHT;
pub const LAYOUT_QUAD: u64 = LAYOUT_STEREO | CH_BACK_LEFT | CH_BACK_RIGHT;
pub const LAYOUT_5POINT0: u64 = LAYOUT_SURROUND | CH_SIDE_LEFT | CH_SIDE_RIGHT;
pub const LAYOUT_5POINT1: u64 = LAYOUT_5POINT0 | CH_LOW_FREQUENCY;
pub const LAYOUT_5POINT0_BACK: u64 = LAYOUT_SURROUND | CH_BACK_LEFT | CH_BACK_RIGHT;
pub const LAYOUT_5POINT1_BACK: u64 = LAYOUT_5POINT0_BACK | CH_LOW_FREQUENCY;
pub const LAYOUT_6POINT0: u64 = LAYOUT_5POINT0 | CH_BACK_CENTER;
pub const LAYOUT_6POINT0_FRONT: u64 = LAYOUT_2_2 | CH_FRONT_LEFT_OF_CENTER
    | CH_FRONT_RIGHT_OF_CENTER;
pub const LAYOUT_HEXAGONAL: u64 = LAYOUT_5POINT0_BACK | CH_BACK_CENTER;
pub const LAYOUT_6POINT1: u64 = LAYOUT_5POINT1 | CH_BACK_CENTER;
pub const LAYOUT_6POINT1_BACK: u64 = LAYOUT_5POINT1_BACK | CH_BACK_CENTER;
pub const LAYOUT_6POINT1_FRONT: u64 = LAYOUT_6POINT0_FRONT | CH_LOW_FREQUENCY;
pub const LAYOUT_7POINT0: u64 = LAYOUT_5POINT0 | CH_BACK_LEFT | CH_BACK_RIGHT;
pub const LAYOUT_7POINT0_FRONT: u64 = LAYOUT_5POINT0 | CH_FRONT_LEFT_OF_CENTER
    | CH_FRONT_RIGHT_OF_CENTER;
pub const LAYOUT_7POINT1: u64 = LAYOUT_5POINT1 | CH_BACK_LEFT | CH_BACK_RIGHT;
pub const LAYOUT_7POINT1_WIDE: u64 = LAYOUT_5POINT1 | CH_FRONT_LEFT_OF_CENTER
    | CH_FRONT_RIGHT_OF_CENTER;
pub const LAYOUT_7POINT1_WIDE_BACK: u64 = LAYOUT_5POINT1_BACK | CH_FRONT_LEFT_OF_CENTER
    | CH_FRONT_RIGHT_OF_CENTER;
pub const LAYOUT_OCTAGONAL: u64 = LAYOUT_5POINT0 | CH_BACK_LEFT | CH_BACK_CENTER | CH_BACK_RIGHT;
pub const LAYOUT_HEXADECAGONAL: u64 = LAYOUT_OCTAGONAL | CH_WIDE_LEFT | CH_WIDE_RIGHT
    | CH_TOP_BACK_LEFT | CH_TOP_BACK_RIGHT | CH_TOP_BACK_CENTER | CH_TOP_FRONT_CENTER
    | CH_TOP_FRONT_LEFT | CH_TOP_FRONT_RIGHT;
pub const LAYOUT_STEREO_DOWNMIX: u64 = CH_STEREO_LEFT | CH_STEREO_RIGHT;

/// Whether a bitmask decodes to a known named layout.
pub open spec fn spec_is_named_layout(mask: u64) -> bool {
    ||| mask == LAYOUT_MONO
    ||| mask == LAYOUT_STEREO
    ||| mask == LAYOUT_2POINT1
    ||| mask == LAYOUT_2_1
    ||| mask == LAYOUT_SURROUND
    ||| mask == LAYOUT_3POINT1
    ||| mask == LAYOUT_4POINT0
    ||| mask == LAYOUT_4POINT1
    ||| mask == LAYOUT_2_2
    ||| mask == LAYOUT_QUAD
    ||| mask == LAYOUT_5POINT0
    ||| mask == LAYOUT_5POINT1
    ||| mask == LAYOUT_5POINT0_BACK
    ||| mask == LAYOUT_5POINT1_BACK
    ||| mask == LAYOUT_6POINT0
    ||| mask == LAYOUT_6POINT0_FRONT
    ||| mask == LAYOUT_HEXAGONAL
    ||| mask == LAYOUT_6POINT1
    ||| mask == LAYOUT_6POINT1_BACK
    ||| mask == LAYOUT_6POINT1_FRONT
    ||| mask == LAYOUT_7POINT0
    ||| mask == LAYOUT_7POINT0_FRONT
    ||| mask == LAYOUT_7POINT1
    ||| mask == LAYOUT_7POINT1_WIDE
    ||| mask == LAYOUT_7POINT1_WIDE_BACK
    ||| mask == LAYOUT_OCTAGONAL
    ||| mask == LAYOUT_HEXADECAGONAL
    ||| mask == LAYOUT_STEREO_DOWNMIX
}

/// The classification table over named layouts, in tenths of a channel:
/// layouts of a stereo-or-wider family with one low-frequency or back
/// extra map to the matching `X.1`-style value; any other named layout
/// falls back to the raw channel count.
pub open spec fn spec_named_equivalent_tenths(mask: u64, channels: u16) -> int {
    if mask == LAYOUT_2POINT1 || mask == LAYOUT_2_1 {
        21
    } else if mask == LAYOUT_2_2 {
        22
    } else if mask == LAYOUT_3POINT1 {
        31
    } else if mask == LAYOUT_4POINT1 {
        41
    } else if mask == LAYOUT_5POINT1 || mask == LAYOUT_5POINT1_BACK {
        51
    } else if mask == LAYOUT_6POINT1 || mask == LAYOUT_6POINT1_FRONT || mask
        == LAYOUT_6POINT1_BACK {
        61
    } else if mask == LAYOUT_7POINT1 || mask == LAYOUT_7POINT1_WIDE || mask
        == LAYOUT_7POINT1_WIDE_BACK {
        71
    } else {
        channels * 10
    }
}

/// The count-based fallback table, in tenths of a channel: 3 maps to 2.1,
/// 6 to 5.1, 8 to 7.1, any other count to itself.
pub open spec fn spec_count_equivalent_tenths(channels: u16) -> int {
    if channels == 3 {
        21
    } else if channels == 6 {
        51
    } else if channels == 8 {
        71
    } else {
        channels * 10
    }
}

/// The channel equivalent, in tenths of a channel: the named table when
/// the bitmask decodes to a named layout, the count table when the
/// bitmask is absent or unrecognized.
pub open spec fn spec_channel_equivalent_tenths(layout: Option<u64>, channels: u16) -> int {
    match layout {
        Some(mask) => if spec_is_named_layout(mask) {
            spec_named_equivalent_tenths(mask, channels)
        } else {
            spec_count_equivalent_tenths(channels)
        },
        None => spec_count_equivalent_tenths(channels),
    }
}

/// The largest channel equivalent any stream can classify to, in tenths.
pub const MAX_EQUIVALENT_TENTHS: u64 = 655350;

/// Channel equivalent of one stream, in tenths of a channel, per the
/// classification tables.
pub fn get_channel_layout_tenths(stream: &StreamInfo) -> (t: u64)
    ensures
        t == spec_channel_equivalent_tenths(stream.channel_layout, stream.channels),
        t <= MAX_EQUIVALENT_TENTHS,
{
    match stream.channel_layout {
        Some(mask) => {
            if mask == LAYOUT_2POINT1 || mask == LAYOUT_2_1 {
                21
            } else if mask == LAYOUT_2_2 {
                22
            } else if mask == LAYOUT_3POINT1 {
                31
            } else if mask == LAYOUT_4POINT1 {
                41
            } else if mask == LAYOUT_5POINT1 || mask == LAYOUT_5POINT1_BACK {
                51
            } else if mask == LAYOUT_6POINT1 || mask == LAYOUT_6POINT1_FRONT || mask
                == LAYOUT_6POINT1_BACK {
                61
            } else if mask == LAYOUT_7POINT1 || mask == LAYOUT_7POINT1_WIDE || mask
                == LAYOUT_7POINT1_WIDE_BACK {
                71
            } else if mask == LAYOUT_MONO || mask == LAYOUT_STEREO || mask == LAYOUT_SURROUND
                || mask == LAYOUT_4POINT0 || mask == LAYOUT_QUAD || mask == LAYOUT_5POINT0
                || mask == LAYOUT_5POINT0_BACK || mask == LAYOUT_6POINT0 || mask
                == LAYOUT_6POINT0_FRONT || mask == LAYOUT_HEXAGONAL || mask == LAYOUT_7POINT0
                || mask == LAYOUT_7POINT0_FRONT || mask == LAYOUT_OCTAGONAL || mask
                == LAYOUT_HEXADECAGONAL || mask == LAYOUT_STEREO_DOWNMIX {
                (stream.channels as u64) * 10
            } else {
                count_equivalent_tenths(stream.channels)
            }
        },
        None => count_equivalent_tenths(stream.channels),
    }
}

/// The count-based fallback, executable form.
fn count_equivalent_tenths(channels: u16) -> (t: u64)
    ensures
        t == spec_count_equivalent_tenths(channels),
        t <= MAX_EQUIVALENT_TENTHS,
{
    if channels == 3 {
        21
    } else if channels == 6 {
        51
    } else if channels == 8 {
        71
    } else {
        (channels as u64) * 10
    }
}

/// Every recognized multi-channel named layout classifies by the fixed
/// named table, never by the count fallback.
pub proof fn lemma_named_layout_uses_named_table(layout: Option<u64>, channels: u16)
    requires
        layout matches Some(mask) && spec_is_named_layout(mask),
    ensures
        spec_channel_equivalent_tenths(layout, channels) == spec_named_equivalent_tenths(
            layout->Some_0,
            channels,
        ),
{
}

/// With no recognized layout bitmask, classification falls back strictly
/// to the count-based table.
pub proof fn lemma_unrecognized_layout_uses_count_table(layout: Option<u64>, channels: u16)
    requires
        layout matches Some(mask) ==> !spec_is_named_layout(mask),
    ensures
        spec_channel_equivalent_tenths(layout, channels) == spec_count_equivalent_tenths(channels),
{
}

} // verus!
