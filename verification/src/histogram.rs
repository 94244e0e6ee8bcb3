//! Histograms of the three channels of an interleaved RGB image.

use vstd::prelude::*;

verus! {

/// How many of the first `pixels` pixels of `rgb` have `value` in `channel`.
///
/// A pixel is three bytes: red, green, blue.
pub open spec fn channel_count(rgb: Seq<u8>, channel: int, value: int, pixels: nat) -> nat
    decreases pixels,
{
    if pixels == 0 {
        0
    } else {
        let before = channel_count(rgb, channel, value, (pixels - 1) as nat);
        if rgb[3 * (pixels - 1) + channel] == value {
            before + 1
        } else {
            before
        }
    }
}

/// No value is counted more often than there are pixels.
pub proof fn lemma_channel_count_bound(rgb: Seq<u8>, channel: int, value: int, pixels: nat)
    ensures
        channel_count(rgb, channel, value, pixels) <= pixels,
    decreases pixels,
{
    if pixels > 0 {
        lemma_channel_count_bound(rgb, channel, value, (pixels - 1) as nat);
    }
}

/// The histograms of the red, green and blue channels of an image.
pub struct RgbHistograms {
    /// How often each of the 256 values occurs in the red channel.
    pub red: Vec<u64>,
    /// How often each of the 256 values occurs in the green channel.
    pub green: Vec<u64>,
    /// How often each of the 256 values occurs in the blue channel.
    pub blue: Vec<u64>,
}

impl RgbHistograms {
    /// Whether the histograms are those of the first `pixels` pixels of `rgb`.
    pub open spec fn counts(&self, rgb: Seq<u8>, pixels: nat) -> bool {
        &&& self.red@.len() == 256
        &&& self.green@.len() == 256
        &&& self.blue@.len() == 256
        &&& forall|value: int|
            0 <= value < 256 ==> #[trigger] self.red@[value] == channel_count(rgb, 0, value, pixels)
        &&& forall|value: int|
            0 <= value < 256 ==> #[trigger] self.green@[value] == channel_count(
                rgb,
                1,
                value,
                pixels,
            )
        &&& forall|value: int|
            0 <= value < 256 ==> #[trigger] self.blue@[value] == channel_count(
                rgb,
                2,
                value,
                pixels,
            )
    }
}

/// 256 zeros.
fn zeros() -> (v: Vec<u64>)
    ensures
        v@.len() == 256,
        forall|i: int| 0 <= i < 256 ==> v@[i] == 0,
{
    let mut v: Vec<u64> = Vec::new();
    let mut i: usize = 0;
    while i < 256
        invariant
            i <= 256,
            v@.len() == i,
            forall|j: int| 0 <= j < i ==> v@[j] == 0,
        decreases 256 - i,
    {
        v.push(0);
        i = i + 1;
    }
    v
}

/// Counts, for each channel of an interleaved RGB image, how often each value
/// occurs. Bytes after the last whole pixel are left out.
pub fn rgb8_histograms(rgb: &[u8]) -> (h: RgbHistograms)
    ensures
        h.counts(rgb@, (rgb@.len() / 3) as nat),
{
    let pixels: usize = rgb.len() / 3;
    let mut red = zeros();
    let mut green = zeros();
    let mut blue = zeros();
    let mut p: usize = 0;
    while p < pixels
        invariant
            p <= pixels,
            pixels == rgb@.len() / 3,
            red@.len() == 256,
            green@.len() == 256,
            blue@.len() == 256,
            forall|value: int|
                0 <= value < 256 ==> #[trigger] red@[value] == channel_count(
                    rgb@,
                    0,
                    value,
                    p as nat,
                ),
            forall|value: int|
                0 <= value < 256 ==> #[trigger] green@[value] == channel_count(
                    rgb@,
                    1,
                    value,
                    p as nat,
                ),
            forall|value: int|
                0 <= value < 256 ==> #[trigger] blue@[value] == channel_count(
                    rgb@,
                    2,
                    value,
                    p as nat,
                ),
        decreases pixels - p,
    {
        let r: usize = rgb[3 * p] as usize;
        let g: usize = rgb[3 * p + 1] as usize;
        let b: usize = rgb[3 * p + 2] as usize;
        proof {
            lemma_channel_count_bound(rgb@, 0, r as int, p as nat);
            lemma_channel_count_bound(rgb@, 1, g as int, p as nat);
            lemma_channel_count_bound(rgb@, 2, b as int, p as nat);
        }
        let red_count: u64 = red[r];
        red.set(r, red_count + 1);
        let green_count: u64 = green[g];
        green.set(g, green_count + 1);
        let blue_count: u64 = blue[b];
        blue.set(b, blue_count + 1);
        p = p + 1;
    }
    let h = RgbHistograms { red, green, blue };
    h
}

/// The counts of a channel add up to the number of pixels: every pixel is
/// counted once, under the value it has.
pub proof fn lemma_channel_counts_sum(rgb: Seq<u8>, channel: int, pixels: nat)
    requires
        0 <= channel < 3,
        3 * pixels <= rgb.len(),
    ensures
        count_up_to(rgb, channel, 256, pixels) == pixels,
    decreases pixels,
{
    if pixels > 0 {
        lemma_channel_counts_sum(rgb, channel, (pixels - 1) as nat);
        lemma_count_up_to_step(rgb, channel, 256, pixels);
    } else {
        lemma_count_up_to_zero(rgb, channel, 256);
    }
}

/// How many of the first `pixels` pixels have a value below `bound` in
/// `channel`: the sum of the counts of those values.
pub open spec fn count_up_to(rgb: Seq<u8>, channel: int, bound: nat, pixels: nat) -> nat
    decreases bound,
{
    if bound == 0 {
        0
    } else {
        count_up_to(rgb, channel, (bound - 1) as nat, pixels) + channel_count(
            rgb,
            channel,
            bound - 1,
            pixels,
        )
    }
}

proof fn lemma_count_up_to_zero(rgb: Seq<u8>, channel: int, bound: nat)
    ensures
        count_up_to(rgb, channel, bound, 0) == 0,
    decreases bound,
{
    if bound > 0 {
        lemma_count_up_to_zero(rgb, channel, (bound - 1) as nat);
    }
}

proof fn lemma_count_up_to_step(rgb: Seq<u8>, channel: int, bound: nat, pixels: nat)
    requires
        pixels > 0,
    ensures
        count_up_to(rgb, channel, bound, pixels) == count_up_to(
            rgb,
            channel,
            bound,
            (pixels - 1) as nat,
        ) + (if rgb[3 * (pixels - 1) + channel] < bound {
            1nat
        } else {
            0nat
        }),
    decreases bound,
{
    if bound > 0 {
        lemma_count_up_to_step(rgb, channel, (bound - 1) as nat, pixels);
    }
}

} // verus!
