use vstd::prelude::*;

verus! {

/// One past the largest value of a 16-bit channel.
pub const CHANNEL_RANGE: u64 = 65536;

/// Three channel tables of one controller.
#[derive(Debug, PartialEq, Eq)]
pub struct GammaRamp {
    pub red: Vec<u16>,
    pub green: Vec<u16>,
    pub blue: Vec<u16>,
}

impl View for GammaRamp {
    type V = (Seq<u16>, Seq<u16>, Seq<u16>);

    open spec fn view(&self) -> (Seq<u16>, Seq<u16>, Seq<u16>) {
        (self.red@, self.green@, self.blue@)
    }
}

impl GammaRamp {
    /// All three channels hold exactly `n` entries.
    pub open spec fn has_len(&self, n: nat) -> bool {
        &&& self.red@.len() == n
        &&& self.green@.len() == n
        &&& self.blue@.len() == n
    }
}

/// The identity ramp value at index `i` of a table with `n` entries:
/// `i / n * 65536`, rounded to the nearest integer (halves upwards).
pub open spec fn base_value(i: int, n: int) -> int {
    (2 * i * CHANNEL_RANGE + n) / (2 * n)
}

/// The linear identity ramp with `n` entries.
pub open spec fn base_ramp(n: nat) -> Seq<u16> {
    Seq::new(n, |i: int| base_value(i, n as int) as u16)
}

proof fn lemma_base_value_fits(i: int, n: int)
    requires
        0 <= i < n <= 65535,
    ensures
        0 <= base_value(i, n) < CHANNEL_RANGE,
{
    assert(0 <= 2 * i * CHANNEL_RANGE + n) by (nonlinear_arith)
        requires
            0 <= i,
            0 < n,
    ;
    assert(2 * i * CHANNEL_RANGE + n < (2 * n) * CHANNEL_RANGE) by (nonlinear_arith)
        requires
            0 <= i < n <= 65535,
    ;
    vstd::arithmetic::div_mod::lemma_div_pos_is_pos(2 * i * CHANNEL_RANGE + n, 2 * n);
    vstd::arithmetic::div_mod::lemma_multiply_divide_lt(
        2 * i * CHANNEL_RANGE + n,
        2 * n,
        CHANNEL_RANGE as int,
    );
}

/// The identity ramp value at index `i` of a table with `n` entries.
pub fn base_ramp_value(i: u16, n: u16) -> (v: u16)
    requires
        i < n,
    ensures
        v as int == base_value(i as int, n as int),
{
    proof {
        lemma_base_value_fits(i as int, n as int);
    }
    let num: u64 = 2 * (i as u64) * CHANNEL_RANGE + n as u64;
    let den: u64 = 2 * (n as u64);
    (num / den) as u16
}

/// Overwrites the three channels with the linear identity ramp; the channels
/// keep their length.
pub fn fill_base_ramp(ramp: &mut GammaRamp, n: u16)
    requires
        old(ramp).has_len(n as nat),
    ensures
        final(ramp).red@ == base_ramp(n as nat),
        final(ramp).green@ == base_ramp(n as nat),
        final(ramp).blue@ == base_ramp(n as nat),
{
    let len = n as usize;
    let mut i: usize = 0;
    while i < len
        invariant
            len == n as usize,
            i <= len,
            ramp.has_len(n as nat),
            forall|j: int| 0 <= j < i ==> ramp.red@[j] == base_ramp(n as nat)[j],
            forall|j: int| 0 <= j < i ==> ramp.green@[j] == base_ramp(n as nat)[j],
            forall|j: int| 0 <= j < i ==> ramp.blue@[j] == base_ramp(n as nat)[j],
        decreases len - i,
    {
        let v = base_ramp_value(i as u16, n);
        ramp.red.set(i, v);
        ramp.green.set(i, v);
        ramp.blue.set(i, v);
        i = i + 1;
    }
    assert(ramp.red@ =~= base_ramp(n as nat));
    assert(ramp.green@ =~= base_ramp(n as nat));
    assert(ramp.blue@ =~= base_ramp(n as nat));
}

} // verus!
