use vstd::prelude::*;
use crate::error::RandrError;
use crate::ramp::{base_ramp, fill_base_ramp, GammaRamp};

verus! {

/// The RandR major version this library speaks.
pub const RANDR_MAJOR_VERSION: u32 = 1;

/// The lowest RandR minor version this library accepts.
pub const RANDR_MINOR_VERSION: u32 = 3;

/// A reported version is usable when its major version is the required one
/// and its minor version is at least the required minimum.
pub open spec fn version_supported(major: u32, minor: u32) -> bool {
    major == RANDR_MAJOR_VERSION && minor >= RANDR_MINOR_VERSION
}

/// Decides on the version the server reported in answer to the version query.
pub fn negotiate_version(reported_major: u32, reported_minor: u32) -> (r: Result<(), RandrError>)
    ensures
        version_supported(reported_major, reported_minor) <==> r is Ok,
        !version_supported(reported_major, reported_minor) ==> r == Err::<(), RandrError>(
            RandrError::UnsupportedVersion(reported_major, reported_minor),
        ),
{
    if reported_major != RANDR_MAJOR_VERSION || reported_minor < RANDR_MINOR_VERSION {
        Err(RandrError::UnsupportedVersion(reported_major, reported_minor))
    } else {
        Ok(())
    }
}

/// A controller's gamma tables as the server reported them.
#[derive(Debug)]
pub struct CrtcGamma {
    /// The controller's resource id.
    pub crtc: u32,
    /// The announced length of each channel table.
    pub size: u16,
    pub red: Vec<u16>,
    pub green: Vec<u16>,
    pub blue: Vec<u16>,
}

impl CrtcGamma {
    /// The reply announces a non-empty table and delivers three channels of
    /// exactly that size.
    pub open spec fn is_valid(&self) -> bool {
        &&& self.size > 0
        &&& self.red@.len() == self.size
        &&& self.green@.len() == self.size
        &&& self.blue@.len() == self.size
    }

    /// Whether the reply can be used.
    pub fn check(&self) -> (r: bool)
        ensures
            r == self.is_valid(),
    {
        self.size > 0 && self.red.len() == self.size as usize && self.green.len()
            == self.size as usize && self.blue.len() == self.size as usize
    }
}

/// One hardware color-correction unit.
#[derive(Debug)]
pub struct Crtc {
    /// The controller's resource id.
    pub id: u32,
    /// The length of each channel table.
    pub ramp_size: u16,
    /// The tables found at start, replayed on restore.
    pub saved: GammaRamp,
    /// The working tables, rewritten on every temperature change.
    pub scratch: GammaRamp,
}

impl Crtc {
    pub open spec fn wf(&self) -> bool {
        &&& self.ramp_size > 0
        &&& self.saved.has_len(self.ramp_size as nat)
        &&& self.scratch.has_len(self.ramp_size as nat)
    }

    /// The record made from a valid reply.
    pub open spec fn from_reply(&self, g: CrtcGamma) -> bool {
        &&& self.id == g.crtc
        &&& self.ramp_size == g.size
        &&& self.saved@ == (g.red@, g.green@, g.blue@)
        &&& self.scratch@ == (g.red@, g.green@, g.blue@)
    }
}

/// The controllers of one screen, together with the screen and the placeholder
/// window that scopes the configuration queries.
#[derive(Debug)]
pub struct RandrState {
    screen_num: i32,
    window_dummy: u32,
    crtcs: Vec<Crtc>,
}

/// A copy of one channel table.
fn copy_channel(v: &Vec<u16>) -> (r: Vec<u16>)
    ensures
        r@ == v@,
{
    let mut r: Vec<u16> = Vec::with_capacity(v.len());
    let mut i: usize = 0;
    while i < v.len()
        invariant
            i <= v@.len(),
            r@ == v@.subrange(0, i as int),
        decreases v@.len() - i,
    {
        r.push(v[i]);
        i = i + 1;
    }
    assert(r@ =~= v@);
    r
}

/// What the driver of a batch of set-gamma requests does next.
#[derive(Debug, Clone, Copy, PartialEq, Eq, Structural)]
pub enum Step {
    /// Issue the request for the controller at this index.
    Send(usize),
    /// Every request succeeded.
    Done,
    /// A request failed; nothing more is sent.
    Failed(RandrError),
}

impl RandrState {
    /// The registered controllers, in the order the server listed them.
    pub closed spec fn crtcs(&self) -> Seq<Crtc> {
        self.crtcs@
    }

    pub closed spec fn screen(&self) -> i32 {
        self.screen_num
    }

    pub closed spec fn window(&self) -> u32 {
        self.window_dummy
    }

    /// Every controller has non-empty tables, and its saved and working
    /// tables all have its ramp size.
    pub open spec fn wf(&self) -> bool {
        forall|k: int| 0 <= k < self.crtcs().len() ==> #[trigger] self.crtcs()[k].wf()
    }

    /// The set-gamma requests a restore issues, in order: each controller's id
    /// with its saved tables.
    pub open spec fn restore_plan(&self) -> Seq<(u32, (Seq<u16>, Seq<u16>, Seq<u16>))> {
        self.crtcs().map_values(|c: Crtc| (c.id, c.saved@))
    }

    /// A session on the given screen and placeholder window, with no
    /// controller registered yet.
    pub fn new(screen_num: i32, window_dummy: u32) -> (s: RandrState)
        ensures
            s.crtcs().len() == 0,
            s.screen() == screen_num,
            s.window() == window_dummy,
            s.wf(),
    {
        RandrState { screen_num, window_dummy, crtcs: Vec::new() }
    }

    /// The screen the session works on.
    pub fn screen_num(&self) -> (r: i32)
        ensures
            r == self.screen(),
    {
        self.screen_num
    }

    /// The placeholder window that scopes configuration queries.
    pub fn window_dummy(&self) -> (r: u32)
        ensures
            r == self.window(),
    {
        self.window_dummy
    }

    /// The number of registered controllers.
    pub fn crtc_count(&self) -> (r: usize)
        ensures
            r == self.crtcs().len(),
    {
        self.crtcs.len()
    }

    /// The controller at index `k`.
    pub fn crtc(&self, k: usize) -> (r: &Crtc)
        requires
            k < self.crtcs().len(),
        ensures
            *r == self.crtcs()[k as int],
    {
        &self.crtcs[k]
    }

    /// Registers the controllers of the screen from their gamma replies, in
    /// the order given. Either every reply is valid and the new set replaces
    /// the old one entirely, or the first invalid reply is reported and the
    /// registered set stays as it was.
    pub fn start(&mut self, replies: Vec<CrtcGamma>) -> (r: Result<(), RandrError>)
        requires
            old(self).wf(),
        ensures
            final(self).wf(),
            final(self).screen() == old(self).screen(),
            final(self).window() == old(self).window(),
            r is Ok <==> forall|j: int| 0 <= j < replies@.len() ==> #[trigger] replies@[j].is_valid(),
            r is Ok ==> final(self).crtcs().len() == replies@.len(),
            r is Ok ==> forall|j: int|
                0 <= j < replies@.len() ==> #[trigger] final(self).crtcs()[j].from_reply(replies@[j]),
            r is Err ==> final(self).crtcs() == old(self).crtcs(),
            r is Err ==> exists|j: int|
                0 <= j < replies@.len() && !(#[trigger] replies@[j].is_valid()) && (forall|i: int|
                    0 <= i < j ==> replies@[i].is_valid()) && r == Err::<(), RandrError>(
                    RandrError::MalformedGamma(replies@[j].crtc),
                ),
    {
        let n = replies.len();
        let mut i: usize = 0;
        while i < n
            invariant
                n == replies@.len(),
                i <= n,
                self.wf(),
                forall|j: int| 0 <= j < i ==> #[trigger] replies@[j].is_valid(),
            decreases n - i,
        {
            if !replies[i].check() {
                return Err(RandrError::MalformedGamma(replies[i].crtc));
            }
            i = i + 1;
        }
        let ghost all = replies@;
        let mut rest = replies;
        let mut crtcs: Vec<Crtc> = Vec::new();
        while rest.len() > 0
            invariant
                n == all.len(),
                self.wf(),
                crtcs@.len() + rest@.len() == n,
                rest@ == all.subrange(crtcs@.len() as int, n as int),
                forall|j: int| 0 <= j < n ==> #[trigger] all[j].is_valid(),
                forall|j: int|
                    0 <= j < crtcs@.len() ==> #[trigger] crtcs@[j].from_reply(all[j])
                        && crtcs@[j].wf(),
            decreases rest@.len(),
        {
            let ghost k = crtcs@.len() as int;
            let g = rest.remove(0);
            assert(g == all[k]);
            assert(all[k].is_valid());
            let scratch = GammaRamp {
                red: copy_channel(&g.red),
                green: copy_channel(&g.green),
                blue: copy_channel(&g.blue),
            };
            let saved = GammaRamp { red: g.red, green: g.green, blue: g.blue };
            let c = Crtc { id: g.crtc, ramp_size: g.size, saved, scratch };
            assert(c.from_reply(all[k]) && c.wf());
            crtcs.push(c);
            assert(crtcs@[k] == c);
            assert(rest@ =~= all.subrange(crtcs@.len() as int, n as int));
        }
        self.crtcs = crtcs;
        assert forall|j: int| 0 <= j < self.crtcs().len() implies #[trigger] self.crtcs()[j].wf() by {
            assert(self.crtcs()[j].from_reply(all[j]));
        }
        Ok(())
    }

    /// Rewrites the working tables of controller `k` with the linear identity
    /// ramp of its size. Nothing else changes.
    pub fn load_base_ramp(&mut self, k: usize)
        requires
            old(self).wf(),
            k < old(self).crtcs().len(),
        ensures
            final(self).wf(),
            final(self).screen() == old(self).screen(),
            final(self).window() == old(self).window(),
            final(self).crtcs().len() == old(self).crtcs().len(),
            final(self).restore_plan() == old(self).restore_plan(),
            final(self).crtcs()[k as int].ramp_size == old(self).crtcs()[k as int].ramp_size,
            final(self).crtcs()[k as int].scratch.red@ == base_ramp(
                old(self).crtcs()[k as int].ramp_size as nat,
            ),
            final(self).crtcs()[k as int].scratch.green@ == base_ramp(
                old(self).crtcs()[k as int].ramp_size as nat,
            ),
            final(self).crtcs()[k as int].scratch.blue@ == base_ramp(
                old(self).crtcs()[k as int].ramp_size as nat,
            ),
            forall|j: int|
                0 <= j < old(self).crtcs().len() && j != k ==> #[trigger] final(self).crtcs()[j]
                    == old(self).crtcs()[j],
    {
        let ghost before = self.crtcs@;
        assert(self.crtcs()[k as int].wf());
        let n = self.crtcs[k].ramp_size;
        fill_base_ramp(&mut self.crtcs[k].scratch, n);
        assert(self.crtcs()[k as int].wf());
        assert forall|j: int| 0 <= j < self.crtcs().len() implies #[trigger] self.crtcs()[j].wf() by {
            if j != k {
                assert(before[j].wf());
            }
        }
        assert(self.restore_plan() =~= before.map_values(|c: Crtc| (c.id, c.saved@)));
    }

    /// Lends the working tables of controller `k` to an in-place transform.
    /// The slices cannot grow or shrink, so the tables keep their size; the
    /// saved tables and every other controller stay as they were.
    pub fn scratch_channels_mut(&mut self, k: usize) -> (r: (&mut [u16], &mut [u16], &mut [u16]))
        requires
            old(self).wf(),
            k < old(self).crtcs().len(),
        ensures
            r.0@ == old(self).crtcs()[k as int].scratch.red@,
            r.1@ == old(self).crtcs()[k as int].scratch.green@,
            r.2@ == old(self).crtcs()[k as int].scratch.blue@,
            final(self).crtcs()[k as int].scratch.red@ == final(r.0)@,
            final(self).crtcs()[k as int].scratch.green@ == final(r.1)@,
            final(self).crtcs()[k as int].scratch.blue@ == final(r.2)@,
            final(self).crtcs()[k as int].id == old(self).crtcs()[k as int].id,
            final(self).crtcs()[k as int].ramp_size == old(self).crtcs()[k as int].ramp_size,
            final(self).crtcs()[k as int].saved == old(self).crtcs()[k as int].saved,
            final(self).crtcs().len() == old(self).crtcs().len(),
            forall|j: int|
                0 <= j < old(self).crtcs().len() && j != k ==> #[trigger] final(self).crtcs()[j]
                    == old(self).crtcs()[j],
            final(self).screen() == old(self).screen(),
            final(self).window() == old(self).window(),
            final(r.0)@.len() == r.0@.len() && final(r.1)@.len() == r.1@.len() && final(r.2)@.len()
                == r.2@.len() ==> final(self).wf(),
    {
        assert(self.crtcs()[k as int].wf());
        let c = &mut self.crtcs[k];
        let r = (
            c.scratch.red.as_mut_slice(),
            c.scratch.green.as_mut_slice(),
            c.scratch.blue.as_mut_slice(),
        );
        r
    }

    /// The set-gamma request that applies controller `k`'s working tables.
    pub fn gamma_request(&self, k: usize) -> (r: (u32, &GammaRamp))
        requires
            k < self.crtcs().len(),
        ensures
            r.0 == self.crtcs()[k as int].id,
            *r.1 == self.crtcs()[k as int].scratch,
    {
        let c = &self.crtcs[k];
        (c.id, &c.scratch)
    }

    /// The set-gamma request that gives controller `k` back its saved tables.
    pub fn restore_request(&self, k: usize) -> (r: (u32, &GammaRamp))
        requires
            k < self.crtcs().len(),
        ensures
            (r.0, r.1@) == self.restore_plan()[k as int],
            *r.1 == self.crtcs()[k as int].saved,
    {
        let c = &self.crtcs[k];
        (c.id, &c.saved)
    }

    /// Where a batch of set-gamma requests over all controllers begins. With
    /// no controller registered there is nothing to send.
    pub fn first_step(&self) -> (s: Step)
        ensures
            self.crtcs().len() == 0 ==> s == Step::Done,
            self.crtcs().len() > 0 ==> s == Step::Send(0),
    {
        if self.crtcs.len() == 0 {
            Step::Done
        } else {
            Step::Send(0)
        }
    }

    /// What follows the request for controller `k`, given how it went: the
    /// first failure ends the batch and no later controller is attempted;
    /// after a success the next controller follows, until none is left.
    pub fn next_step(&self, k: usize, outcome: Result<(), RandrError>) -> (s: Step)
        requires
            k < self.crtcs().len(),
        ensures
            outcome is Err ==> s == Step::Failed(outcome->Err_0),
            outcome is Ok && k + 1 < self.crtcs().len() ==> s == Step::Send((k + 1) as usize),
            outcome is Ok && k + 1 == self.crtcs().len() ==> s == Step::Done,
    {
        match outcome {
            Err(e) => Step::Failed(e),
            Ok(()) => {
                if k < self.crtcs.len() - 1 {
                    Step::Send(k + 1)
                } else {
                    Step::Done
                }
            },
        }
    }
}

/// In a well-formed state every controller's saved red, green and blue
/// tables and its working tables all have exactly its ramp size.
pub proof fn lemma_tables_have_ramp_size(s: &RandrState, k: int)
    requires
        s.wf(),
        0 <= k < s.crtcs().len(),
    ensures
        s.crtcs()[k].saved.red@.len() == s.crtcs()[k].ramp_size,
        s.crtcs()[k].saved.green@.len() == s.crtcs()[k].ramp_size,
        s.crtcs()[k].saved.blue@.len() == s.crtcs()[k].ramp_size,
        s.crtcs()[k].scratch.red@.len() == s.crtcs()[k].ramp_size,
        s.crtcs()[k].scratch.green@.len() == s.crtcs()[k].ramp_size,
        s.crtcs()[k].scratch.blue@.len() == s.crtcs()[k].ramp_size,
{
    assert(s.crtcs()[k].wf());
}

/// Two states whose controllers have the same ids and saved tables issue the
/// same restore requests: restoring twice, with any temperature changes in
/// between, replays identical tables.
pub proof fn lemma_restore_plan_stable(a: &RandrState, b: &RandrState)
    requires
        a.crtcs().len() == b.crtcs().len(),
        forall|j: int|
            0 <= j < a.crtcs().len() ==> #[trigger] a.crtcs()[j].id == b.crtcs()[j].id
                && a.crtcs()[j].saved == b.crtcs()[j].saved,
    ensures
        a.restore_plan() == b.restore_plan(),
{
    assert(a.restore_plan() =~= b.restore_plan());
}

} // verus!
