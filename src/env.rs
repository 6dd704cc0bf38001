use vstd::prelude::*;
use vstd::string::StringSliceAdditionalSpecFns;
use crate::cstr::{c_string, make_c_str, no_nul, nul_error};
use crate::error::{check_apicall, Error, Result};

verus! {

/// The stages of a native environment handle's life.
#[derive(Debug, Clone, Copy, PartialEq, Eq)]
pub enum EnvState {
    /// The loading call has not succeeded yet.
    Uninitialized,
    /// The handle is loaded and shared by at least one holder.
    Live,
    /// The last holder has gone and the handle was freed.
    Released,
}

/// What the last step of a release asks of the native layer.
#[derive(Debug, Clone, Copy, PartialEq, Eq)]
pub enum Release {
    /// Other holders remain: the handle stays.
    Keep,
    /// The last holder went: free the handle, now and only now.
    FreeNative,
}

/// The owner record of one native environment handle: its stage and the
/// number of holders (environment values and models) that share it.
pub struct EnvRep {
    state: EnvState,
    shares: u64,
}

/// The mathematical state of an owner record.
pub struct EnvRepView {
    pub state: EnvState,
    pub shares: nat,
}

impl View for EnvRep {
    type V = EnvRepView;

    closed spec fn view(&self) -> EnvRepView {
        EnvRepView { state: self.state, shares: self.shares as nat }
    }
}

/// A live record has holders; any other has none.
pub open spec fn rep_wf(v: EnvRepView) -> bool {
    (v.state == EnvState::Live) == (v.shares >= 1) && v.shares <= u64::MAX
}

/// A new holder of a live record.
pub open spec fn share_step(v: EnvRepView) -> EnvRepView {
    EnvRepView { state: v.state, shares: v.shares + 1 }
}

/// One holder of a live record goes; the record is released, and the handle
/// freed, when it was the last one.
pub open spec fn release_step(v: EnvRepView) -> (EnvRepView, bool) {
    if v.shares <= 1 {
        (EnvRepView { state: EnvState::Released, shares: 0 }, true)
    } else {
        (EnvRepView { state: v.state, shares: (v.shares - 1) as nat }, false)
    }
}

/// `k` holders go one after another: the record after them, and how many
/// times the handle was freed.
pub open spec fn release_many(v: EnvRepView, k: nat) -> (EnvRepView, nat)
    decreases k,
{
    if k == 0 {
        (v, 0)
    } else {
        let (w, freed) = release_step(v);
        let (u, n) = release_many(w, (k - 1) as nat);
        (u, n + if freed {
            1nat
        } else {
            0nat
        })
    }
}

impl EnvRep {
    /// A record for a handle that is about to be loaded.
    pub fn new() -> (r: EnvRep)
        ensures
            r@ == (EnvRepView { state: EnvState::Uninitialized, shares: 0 }),
            rep_wf(r@),
    {
        EnvRep { state: EnvState::Uninitialized, shares: 0 }
    }

    pub fn state(&self) -> (r: EnvState)
        ensures
            r == self@.state,
    {
        self.state
    }

    pub fn shares(&self) -> (r: u64)
        ensures
            r as nat == self@.shares,
    {
        self.shares
    }

    /// Records the status of the loading call, with the diagnostic text
    /// queried from the same handle when it failed. Only success makes the
    /// record live, with one holder.
    pub fn loaded(&mut self, status: i32, errmsg: Option<String>) -> (r: Result<()>)
        requires
            old(self)@.state == EnvState::Uninitialized,
            rep_wf(old(self)@),
        ensures
            r is Ok <==> status == 0,
            status == 0 ==> final(self)@ == (EnvRepView { state: EnvState::Live, shares: 1 }),
            status != 0 ==> final(self)@ == old(self)@,
            status != 0 ==> (r matches Err(Error::FromAPI(m, c)) && c == status && m@
                == match errmsg {
                Some(s) => s@,
                None => Seq::<char>::empty(),
            }),
            rep_wf(final(self)@),
    {
        check_apicall(status, errmsg)?;
        self.state = EnvState::Live;
        self.shares = 1;
        Ok(())
    }

    /// A new holder shares the live record (a copy of the environment, or a
    /// model built on it). No second native handle is made.
    pub fn share(&mut self)
        requires
            old(self)@.state == EnvState::Live,
            old(self)@.shares < u64::MAX,
            rep_wf(old(self)@),
        ensures
            final(self)@ == share_step(old(self)@),
            rep_wf(final(self)@),
    {
        self.shares = self.shares + 1;
    }

    /// A holder of the live record goes. The answer is `FreeNative` exactly
    /// when it was the last one; the record is then released for good.
    pub fn release(&mut self) -> (r: Release)
        requires
            old(self)@.state == EnvState::Live,
            rep_wf(old(self)@),
        ensures
            final(self)@ == release_step(old(self)@).0,
            (r == Release::FreeNative) == release_step(old(self)@).1,
            rep_wf(final(self)@),
    {
        if self.shares <= 1 {
            self.state = EnvState::Released;
            self.shares = 0;
            Release::FreeNative
        } else {
            self.shares = self.shares - 1;
            Release::Keep
        }
    }
}

/// The arguments of the client loading call in native form. The timeout is
/// carried as the bit pattern of its IEEE-754 value.
pub struct ClientArgs {
    pub logfilename: Vec<u8>,
    pub computeserver: Vec<u8>,
    pub port: i32,
    pub password: Vec<u8>,
    pub priority: i32,
    pub timeout: u64,
}

/// The error for the first of three texts that holds a NUL byte.
pub open spec fn first_nul_error(a: Seq<u8>, b: Seq<u8>, c: Seq<u8>) -> Error {
    if !no_nul(a) {
        nul_error(a)
    } else if !no_nul(b) {
        nul_error(b)
    } else {
        nul_error(c)
    }
}

/// Validates and encodes every text argument of the client loading call, so
/// that an encoding error comes before any native call is made.
pub fn prepare_client(
    logfilename: &str,
    computeserver: &str,
    port: i32,
    password: &str,
    priority: i32,
    timeout: u64,
) -> (r: Result<ClientArgs>)
    ensures
        r is Ok <==> no_nul(logfilename.spec_bytes()) && no_nul(computeserver.spec_bytes())
            && no_nul(password.spec_bytes()),
        r matches Ok(a) ==> a.logfilename@ == c_string(logfilename.spec_bytes())
            && a.computeserver@ == c_string(computeserver.spec_bytes()) && a.password@ == c_string(
            password.spec_bytes(),
        ) && a.port == port && a.priority == priority && a.timeout == timeout,
        r matches Err(e) ==> e == first_nul_error(
            logfilename.spec_bytes(),
            computeserver.spec_bytes(),
            password.spec_bytes(),
        ),
{
    let logfilename = make_c_str(logfilename)?;
    let computeserver = make_c_str(computeserver)?;
    let password = make_c_str(password)?;
    Ok(ClientArgs { logfilename, computeserver, port, password, priority, timeout })
}

/// A record shared by a new holder stays live, and keeps every holder it
/// had, when the holder it was shared from goes.
pub proof fn lemma_share_survives_release(v: EnvRepView)
    requires
        rep_wf(v),
        v.state == EnvState::Live,
    ensures
        release_step(share_step(v)).0 == v,
        !release_step(share_step(v)).1,
{
}

/// Of a live record with `n` holders, the first `k < n` to go leave it live
/// and free nothing; when all `n` have gone the handle was freed exactly once.
pub proof fn lemma_released_exactly_once(v: EnvRepView, k: nat)
    requires
        rep_wf(v),
        v.state == EnvState::Live,
        k <= v.shares,
    ensures
        k < v.shares ==> release_many(v, k) == (EnvRepView { state: EnvState::Live, shares: (v.shares - k) as nat }, 0nat),
        k == v.shares ==> release_many(v, k) == (EnvRepView { state: EnvState::Released, shares: 0 }, 1nat),
    decreases k,
{
    if k > 0 {
        let w = release_step(v).0;
        if v.shares > 1 {
            lemma_released_exactly_once(w, (k - 1) as nat);
        } else {
            assert(release_many(w, 0) == (w, 0nat));
        }
    }
}

} // verus!
